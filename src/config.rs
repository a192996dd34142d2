//! Where the client talks to and as whom: the service's base address and the
//! identifiers it sends on every run.
use vstd::prelude::*;
use vstd::string::StringExecFns;

verus! {

pub struct Config {
    /// Scheme and host of the service, without a trailing slash.
    pub base_url: String,
    /// Sent on every request as the application identifier header.
    pub app_id: String,
    pub merchant_id: String,
    pub program_id: String,
}

impl Config {
    pub fn new(base_url: &str, app_id: &str, merchant_id: &str, program_id: &str) -> (r: Config)
        ensures
            r.base_url@ == base_url@,
            r.app_id@ == app_id@,
            r.merchant_id@ == merchant_id@,
            r.program_id@ == program_id@,
    {
        Config {
            base_url: base_url.to_owned(),
            app_id: app_id.to_owned(),
            merchant_id: merchant_id.to_owned(),
            program_id: program_id.to_owned(),
        }
    }

    /// The development gateway and the identifiers registered for it.
    pub fn standard() -> (r: Config)
        ensures
            r.base_url@ == "https://api.npp-dev-ads.ue2.breadgateway.net"@,
            r.app_id@ == "9132d63e-78fd-4ee4-bde2-68583a4657b8"@,
            r.merchant_id@ == "0020fa5a-f107-4ba7-b7f0-d869ea0eed07"@,
            r.program_id@ == "b7beac2e-2714-4d1d-b110-72e405b41c34"@,
    {
        Config::new(
            "https://api.npp-dev-ads.ue2.breadgateway.net",
            "9132d63e-78fd-4ee4-bde2-68583a4657b8",
            "0020fa5a-f107-4ba7-b7f0-d869ea0eed07",
            "b7beac2e-2714-4d1d-b110-72e405b41c34",
        )
    }

    pub fn send_code_url(&self) -> (r: String)
        ensures
            r@ == self.base_url@ + "/api/auth/send-code"@,
    {
        self.base_url.clone().concat("/api/auth/send-code")
    }

    pub fn buyer_authorize_url(&self) -> (r: String)
        ensures
            r@ == self.base_url@ + "/api/auth/buyer/authorize"@,
    {
        self.base_url.clone().concat("/api/auth/buyer/authorize")
    }

    pub fn buyer_url(&self) -> (r: String)
        ensures
            r@ == self.base_url@ + "/api/buyer"@,
    {
        self.base_url.clone().concat("/api/buyer")
    }

    /// The contact record `contact_id` of the buyer `buyer_id`.
    pub fn contact_url(&self, buyer_id: &str, contact_id: &str) -> (r: String)
        ensures
            r@ == self.base_url@ + "/api/buyer/"@ + buyer_id@ + "/contact/"@ + contact_id@,
    {
        self.base_url.clone().concat("/api/buyer/").concat(buyer_id).concat("/contact/").concat(
            contact_id,
        )
    }

    pub fn application_url(&self) -> (r: String)
        ensures
            r@ == self.base_url@ + "/api/application"@,
    {
        self.base_url.clone().concat("/api/application")
    }
}

} // verus!
