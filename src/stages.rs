//! The five exchanges of a run. For each, what is sent (a request with an
//! exact JSON body) and what is taken out of the reply.
use vstd::prelude::*;
use vstd::string::StringExecFns;

use crate::config::Config;
use crate::context::RunContext;
use crate::headers::{header_value, with_header, HeaderList};
use crate::json::{
    field_of, first_item, first_key, is_array, is_object, json_quoted, quote, str_field, Json,
};
use crate::request::{call, is_request, sent_headers, Method, PipelineError, Request, Response};

verus! {

/// What the buyer-creation reply hands on.
pub struct BuyerRecord {
    pub buyer_id: String,
    /// The buyer-scoped session token, as the reply's authorization header gave it.
    pub token: String,
    pub contact_id: String,
}

/// What the application-creation reply hands on.
pub struct ApplicationRecord {
    pub application_id: String,
    pub payment_agreement_id: String,
}

pub open spec fn buyer_view(b: BuyerRecord) -> (Seq<char>, Seq<char>, Seq<char>) {
    (b.buyer_id@, b.token@, b.contact_id@)
}

pub open spec fn application_view(a: ApplicationRecord) -> (Seq<char>, Seq<char>) {
    (a.application_id@, a.payment_agreement_id@)
}

pub open spec fn bearer(token: Seq<char>) -> Seq<char> {
    "Bearer "@ + token
}

pub open spec fn no_headers() -> Seq<(Seq<char>, Seq<char>)> {
    Seq::empty()
}

pub open spec fn version_headers() -> Seq<(Seq<char>, Seq<char>)> {
    with_header(no_headers(), "x-api-version"@, "v2"@)
}

pub open spec fn bearer_headers(token: Seq<char>) -> Seq<(Seq<char>, Seq<char>)> {
    with_header(no_headers(), "authorization"@, bearer(token))
}

/// The code-request body around the JSON literals of phone, email and time.
pub open spec fn send_code_form(phone: Seq<char>, email: Seq<char>, at: Seq<char>) -> Seq<char> {
    "{\"deliveryMethod\":\"SMS\",\"phone\":"@ + phone + ",\"email\":"@ + email
        + ",\"disclosures\":[{\"type\":\"privacy-policy-choices\",\"acceptedAt\":"@ + at
        + "},{\"type\":\"terms-of-use\",\"acceptedAt\":"@ + at
        + "}],\"uat\":{\"auth\":{\"token\":\"1234\"}}}"@
}

pub open spec fn send_code_body(phone: Seq<char>, email: Seq<char>, at: Seq<char>) -> Seq<char> {
    send_code_form(json_quoted(phone), json_quoted(email), json_quoted(at))
}

/// The authorization body around the JSON literals of its three identifiers.
pub open spec fn authorize_form(
    reference_id: Seq<char>,
    merchant_id: Seq<char>,
    program_id: Seq<char>,
) -> Seq<char> {
    "{\"credentials\":{\"code\":\"1234\"},\"referenceID\":"@ + reference_id + ",\"merchantID\":"@
        + merchant_id + ",\"programID\":"@ + program_id + "}"@
}

pub open spec fn authorize_body(
    reference_id: Seq<char>,
    merchant_id: Seq<char>,
    program_id: Seq<char>,
) -> Seq<char> {
    authorize_form(json_quoted(reference_id), json_quoted(merchant_id), json_quoted(program_id))
}

/// The buyer-creation body around the JSON literals of phone and email.
pub open spec fn buyer_form(phone: Seq<char>, email: Seq<char>) -> Seq<char> {
    "{\"identity\":{\"birthDate\":\"1991-10-09\",\"name\":{\"additionalName\":\"One\",\"familyName\":\"Bread\",\"givenName\":\"Athens\"},\"email\":"@
        + email + ",\"phone\":"@ + phone
        + ",\"iinShort\":\"1234\"},\"languagePreference\":\"en-us\"}"@
}

pub open spec fn buyer_body(phone: Seq<char>, email: Seq<char>) -> Seq<char> {
    buyer_form(json_quoted(phone), json_quoted(email))
}

/// The contact-update body around the JSON literals of phone and email.
pub open spec fn contact_form(phone: Seq<char>, email: Seq<char>) -> Seq<char> {
    "{\"name\":{\"additionalName\":\"One\",\"familyName\":\"Bread\",\"givenName\":\"Athens\"},\"address\":{\"address1\":\"78-22 88th Avenue\",\"address2\":\"\",\"locality\":\"New York\",\"region\":\"NY\",\"postalCode\":\"10028\",\"country\":\"US\"},\"email\":"@
        + email + ",\"phone\":"@ + phone + "}"@
}

pub open spec fn contact_body(phone: Seq<char>, email: Seq<char>) -> Seq<char> {
    contact_form(json_quoted(phone), json_quoted(email))
}

/// The application body around the JSON literal of the acceptance time.
pub open spec fn application_form(at: Seq<char>) -> Seq<char> {
    "{\"productType\":\"LOAN\",\"order\":{\"orderitem\":[{\"name\":\"MK Cycle\",\"quantity\":1,\"unitPrice\":{\"currency\":\"USD\",\"value\":100000},\"unitTax\":{\"currency\":\"USD\",\"value\":0},\"shippingCost\":{\"currency\":\"USD\",\"value\":0}}],\"subTotal\":{\"currency\":\"USD\",\"value\":100000},\"totalTax\":{\"currency\":\"USD\",\"value\":10000},\"totalPrice\":{\"currency\":\"USD\",\"value\":110000},\"totalShipping\":{\"currency\":\"USD\",\"value\":0},\"totalDiscounts\":{\"currency\":\"USD\",\"value\":0}},\"disclosures\":[{\"type\":\"SOFT_PULL\",\"acceptedAt\":"@
        + at + "}]}"@
}

pub open spec fn application_body(at: Seq<char>) -> Seq<char> {
    application_form(json_quoted(at))
}

/// A present text, or `FieldMissing`.
pub open spec fn required(o: Option<Seq<char>>) -> Result<Seq<char>, PipelineError> {
    match o {
        Some(s) => Ok(s),
        None => Err(PipelineError::FieldMissing),
    }
}

pub open spec fn text_result(r: Result<String, PipelineError>) -> Result<Seq<char>, PipelineError> {
    match r {
        Ok(s) => Ok(s@),
        Err(e) => Err(e),
    }
}

/// The contact identifier of a buyer-creation reply body: the first key of
/// its `contacts` object.
pub open spec fn contact_result(body: Json) -> Result<Seq<char>, PipelineError> {
    match field_of(body, "contacts"@) {
        Some(c) => if !is_object(c) {
            Err(PipelineError::FieldMissing)
        } else {
            match first_key(c) {
                Some(k) => Ok(k),
                None => Err(PipelineError::EmptyMap),
            }
        },
        None => Err(PipelineError::FieldMissing),
    }
}

/// Buyer identifier, buyer token and contact identifier of a buyer-creation reply.
pub open spec fn buyer_result(resp: Response) -> Result<(Seq<char>, Seq<char>, Seq<char>), PipelineError> {
    match header_value(resp.headers@, "authorization"@) {
        None => Err(PipelineError::HeaderMissing),
        Some(token) => match str_field(resp.body, "id"@) {
            None => Err(PipelineError::FieldMissing),
            Some(id) => match contact_result(resp.body) {
                Ok(contact) => Ok((id, token, contact)),
                Err(e) => Err(e),
            },
        },
    }
}

/// The payment-agreement identifier of an application reply body:
/// `paymentAgreements[0].id`.
pub open spec fn agreement_result(body: Json) -> Result<Seq<char>, PipelineError> {
    match field_of(body, "paymentAgreements"@) {
        Some(a) => if !is_array(a) {
            Err(PipelineError::FieldMissing)
        } else {
            match first_item(a) {
                Some(x) => required(str_field(x, "id"@)),
                None => Err(PipelineError::Index),
            }
        },
        None => Err(PipelineError::FieldMissing),
    }
}

/// Application identifier and payment-agreement identifier of an application reply.
pub open spec fn application_result(body: Json) -> Result<(Seq<char>, Seq<char>), PipelineError> {
    match str_field(body, "id"@) {
        None => Err(PipelineError::FieldMissing),
        Some(id) => match agreement_result(body) {
            Ok(p) => Ok((id, p)),
            Err(e) => Err(e),
        },
    }
}

pub open spec fn summary_text(application_id: Seq<char>, payment_agreement_id: Seq<char>) -> Seq<char> {
    "ApplicationId:"@ + application_id + " PaymentAgreementId:"@ + payment_agreement_id
}

fn version_header_list() -> (r: HeaderList)
    ensures
        r@ == version_headers(),
{
    let mut h = HeaderList::new();
    h.set("x-api-version", "v2");
    h
}

fn bearer_header_list(token: &str) -> (r: HeaderList)
    ensures
        r@ == bearer_headers(token@),
{
    let value = "Bearer ".to_owned().concat(token);
    let mut h = HeaderList::new();
    h.set("authorization", value.as_str());
    h
}

fn text_field(body: &Json, key: &str) -> (r: Result<String, PipelineError>)
    ensures
        text_result(r) == required(str_field(*body, key@)),
{
    match body.get_str(key) {
        Some(s) => Ok(s),
        None => Err(PipelineError::FieldMissing),
    }
}

/// The code-request body, given the JSON literals of phone, email and time.
pub fn fill_send_code(phone: &str, email: &str, at: &str) -> (r: String)
    ensures
        r@ == send_code_form(phone@, email@, at@),
{
    "{\"deliveryMethod\":\"SMS\",\"phone\":".to_owned().concat(phone).concat(",\"email\":").concat(
        email,
    ).concat(",\"disclosures\":[{\"type\":\"privacy-policy-choices\",\"acceptedAt\":").concat(
        at,
    ).concat("},{\"type\":\"terms-of-use\",\"acceptedAt\":").concat(at).concat(
        "}],\"uat\":{\"auth\":{\"token\":\"1234\"}}}",
    )
}

/// The authorization body, given the JSON literals of its three identifiers.
pub fn fill_authorize(reference_id: &str, merchant_id: &str, program_id: &str) -> (r: String)
    ensures
        r@ == authorize_form(reference_id@, merchant_id@, program_id@),
{
    "{\"credentials\":{\"code\":\"1234\"},\"referenceID\":".to_owned().concat(reference_id).concat(
        ",\"merchantID\":",
    ).concat(merchant_id).concat(",\"programID\":").concat(program_id).concat("}")
}

/// The buyer-creation body, given the JSON literals of phone and email.
pub fn fill_buyer(phone: &str, email: &str) -> (r: String)
    ensures
        r@ == buyer_form(phone@, email@),
{
    "{\"identity\":{\"birthDate\":\"1991-10-09\",\"name\":{\"additionalName\":\"One\",\"familyName\":\"Bread\",\"givenName\":\"Athens\"},\"email\":".to_owned().concat(
    email).concat(",\"phone\":").concat(phone).concat(
        ",\"iinShort\":\"1234\"},\"languagePreference\":\"en-us\"}",
    )
}

/// The contact-update body, given the JSON literals of phone and email.
pub fn fill_contact(phone: &str, email: &str) -> (r: String)
    ensures
        r@ == contact_form(phone@, email@),
{
    "{\"name\":{\"additionalName\":\"One\",\"familyName\":\"Bread\",\"givenName\":\"Athens\"},\"address\":{\"address1\":\"78-22 88th Avenue\",\"address2\":\"\",\"locality\":\"New York\",\"region\":\"NY\",\"postalCode\":\"10028\",\"country\":\"US\"},\"email\":".to_owned().concat(
    email).concat(",\"phone\":").concat(phone).concat("}")
}

/// The application body, given the JSON literal of the acceptance time.
pub fn fill_application(at: &str) -> (r: String)
    ensures
        r@ == application_form(at@),
{
    "{\"productType\":\"LOAN\",\"order\":{\"orderitem\":[{\"name\":\"MK Cycle\",\"quantity\":1,\"unitPrice\":{\"currency\":\"USD\",\"value\":100000},\"unitTax\":{\"currency\":\"USD\",\"value\":0},\"shippingCost\":{\"currency\":\"USD\",\"value\":0}}],\"subTotal\":{\"currency\":\"USD\",\"value\":100000},\"totalTax\":{\"currency\":\"USD\",\"value\":10000},\"totalPrice\":{\"currency\":\"USD\",\"value\":110000},\"totalShipping\":{\"currency\":\"USD\",\"value\":0},\"totalDiscounts\":{\"currency\":\"USD\",\"value\":0}},\"disclosures\":[{\"type\":\"SOFT_PULL\",\"acceptedAt\":".to_owned().concat(
    at).concat("}]}")
}

/// Code request: asks for a one-time code to be sent to the run's phone and email.
pub fn send_code(config: &Config, context: &RunContext, accepted_at: &str) -> (r: Request)
    ensures
        is_request(
            r,
            Method::Post,
            config.base_url@ + "/api/auth/send-code"@,
            sent_headers(config.app_id@, context.request_id@, version_headers()),
            Some(send_code_body(context.phone@, context.email@, accepted_at@)),
        ),
{
    let body = fill_send_code(
        quote(context.phone.as_str()).as_str(),
        quote(context.email.as_str()).as_str(),
        quote(accepted_at).as_str(),
    );
    let url = config.send_code_url();
    call(
        config,
        context.request_id.as_str(),
        Method::Post,
        url.as_str(),
        Some(body),
        &version_header_list(),
    )
}

/// The reference identifier of a code-request reply.
pub fn send_code_reply(resp: &Response) -> (r: Result<String, PipelineError>)
    ensures
        text_result(r) == required(str_field(resp.body, "referenceID"@)),
{
    text_field(&resp.body, "referenceID")
}

/// Anonymous authorization: redeems the code for `reference_id`.
pub fn authorize_buyer(config: &Config, context: &RunContext, reference_id: &str) -> (r: Request)
    ensures
        is_request(
            r,
            Method::Post,
            config.base_url@ + "/api/auth/buyer/authorize"@,
            sent_headers(config.app_id@, context.request_id@, no_headers()),
            Some(authorize_body(reference_id@, config.merchant_id@, config.program_id@)),
        ),
{
    let body = fill_authorize(
        quote(reference_id).as_str(),
        quote(config.merchant_id.as_str()).as_str(),
        quote(config.program_id.as_str()).as_str(),
    );
    let url = config.buyer_authorize_url();
    call(
        config,
        context.request_id.as_str(),
        Method::Post,
        url.as_str(),
        Some(body),
        &HeaderList::new(),
    )
}

/// The anonymous token of an authorization reply.
pub fn authorize_buyer_reply(resp: &Response) -> (r: Result<String, PipelineError>)
    ensures
        text_result(r) == required(str_field(resp.body, "token"@)),
{
    text_field(&resp.body, "token")
}

/// Buyer creation, authorized by the anonymous token.
pub fn create_buyer(config: &Config, context: &RunContext, anonymous_token: &str) -> (r: Request)
    ensures
        is_request(
            r,
            Method::Post,
            config.base_url@ + "/api/buyer"@,
            sent_headers(config.app_id@, context.request_id@, bearer_headers(anonymous_token@)),
            Some(buyer_body(context.phone@, context.email@)),
        ),
{
    let body = fill_buyer(
        quote(context.phone.as_str()).as_str(),
        quote(context.email.as_str()).as_str(),
    );
    let url = config.buyer_url();
    call(
        config,
        context.request_id.as_str(),
        Method::Post,
        url.as_str(),
        Some(body),
        &bearer_header_list(anonymous_token),
    )
}

/// The contact identifier in a buyer-creation reply body: the first key of
/// its `contacts` object, in the order the decoder kept.
pub fn get_contact_id(body: &Json) -> (r: Result<String, PipelineError>)
    ensures
        text_result(r) == contact_result(*body),
{
    match body.field("contacts") {
        Some(c) => if !c.is_object() {
            Err(PipelineError::FieldMissing)
        } else {
            match c.first_key() {
                Some(k) => Ok(k),
                None => Err(PipelineError::EmptyMap),
            }
        },
        None => Err(PipelineError::FieldMissing),
    }
}

/// Buyer identifier, buyer token and contact identifier of a buyer-creation reply.
pub fn create_buyer_reply(resp: &Response) -> (r: Result<BuyerRecord, PipelineError>)
    ensures
        match r {
            Ok(b) => buyer_result(*resp) == Ok::<_, PipelineError>(buyer_view(b)),
            Err(e) => buyer_result(*resp) == Err::<(Seq<char>, Seq<char>, Seq<char>), _>(e),
        },
{
    let token = match resp.headers.get("authorization") {
        Some(t) => t,
        None => {
            return Err(PipelineError::HeaderMissing);
        },
    };
    let buyer_id = match text_field(&resp.body, "id") {
        Ok(s) => s,
        Err(e) => {
            return Err(e);
        },
    };
    let contact_id = match get_contact_id(&resp.body) {
        Ok(s) => s,
        Err(e) => {
            return Err(e);
        },
    };
    Ok(BuyerRecord { buyer_id, token, contact_id })
}

/// Contact update: puts the run's full contact details onto the buyer's
/// contact record, authorized by the buyer token.
pub fn update_buyer_contact(config: &Config, context: &RunContext, buyer: &BuyerRecord) -> (r:
    Request)
    ensures
        is_request(
            r,
            Method::Put,
            config.base_url@ + "/api/buyer/"@ + buyer.buyer_id@ + "/contact/"@ + buyer.contact_id@,
            sent_headers(config.app_id@, context.request_id@, bearer_headers(buyer.token@)),
            Some(contact_body(context.phone@, context.email@)),
        ),
{
    let body = fill_contact(
        quote(context.phone.as_str()).as_str(),
        quote(context.email.as_str()).as_str(),
    );
    let url = config.contact_url(buyer.buyer_id.as_str(), buyer.contact_id.as_str());
    call(
        config,
        context.request_id.as_str(),
        Method::Put,
        url.as_str(),
        Some(body),
        &bearer_header_list(buyer.token.as_str()),
    )
}

/// Application creation: submits the loan application, authorized by the
/// buyer token.
pub fn create_application(
    config: &Config,
    context: &RunContext,
    buyer_token: &str,
    accepted_at: &str,
) -> (r: Request)
    ensures
        is_request(
            r,
            Method::Post,
            config.base_url@ + "/api/application"@,
            sent_headers(
                config.app_id@,
                context.request_id@,
                with_header(bearer_headers(buyer_token@), "x-api-version"@, "v2"@),
            ),
            Some(application_body(accepted_at@)),
        ),
{
    let body = fill_application(quote(accepted_at).as_str());
    let mut headers = bearer_header_list(buyer_token);
    headers.set("x-api-version", "v2");
    let url = config.application_url();
    call(config, context.request_id.as_str(), Method::Post, url.as_str(), Some(body), &headers)
}

/// Application identifier and payment-agreement identifier of an application reply.
pub fn create_application_reply(resp: &Response) -> (r: Result<ApplicationRecord, PipelineError>)
    ensures
        match r {
            Ok(a) => application_result(resp.body) == Ok::<_, PipelineError>(application_view(a)),
            Err(e) => application_result(resp.body) == Err::<(Seq<char>, Seq<char>), _>(e),
        },
{
    let application_id = match text_field(&resp.body, "id") {
        Ok(s) => s,
        Err(e) => {
            return Err(e);
        },
    };
    let agreements = match resp.body.field("paymentAgreements") {
        Some(a) => a,
        None => {
            return Err(PipelineError::FieldMissing);
        },
    };
    if !agreements.is_array() {
        return Err(PipelineError::FieldMissing);
    }
    let first = match agreements.first_item() {
        Some(x) => x,
        None => {
            return Err(PipelineError::Index);
        },
    };
    let payment_agreement_id = match text_field(first, "id") {
        Ok(s) => s,
        Err(e) => {
            return Err(e);
        },
    };
    Ok(ApplicationRecord { application_id, payment_agreement_id })
}

impl ApplicationRecord {
    /// The line a finished run prints.
    pub fn summary_line(&self) -> (r: String)
        ensures
            r@ == summary_text(self.application_id@, self.payment_agreement_id@),
    {
        "ApplicationId:".to_owned().concat(self.application_id.as_str()).concat(
            " PaymentAgreementId:",
        ).concat(self.payment_agreement_id.as_str())
    }
}

} // verus!
