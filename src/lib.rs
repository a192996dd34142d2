//! Verified core of a buyer-onboarding and loan-application client.
//!
//! The library decides everything the client sends and everything it reads
//! back: request headers, request bodies, endpoint addresses, the fields taken
//! out of each response, and the order of the five exchanges. Performing the
//! HTTP exchanges is left to the caller.
pub mod clock;
pub mod config;
pub mod context;
pub mod headers;
pub mod json;
pub mod pipeline;
pub mod request;
pub mod stages;
