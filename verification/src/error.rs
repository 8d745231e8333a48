//! The normalized error shape returned to callers: a stable numeric code
//! and a message. All upstream and internal faults are mapped onto it.

use vstd::prelude::*;

verus! {

/// A normalized API error: `{error: code, message}`.
#[derive(Debug, Clone)]
pub struct ApiError {
    pub error: u32,
    pub message: String,
}

impl ApiError {
    /// An error with the given code and message.
    pub fn new(code: u32, message: &str) -> (r: ApiError)
        ensures
            r.error == code,
            r.message@ == message@,
    {
        ApiError { error: code, message: message.to_owned() }
    }

    /// Code 6: local validation failure or upstream-reported bad parameters.
    pub fn invalid_parameters(details: &str) -> (r: ApiError)
        ensures
            r.error == 6,
            r.message@ == "Invalid parameters - "@ + details@,
    {
        let mut message = String::new();
        message.append("Invalid parameters - ");
        message.append(details);
        ApiError { error: 6, message }
    }

    /// Code 10: the caller's key is not valid.
    pub fn invalid_api_key() -> (r: ApiError)
        ensures
            r.error == 10,
            r.message@ == "Invalid API key - You must be granted a valid key by last.fm"@,
    {
        ApiError {
            error: 10,
            message: "Invalid API key - You must be granted a valid key by last.fm".to_owned(),
        }
    }

    /// Code 11: the upstream service is unreachable or failing.
    pub fn service_offline() -> (r: ApiError)
        ensures
            r.error == 11,
            r.message@ == "Service Offline - This service is temporarily offline. Try again later."@,
    {
        ApiError {
            error: 11,
            message: "Service Offline - This service is temporarily offline. Try again later.".to_owned(),
        }
    }

    /// Code 13: an inbound request signature did not match.
    pub fn invalid_signature() -> (r: ApiError)
        ensures
            r.error == 13,
            r.message@ == "Invalid method signature supplied"@,
    {
        ApiError { error: 13, message: "Invalid method signature supplied".to_owned() }
    }

    /// Code 16: an internal fault while handling the request.
    pub fn temporary_error() -> (r: ApiError)
        ensures
            r.error == 16,
            r.message@ == "There was a temporary error processing your request. Please try again."@,
    {
        ApiError {
            error: 16,
            message: "There was a temporary error processing your request. Please try again.".to_owned(),
        }
    }

    /// Code 29: the client exceeded the request rate limit.
    pub fn rate_limit_exceeded() -> (r: ApiError)
        ensures
            r.error == 29,
            r.message@ == "Rate limit exceeded - Your IP has made too many requests in a short period"@,
    {
        ApiError {
            error: 29,
            message: "Rate limit exceeded - Your IP has made too many requests in a short period".to_owned(),
        }
    }
}

/// The result type of the request pipeline.
pub type ApiResult<T> = Result<T, ApiError>;

} // verus!
