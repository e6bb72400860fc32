use vstd::prelude::*;
use vstd::string::*;

use crate::mochow::api::common::ServiceError;

verus! {

/// The transport error of the HTTP client, carried as it came.
#[verifier::external_type_specification]
#[verifier::external_body]
pub struct ExReqwestError(reqwest::Error);

/// The error of the middleware stack (retry, tracing), carried as it came.
#[verifier::external_type_specification]
#[verifier::external_body]
pub struct ExMiddlewareError(reqwest_middleware::Error);

/// Every failure that a call of this library can end in.
#[derive(Debug)]
pub enum SdkError {
    /// The HTTP transport failed.
    RequestError(reqwest::Error),
    /// The middleware stack failed (retries exhausted, a middleware refused).
    RequestMiddlewareError(reqwest_middleware::Error),
    /// The service answered with a 4xx or 5xx status.
    ServiceError(ServiceError),
    /// An argument was missing or empty; raised before any network call.
    ParamsError(String),
    /// Anything else, such as a response body that does not decode.
    OtherError(String),
}

impl SdkError {
    /// A description of the error.
    pub fn to_string(&self) -> (r: String)
        ensures
            self matches SdkError::ParamsError(m) ==> r@ == "params error: "@ + m@,
            self matches SdkError::OtherError(m) ==> r@ == "other error: "@ + m@ + ". \ndetail "@
                + m@,
            self matches SdkError::ServiceError(e) ==> r@ == "service Error: "@ + e.describe(),
            self is RequestError ==> "request error: "@.is_prefix_of(r@),
            self is RequestMiddlewareError ==> "request middleware error: "@.is_prefix_of(r@),
    {
        match self {
            SdkError::ParamsError(m) => String::from_str("params error: ").concat(m.as_str()),
            SdkError::OtherError(m) => String::from_str("other error: ").concat(m.as_str()).concat(
                ". \ndetail ",
            ).concat(m.as_str()),
            SdkError::ServiceError(e) => String::from_str("service Error: ").concat(
                e.to_string().as_str(),
            ),
            SdkError::RequestError(e) => with_detail(
                "request error: ",
                request_error_text(e),
                request_error_detail(e),
            ),
            SdkError::RequestMiddlewareError(e) => with_detail(
                "request middleware error: ",
                middleware_error_text(e),
                middleware_error_detail(e),
            ),
        }
    }
}

/// `<prefix><text>. \ndetail <detail>`.
fn with_detail(prefix: &str, text: String, detail: String) -> (r: String)
    ensures
        r@ == prefix@ + text@ + ". \ndetail "@ + detail@,
        prefix@.is_prefix_of(r@),
{
    let r = String::from_str(prefix).concat(text.as_str()).concat(". \ndetail ").concat(
        detail.as_str(),
    );
    assert(r@.subrange(0, prefix@.len() as int) =~= prefix@);
    r
}

/// Relies on reqwest's `Display` for its error.
#[verifier::external_body]
fn request_error_text(e: &reqwest::Error) -> (r: String) {
    e.to_string()
}

/// Relies on reqwest's `Debug` for its error.
#[verifier::external_body]
fn request_error_detail(e: &reqwest::Error) -> (r: String) {
    format!("{:?}", e)
}

/// Relies on reqwest_middleware's `Display` for its error.
#[verifier::external_body]
fn middleware_error_text(e: &reqwest_middleware::Error) -> (r: String) {
    e.to_string()
}

/// Relies on reqwest_middleware's `Debug` for its error.
#[verifier::external_body]
fn middleware_error_detail(e: &reqwest_middleware::Error) -> (r: String) {
    format!("{:?}", e)
}

} // verus!
