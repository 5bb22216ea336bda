//! The response wrapper handed back to callers.
//!
//! Callers must branch on both layers: the outer `Result` distinguishes "the
//! call could not be completed" from "the call completed", and the `success`
//! flag inside distinguishes a 2xx answer from a non-2xx answer that the
//! retry policy would not, or could not, retry.

use vstd::prelude::*;

use crate::classify::is_success_status;
use crate::errors::NgError;

verus! {

/// Standard response wrapper returned on non-fatal completion.
#[derive(Debug)]
pub struct ApiResponse<T> {
    /// Parsed JSON body when successful.
    pub data: Option<T>,
    /// Raw error body text when non-successful.
    pub error_body: Option<String>,
    /// HTTP status code.
    pub status: u16,
    /// Whether the response was successful (2xx).
    pub success: bool,
    /// Response headers.
    pub headers: Vec<(String, String)>,
}

/// The response for an accepted (2xx) answer whose body decoded into the
/// caller's type.
pub fn accept_response<T>(status: u16, headers: Vec<(String, String)>, data: T) -> (r: ApiResponse<
    T,
>)
    requires
        is_success_status(status),
    ensures
        r.success,
        r.data == Some(data),
        r.error_body is None,
        r.status == status,
        r.headers == headers,
{
    ApiResponse { data: Some(data), error_body: None, status, success: true, headers }
}

/// The response for a refused (non-2xx, not retried) answer: recoverable
/// application-level information, carrying the status and the body.
pub fn refuse_response<T>(status: u16, headers: Vec<(String, String)>, body: String) -> (r:
    ApiResponse<T>)
    ensures
        !r.success,
        r.data is None,
        r.status == status,
        r.headers == headers,
        body@.len() == 0 ==> r.error_body is None,
        body@.len() > 0 ==> r.error_body == Some(body),
{
    let error_body = if body.as_str().is_empty() {
        None
    } else {
        Some(body)
    };
    ApiResponse { data: None, error_body, status, success: false, headers }
}

/// The terminal error for a 2xx body that failed to decode into the
/// requested type.  A malformed success body is not transient: it is never
/// retried, whatever retry budget remains.
pub fn decode_error(detail: String) -> (r: NgError)
    ensures
        r matches NgError::HttpError(m) && m@ == "JSON decode: "@ + detail@,
{
    let mut msg = String::from_str("JSON decode: ");
    msg.append(detail.as_str());
    NgError::HttpError(msg)
}

} // verus!
