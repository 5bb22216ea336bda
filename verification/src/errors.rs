//! The central error type of the library.
//!
//! Recoverable application-visible outcomes (a non-2xx status after the retry
//! policy is exhausted) are not errors: they come back as an `ApiResponse`
//! with `success == false`.  `NgError` covers the fatal outcomes: bad
//! configuration, a disallowed method or broken invariant, and transport or
//! decode failures.

use vstd::prelude::*;

use crate::text::{dec_str, int_str, i64_to_string, u64_to_string};

verus! {

/// Central error type for the library.
#[derive(Debug, Clone, PartialEq, Eq)]
pub enum NgError {
    /// Error related to configuration loading or merging.
    ConfigError(String),
    /// Error related to internal logic or state.
    InternalError(String),
    /// Standard HTTP request or network failure, including a JSON decode
    /// failure on an otherwise successful response.
    HttpError(String),
    /// The remote API answered with non-JSON content or an HTTP failure,
    /// often a maintenance page or a proxy.
    NonJsonResponse {
        /// The target URL that was requested.
        url: String,
        /// The HTTP status code received.
        status: u16,
        /// A snippet of the response body for diagnostic purposes.
        body_snippet: String,
    },
    /// The remote API returned a successful HTTP status but a business-level
    /// failure code.
    NasdaqBusinessError {
        /// The rCode returned in the JSON status block.
        r_code: i64,
        /// The endpoint URL that was called.
        endpoint: String,
        /// The full response body for deeper inspection.
        response: String,
    },
    /// The JSON structure is missing expected mandatory fields.
    MalformedResponse {
        /// The endpoint URL that was called.
        endpoint: String,
        /// Description of why the structure was considered malformed.
        details: String,
    },
}

/// The human-readable message of an error.
pub open spec fn message_of(e: NgError) -> Seq<char> {
    match e {
        NgError::ConfigError(m) => "Configuration error: "@ + m@,
        NgError::InternalError(m) => "Internal error: "@ + m@,
        NgError::HttpError(m) => "HTTP error: "@ + m@,
        NgError::NonJsonResponse { url, status, body_snippet: _ } => "Nasdaq API returned non-JSON content from "@
            + url@ + ". Status: "@ + dec_str(status as int),
        NgError::NasdaqBusinessError { r_code, endpoint, response: _ } => "Nasdaq API business error (rCode "@
            + int_str(r_code as int) + ") at "@ + endpoint@,
        NgError::MalformedResponse { endpoint, details } => "Malformed Nasdaq API response structure at "@
            + endpoint@ + ": "@ + details@,
    }
}

impl NgError {
    /// Renders the error as one human-readable line.
    pub fn message(&self) -> (r: String)
        ensures
            r@ == message_of(*self),
    {
        match self {
            NgError::ConfigError(m) => {
                let mut s = String::from_str("Configuration error: ");
                s.append(m.as_str());
                s
            },
            NgError::InternalError(m) => {
                let mut s = String::from_str("Internal error: ");
                s.append(m.as_str());
                s
            },
            NgError::HttpError(m) => {
                let mut s = String::from_str("HTTP error: ");
                s.append(m.as_str());
                s
            },
            NgError::NonJsonResponse { url, status, body_snippet: _ } => {
                let mut s = String::from_str("Nasdaq API returned non-JSON content from ");
                s.append(url.as_str());
                s.append(". Status: ");
                let digits = u64_to_string(*status as u64);
                s.append(digits.as_str());
                s
            },
            NgError::NasdaqBusinessError { r_code, endpoint, response: _ } => {
                let mut s = String::from_str("Nasdaq API business error (rCode ");
                let digits = i64_to_string(*r_code);
                s.append(digits.as_str());
                s.append(") at ");
                s.append(endpoint.as_str());
                s
            },
            NgError::MalformedResponse { endpoint, details } => {
                let mut s = String::from_str("Malformed Nasdaq API response structure at ");
                s.append(endpoint.as_str());
                s.append(": ");
                s.append(details.as_str());
                s
            },
        }
    }
}

} // verus!
