//! Business-level validation rules of the market-data adapters.
//!
//! The adapters fetch JSON over the resilient client; the network side and
//! the JSON navigation live with the runner.  What is decided here works on
//! plain values: endpoint shape, the success flag, the business status code,
//! and the snippets carried into errors.

use vstd::prelude::*;

use crate::errors::NgError;
use crate::text::{join_url, prefix_chars, strip_leading_slashes};

verus! {

/// True when the text begins with `http`.
pub open spec fn starts_with_http(s: Seq<char>) -> bool {
    s.len() >= 4 && s.subrange(0, 4) == "http"@
}

/// Executable test for a URL-shaped endpoint.
pub fn url_is_http(s: &str) -> (r: bool)
    ensures
        r == starts_with_http(s@),
{
    proof {
        reveal_strlit("http");
    }
    let n = s.unicode_len();
    if n < 4 {
        return false;
    }
    let r = s.get_char(0) == 'h' && s.get_char(1) == 't' && s.get_char(2) == 't' && s.get_char(3)
        == 'p';
    proof {
        if r {
            assert(s@.subrange(0, 4) =~= "http"@);
        } else {
            assert(s@.subrange(0, 4) != "http"@) by {
                if s@.subrange(0, 4) == "http"@ {
                    assert(s@.subrange(0, 4)[0] == s@[0]);
                    assert(s@.subrange(0, 4)[1] == s@[1]);
                    assert(s@.subrange(0, 4)[2] == s@[2]);
                    assert(s@.subrange(0, 4)[3] == s@[3]);
                }
            }
        }
    }
    r
}

/// Rejects an endpoint that is not URL-shaped.  The runner applies this
/// before issuing any request, so a bad endpoint never reaches the network.
pub fn check_endpoint(endpoint: &str) -> (r: Result<(), NgError>)
    ensures
        starts_with_http(endpoint@) ==> r is Ok,
        !starts_with_http(endpoint@) ==> (r matches Err(NgError::HttpError(m)) && m@
            == "Invalid URL provided: "@ + endpoint@),
{
    if url_is_http(endpoint) {
        Ok(())
    } else {
        let mut m = String::from_str("Invalid URL provided: ");
        m.append(endpoint);
        Err(NgError::HttpError(m))
    }
}

/// The character-bounded snippet the Nasdaq adapter keeps of an error body.
pub open spec fn nasdaq_snippet(body: Option<Seq<char>>) -> Seq<char> {
    let full = match body {
        Some(b) => b,
        None => ""@,
    };
    if full.len() > 200 {
        full.subrange(0, 200)
    } else {
        full
    }
}

/// Validates one Nasdaq API answer: the endpoint must be URL-shaped, the
/// HTTP layer must have succeeded with parseable JSON, and the business
/// status block must carry `rCode` 200.  `success` is the client's flag,
/// `r_code` the value of `status.rCode` when present, `body` the full
/// response text kept for diagnostics.
pub fn validate_nasdaq_response(
    endpoint: &str,
    success: bool,
    status: u16,
    error_body: Option<&str>,
    r_code: Option<i64>,
    body: String,
) -> (r: Result<(), NgError>)
    ensures
        !starts_with_http(endpoint@) ==> (r matches Err(NgError::HttpError(m)) && m@
            == "Invalid URL provided: "@ + endpoint@),
        starts_with_http(endpoint@) && !success ==> (r matches Err(
            NgError::NonJsonResponse { url, status: st, body_snippet },
        ) && url@ == endpoint@ && st == status && body_snippet@ == nasdaq_snippet(
            match error_body {
                Some(b) => Some(b@),
                None => None,
            },
        )),
        starts_with_http(endpoint@) && success ==> match r_code {
            Some(200i64) => r is Ok,
            Some(c) => (r matches Err(NgError::NasdaqBusinessError { r_code: rc, endpoint: ep, response })
                && rc == c && ep@ == endpoint@ && response == body),
            None => (r matches Err(NgError::MalformedResponse { endpoint: ep, details }) && ep@
                == endpoint@ && details@ == "Missing 'rCode' in response status block"@),
        },
{
    if let Err(e) = check_endpoint(endpoint) {
        return Err(e);
    }
    if !success {
        let raw = match error_body {
            Some(b) => b,
            None => "",
        };
        let snippet = prefix_chars(raw, 200);
        proof {
            if raw@.len() <= 200 {
                assert(snippet@ == raw@);
            }
        }
        return Err(
            NgError::NonJsonResponse {
                url: String::from_str(endpoint),
                status,
                body_snippet: snippet,
            },
        );
    }
    match r_code {
        Some(code) => {
            if code == 200 {
                Ok(())
            } else {
                Err(
                    NgError::NasdaqBusinessError {
                        r_code: code,
                        endpoint: String::from_str(endpoint),
                        response: body,
                    },
                )
            }
        },
        None => Err(
            NgError::MalformedResponse {
                endpoint: String::from_str(endpoint),
                details: String::from_str("Missing 'rCode' in response status block"),
            },
        ),
    }
}

/// The character-bounded snippet the CNN adapter keeps of an error body;
/// an absent body is noted as such.
pub open spec fn cnn_snippet(body: Option<Seq<char>>) -> Seq<char> {
    let full = match body {
        Some(b) => b,
        None => "[No Body]"@,
    };
    if full.len() > 250 {
        full.subrange(0, 250)
    } else {
        full
    }
}

/// Validates one CNN API answer: the HTTP layer must have succeeded with
/// parseable JSON; a failure carries the status and a bounded snippet.
pub fn validate_cnn_response(endpoint: &str, success: bool, status: u16, error_body: Option<&str>)
    -> (r: Result<(), NgError>)
    ensures
        success ==> r is Ok,
        !success ==> (r matches Err(NgError::NonJsonResponse { url, status: st, body_snippet })
            && url@ == endpoint@ && st == status && body_snippet@ == cnn_snippet(
            match error_body {
                Some(b) => Some(b@),
                None => None,
            },
        )),
{
    if success {
        return Ok(());
    }
    let raw = match error_body {
        Some(b) => b,
        None => "[No Body]",
    };
    let snippet = prefix_chars(raw, 250);
    proof {
        if raw@.len() <= 250 {
            assert(snippet@ == raw@);
        }
    }
    Err(NgError::NonJsonResponse { url: String::from_str(endpoint), status, body_snippet: snippet })
}

/// The full URL of a CNN Fear & Greed endpoint.
pub fn cnn_url(endpoint: &str) -> (r: String)
    ensures
        r@ == "https://production.dataviz.cnn.io/index/fearandgreed/"@ + strip_leading_slashes(
            endpoint@,
        ),
{
    join_url("https://production.dataviz.cnn.io/index/fearandgreed/", endpoint)
}

/// The full URL of a Nasdaq API endpoint.
pub fn nasdaq_url(endpoint: &str) -> (r: String)
    ensures
        r@ == "https://api.nasdaq.com/api/"@ + strip_leading_slashes(endpoint@),
{
    join_url("https://api.nasdaq.com/api/", endpoint)
}

/// How many times the simple Nasdaq caller tries an endpoint before it
/// gives up.
pub const NASDAQ_CALL_ATTEMPTS: u64 = 3;

/// The linear wait of the simple Nasdaq caller after a failed attempt:
/// one second per attempt already made.
pub fn nasdaq_retry_delay_ms(attempt: u64) -> (r: u64)
    requires
        1 <= attempt <= NASDAQ_CALL_ATTEMPTS,
    ensures
        r == 1000 * attempt,
{
    1000 * attempt
}

} // verus!
