//! Client configuration: immutable per client instance; per-call overrides
//! are realized by constructing a fresh instance, never by mutating a shared
//! one.  All durations are in milliseconds.

use vstd::prelude::*;

use crate::methods::HttpMethod;

verus! {

/// Public options for the client.  Includes test hooks for deterministic
/// backoff.
#[derive(Debug, Clone)]
pub struct KyOptions {
    /// Optional per-attempt timeout in milliseconds.
    pub timeout: Option<u64>,
    /// Number of retries (not total attempts).  Total attempts = retry + 1.
    pub retry: u64,
    /// Concurrency limit (number of simultaneous logical requests) used when
    /// no shared gate is supplied.
    pub limit: usize,
    /// Status codes that are considered retryable.
    pub status_codes: Vec<u16>,
    /// Status codes that should be checked for a Retry-After header.
    pub after_status_codes: Vec<u16>,
    /// Maximum allowed Retry-After duration in milliseconds, if set.
    pub max_retry_after: Option<u64>,
    /// Maximum backoff limit in milliseconds for computed delays.
    pub backoff_limit: Option<u64>,
    /// Whether to retry on timeout errors.
    pub retry_on_timeout: bool,
    /// Allowed HTTP methods for requests.
    pub allowed_methods: Vec<HttpMethod>,
    /// If true, backoff jitter is deterministic and small for tests.
    pub test_mode: bool,
    /// When true, disable jitter entirely.
    pub disable_jitter: bool,
    /// Threshold in milliseconds: a wait at or above it has the permit
    /// released before sleeping.
    pub permit_release_threshold_ms: u64,
}

/// The default set of retryable status codes.
pub open spec fn default_status_codes() -> Seq<u16> {
    seq![408u16, 413u16, 429u16, 500u16, 502u16, 503u16, 504u16]
}

/// The default set of status codes that honor a Retry-After directive.
pub open spec fn default_after_status_codes() -> Seq<u16> {
    seq![413u16, 429u16, 503u16]
}

/// The default method allow-list: all eight supported methods.
pub open spec fn default_allowed_methods() -> Seq<HttpMethod> {
    seq![
        HttpMethod::Get,
        HttpMethod::Head,
        HttpMethod::Options,
        HttpMethod::Post,
        HttpMethod::Put,
        HttpMethod::Patch,
        HttpMethod::Delete,
        HttpMethod::Trace,
    ]
}

impl Default for KyOptions {
    /// The stock configuration: 15 s per-attempt timeout, 2 retries, 2
    /// concurrent requests, the default status sets, jitter on.
    fn default() -> (r: KyOptions)
        ensures
            r.timeout == Some(15000u64),
            r.retry == 2,
            r.limit == 2,
            r.status_codes@ == default_status_codes(),
            r.after_status_codes@ == default_after_status_codes(),
            r.max_retry_after is None,
            r.backoff_limit is None,
            !r.retry_on_timeout,
            r.allowed_methods@ == default_allowed_methods(),
            !r.test_mode,
            !r.disable_jitter,
            r.permit_release_threshold_ms == 2000,
    {
        let mut status_codes: Vec<u16> = Vec::new();
        status_codes.push(408);
        status_codes.push(413);
        status_codes.push(429);
        status_codes.push(500);
        status_codes.push(502);
        status_codes.push(503);
        status_codes.push(504);
        let mut after_status_codes: Vec<u16> = Vec::new();
        after_status_codes.push(413);
        after_status_codes.push(429);
        after_status_codes.push(503);
        let mut allowed_methods: Vec<HttpMethod> = Vec::new();
        allowed_methods.push(HttpMethod::Get);
        allowed_methods.push(HttpMethod::Head);
        allowed_methods.push(HttpMethod::Options);
        allowed_methods.push(HttpMethod::Post);
        allowed_methods.push(HttpMethod::Put);
        allowed_methods.push(HttpMethod::Patch);
        allowed_methods.push(HttpMethod::Delete);
        allowed_methods.push(HttpMethod::Trace);
        proof {
            assert(status_codes@ =~= default_status_codes());
            assert(after_status_codes@ =~= default_after_status_codes());
            assert(allowed_methods@ =~= default_allowed_methods());
        }
        KyOptions {
            timeout: Some(15000),
            retry: 2,
            limit: 2,
            status_codes,
            after_status_codes,
            max_retry_after: None,
            backoff_limit: None,
            retry_on_timeout: false,
            allowed_methods,
            test_mode: false,
            disable_jitter: false,
            permit_release_threshold_ms: 2000,
        }
    }
}

impl KyOptions {
    /// The admission-pool size an instance-local gate is built with: at
    /// least one slot even when the configured limit is zero.
    pub fn effective_limit(&self) -> (r: usize)
        ensures
            r == if self.limit == 0 {
                1usize
            } else {
                self.limit
            },
    {
        if self.limit == 0 {
            1
        } else {
            self.limit
        }
    }

    /// Total attempts the retry budget allows: `retry + 1`, saturating.
    pub fn max_attempts(&self) -> (r: u64)
        ensures
            r == max_attempts_spec(self.retry),
    {
        if self.retry == u64::MAX {
            u64::MAX
        } else {
            self.retry + 1
        }
    }
}

/// Total attempts allowed by a retry budget: `retry + 1`, saturating.
pub open spec fn max_attempts_spec(retry: u64) -> u64 {
    if retry == u64::MAX {
        u64::MAX
    } else {
        (retry + 1) as u64
    }
}

/// True when `s` occurs in `codes`.
pub fn contains_status(codes: &Vec<u16>, s: u16) -> (r: bool)
    ensures
        r == codes@.contains(s),
{
    let mut i: usize = 0;
    while i < codes.len()
        invariant
            0 <= i <= codes@.len(),
            forall|k: int| 0 <= k < i ==> codes@[k] != s,
        decreases codes@.len() - i,
    {
        if codes[i] == s {
            assert(codes@.contains(s));
            return true;
        }
        i += 1;
    }
    false
}

} // verus!
