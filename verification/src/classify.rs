//! Classification of a completed attempt: accept, retry with a
//! server-directed wait, retry with computed backoff, or give up.

use vstd::prelude::*;

use crate::methods::{contains_method, HttpMethod};
use crate::options::{contains_status, KyOptions};

verus! {

/// What the classifier decides about one completed, non-network-failed
/// attempt.
#[derive(Debug, Clone, PartialEq, Eq, Structural)]
pub enum Classification {
    /// 2xx: terminal, hand the body to the caller's decoder.
    Accept,
    /// Sleep the given milliseconds, then issue the next attempt within the
    /// configured budget.
    ServerWait { wait_ms: u64 },
    /// The budget is exhausted but the server asked for a wait: sleep, then
    /// issue exactly one additional, final attempt.
    ServerWaitExtension { wait_ms: u64 },
    /// Sleep a computed, jittered backoff, then issue the next attempt.
    Backoff,
    /// Terminal: report the status and body to the caller as a non-success
    /// response.
    Refuse,
}

/// True for a successful (2xx) status.
pub open spec fn is_success_status(s: u16) -> bool {
    200 <= s < 300
}

/// A server wait capped by `max_retry_after`, then by `backoff_limit`,
/// each when set: both ceilings apply to any server-supplied wait, and the
/// tighter one wins.
pub open spec fn cap_server_wait_spec(opts: KyOptions, ra_ms: int) -> int {
    let c1 = match opts.max_retry_after {
        Some(m) => if ra_ms > m {
            m as int
        } else {
            ra_ms
        },
        None => ra_ms,
    };
    match opts.backoff_limit {
        Some(l) => if c1 > l {
            l as int
        } else {
            c1
        },
        None => c1,
    }
}

/// A directive in seconds expressed in milliseconds, saturating.
pub open spec fn secs_to_ms_spec(secs: int) -> int {
    if secs * 1000 > u64::MAX {
        u64::MAX as int
    } else {
        secs * 1000
    }
}

/// The classification of a completed attempt, as a function of the options,
/// the method, the status, the parsed `Retry-After` directive in
/// milliseconds, and the 1-based attempt number against the total budget.
pub open spec fn classify_spec(
    opts: KyOptions,
    method: HttpMethod,
    status: u16,
    ra_ms: Option<u64>,
    attempt: int,
    max_attempts: int,
) -> Classification {
    if is_success_status(status) {
        Classification::Accept
    } else if opts.after_status_codes@.contains(status) && ra_ms is Some {
        let capped = cap_server_wait_spec(opts, ra_ms->0 as int);
        if attempt < max_attempts {
            Classification::ServerWait { wait_ms: capped as u64 }
        } else {
            Classification::ServerWaitExtension { wait_ms: capped as u64 }
        }
    } else if opts.status_codes@.contains(status) && opts.allowed_methods@.contains(method) {
        if ra_ms is Some {
            let capped = cap_server_wait_spec(opts, ra_ms->0 as int);
            if attempt < max_attempts {
                Classification::ServerWait { wait_ms: capped as u64 }
            } else {
                Classification::ServerWaitExtension { wait_ms: capped as u64 }
            }
        } else if attempt < max_attempts {
            Classification::Backoff
        } else {
            Classification::Refuse
        }
    } else {
        Classification::Refuse
    }
}

/// A server wait capped by `max_retry_after`, then by `backoff_limit`,
/// each when set.
pub fn cap_server_wait(opts: &KyOptions, ra_ms: u64) -> (r: u64)
    ensures
        r == cap_server_wait_spec(*opts, ra_ms as int),
        opts.max_retry_after matches Some(m) ==> r <= m,
        opts.backoff_limit matches Some(l) ==> r <= l,
{
    let c1 = match opts.max_retry_after {
        Some(m) => if ra_ms > m {
            m
        } else {
            ra_ms
        },
        None => ra_ms,
    };
    match opts.backoff_limit {
        Some(l) => if c1 > l {
            l
        } else {
            c1
        },
        None => c1,
    }
}

/// A directive in seconds expressed in milliseconds, saturating.
pub fn secs_to_ms(secs: u64) -> (r: u64)
    ensures
        r == secs_to_ms_spec(secs as int),
{
    if secs > u64::MAX / 1000 {
        proof {
            assert(secs * 1000 > u64::MAX) by (nonlinear_arith)
                requires
                    secs > u64::MAX / 1000,
            ;
        }
        u64::MAX
    } else {
        proof {
            assert(secs * 1000 <= u64::MAX) by (nonlinear_arith)
                requires
                    secs <= u64::MAX / 1000,
            ;
        }
        secs * 1000
    }
}

/// With a retry budget of `n` and a server that always answers a retryable,
/// non-2xx status carrying no `Retry-After` directive, the classifier
/// schedules a backoff retry on each of the first `n` attempts and refuses
/// on attempt `n + 1`: exactly `n + 1` requests are issued, and the call
/// reports the last observed status as a non-success response.
pub proof fn lemma_retry_budget_exhaustion(
    opts: KyOptions,
    method: HttpMethod,
    status: u16,
    n: int,
)
    requires
        opts.status_codes@.contains(status),
        opts.allowed_methods@.contains(method),
        !is_success_status(status),
        n >= 0,
    ensures
        forall|attempt: int|
            1 <= attempt <= n ==> #[trigger] classify_spec(opts, method, status, None, attempt, n + 1)
                is Backoff,
        classify_spec(opts, method, status, None, n + 1, n + 1) is Refuse,
{
}

/// A `Retry-After` directive is honored even on the final configured
/// attempt: instead of giving up, the classifier grants the server-directed
/// extension — one more capped sleep and exactly one additional request —
/// and a 2xx answer on that extra attempt is still accepted
/// (`ExecState::on_event` in the extension state).
pub proof fn lemma_retry_after_extends_final_attempt(
    opts: KyOptions,
    method: HttpMethod,
    status: u16,
    ra_ms: u64,
    max_attempts: int,
)
    requires
        opts.after_status_codes@.contains(status),
        !is_success_status(status),
        max_attempts >= 1,
    ensures
        classify_spec(opts, method, status, Some(ra_ms), max_attempts, max_attempts) == (
        Classification::ServerWaitExtension {
            wait_ms: cap_server_wait_spec(opts, ra_ms as int) as u64,
        }),
{
}

/// A 2xx status is terminal whatever retry budget remains: the classifier
/// accepts, and a body that then fails to decode is a decode error
/// (`decode_error`), never a retry.
pub proof fn lemma_success_status_is_terminal(
    opts: KyOptions,
    method: HttpMethod,
    status: u16,
    ra_ms: Option<u64>,
    attempt: int,
    max_attempts: int,
)
    requires
        200 <= status < 300,
    ensures
        classify_spec(opts, method, status, ra_ms, attempt, max_attempts) is Accept,
{
}

/// The classification of a completed attempt.
pub fn classify(
    opts: &KyOptions,
    method: HttpMethod,
    status: u16,
    ra_ms: Option<u64>,
    attempt: u64,
    max_attempts: u64,
) -> (r: Classification)
    ensures
        r == classify_spec(*opts, method, status, ra_ms, attempt as int, max_attempts as int),
{
    if 200 <= status && status < 300 {
        return Classification::Accept;
    }
    let has_ra = ra_ms.is_some();
    if contains_status(&opts.after_status_codes, status) && has_ra {
        let capped = cap_server_wait(opts, *ra_ms.as_ref().unwrap());
        if attempt < max_attempts {
            return Classification::ServerWait { wait_ms: capped };
        } else {
            return Classification::ServerWaitExtension { wait_ms: capped };
        }
    }
    if contains_status(&opts.status_codes, status) && contains_method(&opts.allowed_methods, method)
    {
        if has_ra {
            let capped = cap_server_wait(opts, *ra_ms.as_ref().unwrap());
            if attempt < max_attempts {
                return Classification::ServerWait { wait_ms: capped };
            } else {
                return Classification::ServerWaitExtension { wait_ms: capped };
            }
        }
        if attempt < max_attempts {
            return Classification::Backoff;
        }
    }
    Classification::Refuse
}

} // verus!
