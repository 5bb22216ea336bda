//! Exponential backoff with optional jitter and caps.
//!
//! The base delay is `300ms * 2^(attempt - 1)`, capped by `backoff_limit`
//! when set.  Jitter is drawn from `[0, max(1, base/10)]` milliseconds
//! (collapsed to `[0, min(5, that)]` in test mode, zero when disabled), and
//! the jittered candidate is capped again by `max_retry_after` then by
//! `backoff_limit`.

use vstd::prelude::*;

use crate::options::KyOptions;

verus! {

/// Relies on rand's `SeedableRng::seed_from_u64` for `SmallRng`: builds a
/// deterministic generator from a seed.
#[verifier::external_body]
pub fn rng_from_seed(seed: u64) -> rand::rngs::SmallRng {
    <rand::rngs::SmallRng as rand::SeedableRng>::seed_from_u64(seed)
}

/// Relies on rand's `SeedableRng::from_entropy` for `SmallRng`: draws a
/// generator from system entropy.
#[verifier::external_body]
pub fn rng_from_entropy() -> rand::rngs::SmallRng {
    <rand::rngs::SmallRng as rand::SeedableRng>::from_entropy()
}

/// The small generator driving jitter.
#[verifier::external_type_specification]
#[verifier::external_body]
pub struct ExSmallRng(rand::rngs::SmallRng);

/// Relies on rand's `Rng::gen_range` over the inclusive range `0..=max`:
/// the sample lies in the range, whatever the generator state.
#[verifier::external_body]
fn draw_inclusive(rng: &mut rand::rngs::SmallRng, max: u64) -> (r: u64)
    ensures
        r <= max,
{
    rand::Rng::gen_range(rng, 0..=max)
}

/// Uncapped exponential base delay in milliseconds for a 1-based attempt:
/// `300 * 2^(attempt - 1)`, saturating at `u64::MAX`.
pub open spec fn raw_delay_spec(attempt: int) -> int
    decreases attempt,
{
    if attempt <= 1 {
        300
    } else {
        let prev = raw_delay_spec(attempt - 1);
        if prev > u64::MAX / 2 {
            u64::MAX as int
        } else {
            2 * prev
        }
    }
}

/// Base delay capped by `backoff_limit` when set.
pub open spec fn base_delay_spec(opts: KyOptions, attempt: int) -> int {
    let raw = raw_delay_spec(attempt);
    match opts.backoff_limit {
        Some(l) => if raw > l {
            l as int
        } else {
            raw
        },
        None => raw,
    }
}

/// The inclusive upper bound of the jitter draw for a given base delay.
pub open spec fn jitter_bound_spec(opts: KyOptions, base: int) -> int {
    if opts.disable_jitter {
        0
    } else {
        let jm = if base / 10 > 1 {
            base / 10
        } else {
            1
        };
        if opts.test_mode {
            if jm > 5 {
                5
            } else {
                jm
            }
        } else {
            jm
        }
    }
}

/// The jittered candidate after both caps: `base + jitter` saturating, then
/// capped by `max_retry_after`, then by `backoff_limit`.
pub open spec fn capped_candidate_spec(opts: KyOptions, base: int, jitter: int) -> int {
    let sum = base + jitter;
    let c0 = if sum > u64::MAX {
        u64::MAX as int
    } else {
        sum
    };
    let c1 = match opts.max_retry_after {
        Some(m) => if c0 > m {
            m as int
        } else {
            c0
        },
        None => c0,
    };
    match opts.backoff_limit {
        Some(l) => if c1 > l {
            l as int
        } else {
            c1
        },
        None => c1,
    }
}

/// The full backoff relation: `w` is a possible jittered backoff for this
/// attempt.
pub open spec fn is_backoff_wait(opts: KyOptions, attempt: int, w: int) -> bool {
    exists|j: int|
        0 <= j <= jitter_bound_spec(opts, base_delay_spec(opts, attempt)) && w
            == capped_candidate_spec(opts, base_delay_spec(opts, attempt), j)
}

/// A jitter-augmented delay never exceeds `backoff_limit` nor
/// `max_retry_after` when either is set, whatever the jitter draw.
pub proof fn lemma_backoff_respects_caps(opts: KyOptions, attempt: int, w: int)
    requires
        is_backoff_wait(opts, attempt, w),
    ensures
        opts.backoff_limit matches Some(l) ==> w <= l,
        opts.max_retry_after matches Some(m) ==> w <= m,
{
}

/// Base delay (pre-jitter) for a 1-based attempt, capped by
/// `backoff_limit` when set.
pub fn compute_delay(opts: &KyOptions, attempt: u64) -> (r: u64)
    requires
        attempt >= 1,
    ensures
        r == base_delay_spec(*opts, attempt as int),
{
    let mut d: u64 = 300;
    let mut k: u64 = 1;
    while k < attempt
        invariant
            1 <= k <= attempt,
            d == raw_delay_spec(k as int),
        decreases attempt - k,
    {
        if d > u64::MAX / 2 {
            d = u64::MAX;
        } else {
            d = d * 2;
        }
        k += 1;
    }
    match opts.backoff_limit {
        Some(l) => if d > l {
            l
        } else {
            d
        },
        None => d,
    }
}

/// Exponential backoff with jitter for a 1-based attempt.  The result is
/// some jittered candidate for this attempt, and never exceeds either
/// configured cap; with jitter disabled it is exactly the capped base.
pub fn compute_backoff_with_jitter(opts: &KyOptions, attempt: u64, rng: &mut rand::rngs::SmallRng)
    -> (r: u64)
    requires
        attempt >= 1,
    ensures
        is_backoff_wait(*opts, attempt as int, r as int),
        opts.backoff_limit matches Some(l) ==> r <= l,
        opts.max_retry_after matches Some(m) ==> r <= m,
        opts.disable_jitter ==> r == capped_candidate_spec(
            *opts,
            base_delay_spec(*opts, attempt as int),
            0,
        ),
{
    let base = compute_delay(opts, attempt);
    let jitter: u64 = if opts.disable_jitter {
        0
    } else {
        let jm = if base / 10 > 1 {
            base / 10
        } else {
            1
        };
        let jm = if opts.test_mode && jm > 5 {
            5
        } else {
            jm
        };
        draw_inclusive(rng, jm)
    };
    let sum = if base > u64::MAX - jitter {
        u64::MAX
    } else {
        base + jitter
    };
    let c1 = match opts.max_retry_after {
        Some(m) => if sum > m {
            m
        } else {
            sum
        },
        None => sum,
    };
    let r = match opts.backoff_limit {
        Some(l) => if c1 > l {
            l
        } else {
            c1
        },
        None => c1,
    };
    proof {
        let b = base_delay_spec(*opts, attempt as int);
        assert(0 <= jitter as int <= jitter_bound_spec(*opts, b));
        assert(r as int == capped_candidate_spec(*opts, b, jitter as int));
        lemma_backoff_respects_caps(*opts, attempt as int, r as int);
    }
    r
}

} // verus!
