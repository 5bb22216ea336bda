//! Parsing of a server-supplied `Retry-After` directive.
//!
//! Recognized, in order: a non-negative integer (whole seconds; zero is
//! coerced to one second to avoid busy-looping), then IMF-fixdate, RFC 2822
//! and RFC 3339 dates.  A date in the past still yields a minimal positive
//! wait: the server asked for a delay and that intent is preserved even under
//! clock skew.  Unparseable or absent text yields `None`, letting the caller
//! fall back to computed backoff.

use vstd::prelude::*;

use crate::text::{all_digits, dec_val, parse_u64, trim, trimmed};

verus! {

/// The epoch second denoted by an IMF-fixdate text, when it parses.
pub uninterp spec fn imf_fixdate_epoch(s: Seq<char>) -> Option<i64>;

/// The epoch second denoted by an RFC 2822 date text, when it parses.
pub uninterp spec fn rfc2822_epoch(s: Seq<char>) -> Option<i64>;

/// The epoch second denoted by an RFC 3339 date text, when it parses.
pub uninterp spec fn rfc3339_epoch(s: Seq<char>) -> Option<i64>;

/// Relies on chrono's `DateTime::parse_from_str` with the IMF-fixdate layout
/// `"%a, %d %b %Y %H:%M:%S GMT"`, and on `DateTime::timestamp`: the epoch
/// second of the instant the text denotes, a function of the text alone.
#[verifier::external_body]
fn parse_imf_fixdate(s: &str) -> (r: Option<i64>)
    ensures
        r == imf_fixdate_epoch(s@),
{
    match chrono::DateTime::parse_from_str(s, "%a, %d %b %Y %H:%M:%S GMT") {
        Ok(dt) => Some(dt.timestamp()),
        Err(_) => None,
    }
}

/// Relies on chrono's `DateTime::parse_from_rfc2822`, and on
/// `DateTime::timestamp`: the epoch second of the instant the text denotes,
/// a function of the text alone.
#[verifier::external_body]
fn parse_rfc2822(s: &str) -> (r: Option<i64>)
    ensures
        r == rfc2822_epoch(s@),
{
    match chrono::DateTime::parse_from_rfc2822(s) {
        Ok(dt) => Some(dt.timestamp()),
        Err(_) => None,
    }
}

/// Relies on chrono's `DateTime::parse_from_rfc3339`, and on
/// `DateTime::timestamp`: the epoch second of the instant the text denotes,
/// a function of the text alone.
#[verifier::external_body]
fn parse_rfc3339(s: &str) -> (r: Option<i64>)
    ensures
        r == rfc3339_epoch(s@),
{
    match chrono::DateTime::parse_from_rfc3339(s) {
        Ok(dt) => Some(dt.timestamp()),
        Err(_) => None,
    }
}

/// Relies on chrono's `Utc::now` and `DateTime::timestamp`: the current
/// epoch second.  Nothing can be promised of the clock.
#[verifier::external_body]
fn now_epoch_secs() -> i64 {
    chrono::Utc::now().timestamp()
}

/// True when the directive text is the numeric-seconds form: after
/// trimming, non-empty, all digits, and within `u64`.
pub open spec fn is_numeric_directive(s: Seq<char>) -> bool {
    let t = trimmed(s);
    t.len() > 0 && all_digits(t) && dec_val(t) <= u64::MAX
}

/// The wait in seconds a numeric directive asks for: its value, with zero
/// coerced to one.
pub open spec fn numeric_directive_secs(s: Seq<char>) -> u64 {
    let v = dec_val(trimmed(s));
    if v == 0 {
        1u64
    } else {
        v as u64
    }
}

/// True when the trimmed directive text parses as one of the three date
/// forms.
pub open spec fn date_directive_parses(s: Seq<char>) -> bool {
    ||| imf_fixdate_epoch(trimmed(s)) is Some
    ||| rfc2822_epoch(trimmed(s)) is Some
    ||| rfc3339_epoch(trimmed(s)) is Some
}

/// The wait in seconds until a server-given instant: the difference from
/// now when the instant lies ahead, and a minimal one-second wait
/// otherwise — the server asked for a delay, and that intent is preserved
/// even when clock skew makes the instant appear past.
pub fn date_wait_secs(epoch: i64, now: i64) -> (r: u64)
    ensures
        epoch > now ==> r == epoch - now,
        epoch <= now ==> r == 1,
        r >= 1,
{
    if epoch > now {
        let diff: i128 = epoch as i128 - now as i128;
        diff as u64
    } else {
        1
    }
}

/// Parses a `Retry-After` directive into whole seconds.  An absent header
/// yields `None`; a numeric directive yields exactly its value (zero coerced
/// to one); a date directive yields `date_wait_secs` of the parsed instant
/// against the clock — at least one second, the seconds until the instant
/// when it lies ahead; anything else yields `None`, and the caller falls
/// back to computed backoff.  The wait's magnitude for a date form depends
/// on the clock; its relation to the parsed instant is `date_wait_secs`'s
/// contract.
pub fn parse_retry_after(header: Option<&str>) -> (r: Option<u64>)
    ensures
        header is None ==> r is None,
        header matches Some(h) ==> (is_numeric_directive(h@) ==> r == Some(
            numeric_directive_secs(h@),
        )),
        header matches Some(h) ==> (!is_numeric_directive(h@) ==> (r is Some
            <==> date_directive_parses(h@))),
        r matches Some(v) ==> v >= 1,
{
    let h = match header {
        Some(h) => h,
        None => { return None },
    };
    let t = trim(h);
    match parse_u64(t.as_str()) {
        Some(secs) => Some(
            if secs == 0 {
                1
            } else {
                secs
            },
        ),
        None => {
            let parsed = match parse_imf_fixdate(t.as_str()) {
                Some(e) => Some(e),
                None => match parse_rfc2822(t.as_str()) {
                    Some(e) => Some(e),
                    None => parse_rfc3339(t.as_str()),
                },
            };
            match parsed {
                Some(epoch) => {
                    let now = now_epoch_secs();
                    Some(date_wait_secs(epoch, now))
                },
                None => None,
            }
        },
    }
}

} // verus!
