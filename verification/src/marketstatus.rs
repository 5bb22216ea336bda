//! Market-status data and the timing rules computed from it.
//!
//! Fetching and deserializing the data is the adapter's job; what is decided
//! here works on plain values: whether a moment falls in the regular
//! session, how long until the next opening, and the clock-face rendering of
//! a duration.

use vstd::prelude::*;

use crate::text::{dec_str, u64_to_string};

verus! {

/// Seconds since midnight, Eastern time, of the regular session's open
/// (09:30).
pub const SESSION_OPEN_SECS: u32 = 34200;

/// Seconds since midnight, Eastern time, of the regular session's close
/// (16:00).
pub const SESSION_CLOSE_SECS: u32 = 57600;

/// The deserialized market information from the market-info endpoint.
#[derive(Debug, Clone)]
pub struct MarketStatusData {
    pub country: String,
    pub market_indicator: String,
    pub ui_market_indicator: String,
    pub market_count_down: String,
    pub pre_market_opening_time: String,
    pub pre_market_closing_time: String,
    pub market_opening_time: String,
    pub market_closing_time: String,
    pub after_hours_market_opening_time: String,
    pub after_hours_market_closing_time: String,
    pub previous_trade_date: String,
    pub next_trade_date: String,
    pub is_business_day: bool,
    pub mrkt_status: String,
}

/// True when the moment lies in the regular trading session: a business
/// day, between 09:30 inclusive and 16:00 exclusive Eastern time.
/// `now_secs_et` is the moment as seconds since midnight, Eastern time.
pub fn is_regular_session(status: &MarketStatusData, now_secs_et: u32) -> (r: bool)
    ensures
        r == (status.is_business_day && SESSION_OPEN_SECS <= now_secs_et < SESSION_CLOSE_SECS),
{
    if !status.is_business_day {
        return false;
    }
    SESSION_OPEN_SECS <= now_secs_et && now_secs_et < SESSION_CLOSE_SECS
}

/// Seconds until the next opening instant: the positive difference, or zero
/// when the instant has passed — the caller then knows to refresh its data.
/// Both arguments are epoch seconds.
pub fn get_next_opening_delay(open_epoch: i64, now_epoch: i64) -> (r: u64)
    ensures
        open_epoch > now_epoch ==> r == open_epoch - now_epoch,
        open_epoch <= now_epoch ==> r == 0,
{
    if open_epoch > now_epoch {
        let diff: i128 = open_epoch as i128 - now_epoch as i128;
        diff as u64
    } else {
        0
    }
}

/// A number padded to at least two digits.
pub open spec fn two_digits(n: int) -> Seq<char> {
    if n < 10 {
        seq!['0'] + dec_str(n)
    } else {
        dec_str(n)
    }
}

/// The clock-face rendering of a duration's magnitude: `HH:MM:SS`, each
/// part zero-padded to two digits, hours growing past two digits as needed.
pub open spec fn duration_clock(secs: int) -> Seq<char> {
    let m = if secs < 0 {
        -secs
    } else {
        secs
    };
    two_digits(m / 3600) + ":"@ + two_digits((m % 3600) / 60) + ":"@ + two_digits(m % 60)
}

/// Formats a signed duration in seconds as `HH:MM:SS` of its magnitude.
pub fn format_duration(secs: i64) -> (r: String)
    ensures
        r@ == duration_clock(secs as int),
{
    proof {
        reveal_strlit("0");
        reveal_strlit(":");
    }
    let m: u64 = if secs >= 0 {
        secs as u64
    } else {
        ((-(secs + 1)) as u64) + 1
    };
    let mut s = pad2(m / 3600);
    s.append(":");
    let minutes = pad2((m % 3600) / 60);
    s.append(minutes.as_str());
    s.append(":");
    let seconds = pad2(m % 60);
    s.append(seconds.as_str());
    s
}

/// Renders a number padded to at least two digits.
fn pad2(n: u64) -> (r: String)
    ensures
        r@ == two_digits(n as int),
{
    proof {
        reveal_strlit("0");
    }
    if n < 10 {
        let mut s = String::from_str("0");
        let digits = u64_to_string(n);
        s.append(digits.as_str());
        s
    } else {
        u64_to_string(n)
    }
}

} // verus!
