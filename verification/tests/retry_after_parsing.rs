//! The Retry-After directive: numeric and date forms.

use rs_lib_ng::retry_after::{date_wait_secs, parse_retry_after};

#[test]
fn the_date_wait_is_the_positive_difference_or_one() {
    assert_eq!(date_wait_secs(100, 40), 60);
    assert_eq!(date_wait_secs(41, 40), 1);
    assert_eq!(date_wait_secs(40, 40), 1);
    assert_eq!(date_wait_secs(-5, 40), 1);
    assert_eq!(date_wait_secs(i64::MAX, i64::MIN), u64::MAX);
}

#[test]
fn absent_header_yields_none() {
    assert_eq!(parse_retry_after(None), None);
}

#[test]
fn numeric_seconds_parse_exactly() {
    assert_eq!(parse_retry_after(Some("1")), Some(1));
    assert_eq!(parse_retry_after(Some("120")), Some(120));
    assert_eq!(parse_retry_after(Some(" 5 ")), Some(5));
    assert_eq!(parse_retry_after(Some("\t7\r\n")), Some(7));
}

#[test]
fn zero_seconds_coerce_to_a_minimal_wait() {
    assert_eq!(parse_retry_after(Some("0")), Some(1));
    assert_eq!(parse_retry_after(Some(" 0 ")), Some(1));
}

#[test]
fn garbage_yields_none() {
    assert_eq!(parse_retry_after(Some("soon")), None);
    assert_eq!(parse_retry_after(Some("")), None);
    assert_eq!(parse_retry_after(Some("12abc")), None);
    assert_eq!(parse_retry_after(Some("999999999999999999999999999")), None);
}

#[test]
fn past_dates_preserve_the_server_intent_with_a_minimal_wait() {
    // The instant is long past: the server still asked for a delay, so the
    // wait is one second, not zero and not `None`.
    assert_eq!(parse_retry_after(Some("Wed, 21 Oct 2015 07:28:00 GMT")), Some(1));
    assert_eq!(parse_retry_after(Some("2015-10-21T07:28:00Z")), Some(1));
}

#[test]
fn future_dates_yield_the_seconds_until_the_instant() {
    let w = parse_retry_after(Some("Fri, 01 Jan 2100 00:00:00 GMT")).expect("parses");
    assert!(w > 1_000_000_000, "got {}", w);
    let w = parse_retry_after(Some("2100-01-01T00:00:00+00:00")).expect("parses");
    assert!(w > 1_000_000_000, "got {}", w);
    let w = parse_retry_after(Some("Fri, 01 Jan 2100 00:00:00 +0000")).expect("parses");
    assert!(w > 1_000_000_000, "got {}", w);
}
