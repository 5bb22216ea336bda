//! Logger configuration and market-status timing rules.

use rs_lib_ng::logging::{should_log, LogLevel, LoggerBuilder};
use rs_lib_ng::marketstatus::{
    format_duration, get_next_opening_delay, is_regular_session, MarketStatusData,
};

fn sample_status(is_business_day: bool) -> MarketStatusData {
    MarketStatusData {
        country: "United States".to_string(),
        market_indicator: "Market Open".to_string(),
        ui_market_indicator: "Open".to_string(),
        market_count_down: "Closes in 2H".to_string(),
        pre_market_opening_time: "Feb 24, 2026 4:00 AM ET".to_string(),
        pre_market_closing_time: "Feb 24, 2026 9:30 AM ET".to_string(),
        market_opening_time: "Feb 24, 2026 9:30 AM ET".to_string(),
        market_closing_time: "Feb 24, 2026 4:00 PM ET".to_string(),
        after_hours_market_opening_time: "Feb 24, 2026 4:00 PM ET".to_string(),
        after_hours_market_closing_time: "Feb 24, 2026 8:00 PM ET".to_string(),
        previous_trade_date: "Feb 23, 2026".to_string(),
        next_trade_date: "Feb 24, 2026".to_string(),
        is_business_day,
        mrkt_status: "Open".to_string(),
    }
}

#[test]
fn builder_starts_at_info_with_a_kilobyte_buffer() {
    let b = LoggerBuilder::new("test-component");
    assert_eq!(b.component, "test-component");
    assert_eq!(b.level, LogLevel::Info);
    assert_eq!(b.buffer_size, 1024);
    let b = b.with_level(LogLevel::Error);
    assert_eq!(b.level, LogLevel::Error);
    assert_eq!(b.component, "test-component");
    let cfg = b.config();
    assert_eq!(cfg.level, LogLevel::Error);
    assert_eq!(cfg.component, "test-component");
}

#[test]
fn records_below_the_threshold_are_dropped() {
    assert!(should_log(LogLevel::Info, LogLevel::Info));
    assert!(should_log(LogLevel::Fatal, LogLevel::Info));
    assert!(!should_log(LogLevel::Debug, LogLevel::Info));
    assert!(!should_log(LogLevel::Trace, LogLevel::Warn));
    assert!(should_log(LogLevel::Error, LogLevel::Warn));
}

#[test]
fn the_regular_session_is_nine_thirty_to_four_eastern() {
    let open = sample_status(true);
    // 09:29:59, 09:30:00, 15:59:59, 16:00:00 Eastern as seconds of the day.
    assert!(!is_regular_session(&open, 9 * 3600 + 29 * 60 + 59));
    assert!(is_regular_session(&open, 9 * 3600 + 30 * 60));
    assert!(is_regular_session(&open, 15 * 3600 + 59 * 60 + 59));
    assert!(!is_regular_session(&open, 16 * 3600));
    let holiday = sample_status(false);
    assert!(!is_regular_session(&holiday, 12 * 3600));
}

#[test]
fn opening_delay_is_the_positive_difference_or_zero() {
    assert_eq!(get_next_opening_delay(1_000_000, 999_000), 1000);
    assert_eq!(get_next_opening_delay(999_000, 1_000_000), 0);
    assert_eq!(get_next_opening_delay(5, 5), 0);
}

#[test]
fn durations_render_as_clock_faces() {
    assert_eq!(format_duration(0), "00:00:00");
    assert_eq!(format_duration(59), "00:00:59");
    assert_eq!(format_duration(3661), "01:01:01");
    assert_eq!(format_duration(-3661), "01:01:01");
    assert_eq!(format_duration(360000), "100:00:00");
}
