//! Text helpers and error rendering.

use rs_lib_ng::errors::NgError;
use rs_lib_ng::text::{body_snippet, i64_to_string, join_url, parse_u64, trim, u64_to_string};

#[test]
fn decimal_rendering_is_exact() {
    assert_eq!(u64_to_string(0), "0");
    assert_eq!(u64_to_string(7), "7");
    assert_eq!(u64_to_string(42), "42");
    assert_eq!(u64_to_string(1024), "1024");
    assert_eq!(u64_to_string(u64::MAX), "18446744073709551615");
    assert_eq!(i64_to_string(-1), "-1");
    assert_eq!(i64_to_string(i64::MIN), "-9223372036854775808");
    assert_eq!(i64_to_string(0), "0");
}

#[test]
fn decimal_parsing_is_exact() {
    assert_eq!(parse_u64("0"), Some(0));
    assert_eq!(parse_u64("00123"), Some(123));
    assert_eq!(parse_u64("18446744073709551615"), Some(u64::MAX));
    assert_eq!(parse_u64("18446744073709551616"), None);
    assert_eq!(parse_u64(""), None);
    assert_eq!(parse_u64("1 2"), None);
    assert_eq!(parse_u64("-1"), None);
}

#[test]
fn trimming_removes_blank_edges_only() {
    assert_eq!(trim("  a b  "), "a b");
    assert_eq!(trim("\r\nx\t"), "x");
    assert_eq!(trim("   "), "");
    assert_eq!(trim("plain"), "plain");
    assert_eq!(trim("\u{a0}\u{2003}wide\u{3000}"), "wide");
}

#[test]
fn snippets_are_character_bounded_with_a_marker() {
    assert_eq!(body_snippet("short", 10), "short");
    let long: String = "x".repeat(30);
    assert_eq!(body_snippet(&long, 10), format!("{}...[truncated]", "x".repeat(10)));
}

#[test]
fn url_joining_strips_leading_slashes() {
    assert_eq!(join_url("https://h/api/", "market-info/"), "https://h/api/market-info/");
    assert_eq!(join_url("https://h/api/", "//x"), "https://h/api/x");
    assert_eq!(join_url("https://h/api/", ""), "https://h/api/");
}

#[test]
fn error_messages_render_each_variant() {
    assert_eq!(
        NgError::ConfigError("missing file".to_string()).message(),
        "Configuration error: missing file"
    );
    assert_eq!(
        NgError::InternalError("Semaphore closed".to_string()).message(),
        "Internal error: Semaphore closed"
    );
    assert_eq!(NgError::HttpError("boom".to_string()).message(), "HTTP error: boom");
    let e = NgError::NonJsonResponse {
        url: "https://h/x".to_string(),
        status: 502,
        body_snippet: "<html>".to_string(),
    };
    assert_eq!(e.message(), "Nasdaq API returned non-JSON content from https://h/x. Status: 502");
    let e = NgError::NasdaqBusinessError {
        r_code: -3,
        endpoint: "https://h/y".to_string(),
        response: "{}".to_string(),
    };
    assert_eq!(e.message(), "Nasdaq API business error (rCode -3) at https://h/y");
    let e = NgError::MalformedResponse {
        endpoint: "market-info".to_string(),
        details: "Missing 'data' field".to_string(),
    };
    assert_eq!(
        e.message(),
        "Malformed Nasdaq API response structure at market-info: Missing 'data' field"
    );
}
