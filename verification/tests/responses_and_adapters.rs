//! The response wrapper, adapter validation, and the body round trip.

use rs_lib_ng::adapters::{
    cnn_url, nasdaq_url, validate_cnn_response, validate_nasdaq_response,
};
use rs_lib_ng::errors::NgError;
use rs_lib_ng::response::{accept_response, refuse_response};

#[test]
fn accepted_responses_carry_the_parsed_data() {
    let headers = vec![("content-type".to_string(), "application/json".to_string())];
    let r = accept_response(200, headers.clone(), 42u32);
    assert!(r.success);
    assert_eq!(r.status, 200);
    assert_eq!(r.data, Some(42));
    assert!(r.error_body.is_none());
    assert_eq!(r.headers, headers);
}

#[test]
fn refused_responses_keep_the_body_unless_empty() {
    let r: rs_lib_ng::response::ApiResponse<u32> =
        refuse_response(503, Vec::new(), "try later".to_string());
    assert!(!r.success);
    assert_eq!(r.status, 503);
    assert!(r.data.is_none());
    assert_eq!(r.error_body, Some("try later".to_string()));
    let r: rs_lib_ng::response::ApiResponse<u32> = refuse_response(404, Vec::new(), String::new());
    assert!(r.error_body.is_none());
}

#[test]
fn a_successful_body_round_trips_into_the_data_field() {
    // Fixed JSON fixture: the parsed value placed in `data` is structurally
    // equal to what the body parses to.
    let body = "{\"message\":\"success\",\"items\":[1,2,3]}";
    let parsed: serde_json::Value = serde_json::from_str(body).expect("fixture parses");
    let r = accept_response(200, Vec::new(), parsed.clone());
    let again: serde_json::Value = serde_json::from_str(body).unwrap();
    assert_eq!(r.data, Some(again));
    assert_eq!(r.data.unwrap(), parsed);
}

#[test]
fn nasdaq_validation_accepts_rcode_200() {
    let r = validate_nasdaq_response(
        "https://api.nasdaq.com/api/market-info",
        true,
        200,
        None,
        Some(200),
        "{\"status\":{\"rCode\":200}}".to_string(),
    );
    assert!(r.is_ok());
}

#[test]
fn nasdaq_validation_rejects_bad_urls_and_business_errors() {
    match validate_nasdaq_response("ftp://x", true, 200, None, Some(200), String::new()) {
        Err(NgError::HttpError(m)) => assert_eq!(m, "Invalid URL provided: ftp://x"),
        other => panic!("expected an HTTP error, got {:?}", other),
    }
    match validate_nasdaq_response(
        "https://h/e",
        true,
        200,
        None,
        Some(1002),
        "{\"status\":{\"rCode\":1002}}".to_string(),
    ) {
        Err(NgError::NasdaqBusinessError { r_code, endpoint, response }) => {
            assert_eq!(r_code, 1002);
            assert_eq!(endpoint, "https://h/e");
            assert_eq!(response, "{\"status\":{\"rCode\":1002}}");
        }
        other => panic!("expected a business error, got {:?}", other),
    }
    match validate_nasdaq_response("https://h/e", true, 200, None, None, "{}".to_string()) {
        Err(NgError::MalformedResponse { endpoint, details }) => {
            assert_eq!(endpoint, "https://h/e");
            assert_eq!(details, "Missing 'rCode' in response status block");
        }
        other => panic!("expected a malformed-response error, got {:?}", other),
    }
}

#[test]
fn nasdaq_validation_snips_maintenance_pages() {
    let page = "<html>".repeat(100);
    match validate_nasdaq_response("https://h/e", false, 503, Some(&page), None, String::new()) {
        Err(NgError::NonJsonResponse { url, status, body_snippet }) => {
            assert_eq!(url, "https://h/e");
            assert_eq!(status, 503);
            assert_eq!(body_snippet.chars().count(), 200);
            assert!(page.starts_with(&body_snippet));
        }
        other => panic!("expected a non-JSON error, got {:?}", other),
    }
}

#[test]
fn cnn_validation_reports_failures_with_a_snippet() {
    assert!(validate_cnn_response("https://h/fg", true, 200, None).is_ok());
    match validate_cnn_response("https://h/fg", false, 403, None) {
        Err(NgError::NonJsonResponse { url, status, body_snippet }) => {
            assert_eq!(url, "https://h/fg");
            assert_eq!(status, 403);
            assert_eq!(body_snippet, "[No Body]");
        }
        other => panic!("expected a non-JSON error, got {:?}", other),
    }
    let long = "y".repeat(400);
    match validate_cnn_response("https://h/fg", false, 500, Some(&long)) {
        Err(NgError::NonJsonResponse { body_snippet, .. }) => {
            assert_eq!(body_snippet, "y".repeat(250));
        }
        other => panic!("expected a non-JSON error, got {:?}", other),
    }
}

#[test]
fn adapter_urls_join_their_bases() {
    assert_eq!(
        cnn_url("/graphdata"),
        "https://production.dataviz.cnn.io/index/fearandgreed/graphdata"
    );
    assert_eq!(nasdaq_url("market-info/"), "https://api.nasdaq.com/api/market-info/");
}
