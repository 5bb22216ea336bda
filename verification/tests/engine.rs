//! Attempt-loop scenarios driven against the executor's decision core.

use rs_lib_ng::backoff::rng_from_seed;
use rs_lib_ng::errors::NgError;
use rs_lib_ng::executor::{start, AttemptEvent, Outcome, Step};
use rs_lib_ng::methods::HttpMethod;
use rs_lib_ng::options::KyOptions;

fn response(status: u16, retry_after: Option<&str>, body: &str) -> AttemptEvent {
    AttemptEvent::Response {
        status,
        retry_after: retry_after.map(|s| s.to_string()),
        body: body.to_string(),
        headers: Vec::new(),
    }
}

#[test]
fn exhausts_retry_budget_with_exactly_n_plus_one_attempts() {
    // retry = 2, so 3 total attempts; a server that always answers 500
    // with no Retry-After sees exactly 3 requests and the call reports
    // success = false with the last status.
    let opts = KyOptions::default();
    assert_eq!(opts.retry, 2);
    let mut rng = rng_from_seed(7);
    let mut st = start(&opts, HttpMethod::Get).expect("GET is allowed by default");
    st.note_admitted();
    let mut issued = 1u64;
    loop {
        let step = st.on_event(&opts, &mut rng, response(500, None, "{}"), None);
        match step {
            Step::Sleep { wait_ms, release_permit } => {
                assert!(wait_ms >= 300);
                assert_eq!(release_permit, wait_ms >= opts.permit_release_threshold_ms);
                issued += 1;
            }
            Step::Done(Outcome::Refuse { status, .. }) => {
                assert_eq!(status, 500);
                break;
            }
            Step::Done(other) => panic!("unexpected terminal: {:?}", other),
        }
    }
    assert_eq!(issued, 3);
    assert!(!st.permit_held);
    assert_eq!(st.last_status, Some(500));
}

#[test]
fn retry_after_grants_one_extra_attempt_past_the_budget() {
    // retry = 0: one configured attempt.  A 429 with Retry-After on that
    // final attempt still sleeps and issues one additional request, and
    // that extra attempt can succeed.
    let mut opts = KyOptions::default();
    opts.retry = 0;
    let mut rng = rng_from_seed(7);
    let mut st = start(&opts, HttpMethod::Get).expect("GET is allowed");
    st.note_admitted();
    assert_eq!(st.max_attempts, 1);
    let step = st.on_event(&opts, &mut rng, response(429, Some("1"), "busy"), None);
    match step {
        Step::Sleep { wait_ms, release_permit } => {
            assert_eq!(wait_ms, 1000);
            assert!(!release_permit);
        }
        other => panic!("expected a sleep, got {:?}", other),
    }
    assert!(st.extension_used);
    let step = st.on_event(&opts, &mut rng, response(200, None, "{\"ok\":true}"), None);
    match step {
        Step::Done(Outcome::Accept { status, body, .. }) => {
            assert_eq!(status, 200);
            assert_eq!(body, "{\"ok\":true}");
        }
        other => panic!("expected acceptance, got {:?}", other),
    }
    assert!(!st.permit_held);
}

#[test]
fn a_date_directive_on_the_final_attempt_also_grants_the_extension() {
    // A parseable HTTP-date directive is never ignored: on the last
    // configured attempt it grants the server-directed extension just as a
    // numeric directive does.
    let mut opts = KyOptions::default();
    opts.retry = 0;
    let mut rng = rng_from_seed(7);
    let mut st = start(&opts, HttpMethod::Get).unwrap();
    st.note_admitted();
    let step = st.on_event(
        &opts,
        &mut rng,
        response(429, Some("Fri, 01 Jan 2100 00:00:00 GMT"), "busy"),
        None,
    );
    match step {
        Step::Sleep { wait_ms, release_permit } => {
            assert!(wait_ms >= 1000);
            assert!(release_permit);
        }
        other => panic!("expected the extension sleep, got {:?}", other),
    }
    assert!(st.extension_used);
    let step = st.on_event(&opts, &mut rng, response(200, None, "{}"), None);
    match step {
        Step::Done(Outcome::Accept { status, .. }) => assert_eq!(status, 200),
        other => panic!("expected acceptance, got {:?}", other),
    }
}

#[test]
fn retry_after_zero_is_coerced_to_one_second() {
    let opts = KyOptions::default();
    let mut rng = rng_from_seed(7);
    let mut st = start(&opts, HttpMethod::Get).unwrap();
    st.note_admitted();
    let step = st.on_event(&opts, &mut rng, response(503, Some("0"), ""), None);
    match step {
        Step::Sleep { wait_ms, .. } => assert_eq!(wait_ms, 1000),
        other => panic!("expected a sleep, got {:?}", other),
    }
}

#[test]
fn retry_after_is_capped_by_max_retry_after() {
    let mut opts = KyOptions::default();
    opts.max_retry_after = Some(1500);
    let mut rng = rng_from_seed(7);
    let mut st = start(&opts, HttpMethod::Get).unwrap();
    st.note_admitted();
    let step = st.on_event(&opts, &mut rng, response(429, Some("60"), ""), None);
    match step {
        Step::Sleep { wait_ms, .. } => assert_eq!(wait_ms, 1500),
        other => panic!("expected a sleep, got {:?}", other),
    }
}

#[test]
fn a_wait_exactly_at_the_threshold_releases_the_permit() {
    // Default threshold is 2000 ms; a two-second directive lands exactly on
    // it, and a wait at the threshold already releases the permit.
    let opts = KyOptions::default();
    let mut rng = rng_from_seed(7);
    let mut st = start(&opts, HttpMethod::Get).unwrap();
    st.note_admitted();
    let step = st.on_event(&opts, &mut rng, response(429, Some("2"), ""), None);
    match step {
        Step::Sleep { wait_ms, release_permit } => {
            assert_eq!(wait_ms, 2000);
            assert!(release_permit);
        }
        other => panic!("expected a sleep, got {:?}", other),
    }
    assert!(!st.permit_held);
}

#[test]
fn server_waits_are_capped_by_the_tighter_of_both_ceilings() {
    let mut opts = KyOptions::default();
    opts.max_retry_after = Some(5000);
    opts.backoff_limit = Some(1500);
    let mut rng = rng_from_seed(7);
    let mut st = start(&opts, HttpMethod::Get).unwrap();
    st.note_admitted();
    match st.on_event(&opts, &mut rng, response(429, Some("60"), ""), None) {
        Step::Sleep { wait_ms, .. } => assert_eq!(wait_ms, 1500),
        other => panic!("expected a sleep, got {:?}", other),
    }
}

#[test]
fn long_waits_release_the_permit_before_sleeping() {
    // Default threshold is 2000 ms; a 60 s directive crosses it.
    let opts = KyOptions::default();
    let mut rng = rng_from_seed(7);
    let mut st = start(&opts, HttpMethod::Get).unwrap();
    st.note_admitted();
    let step = st.on_event(&opts, &mut rng, response(429, Some("60"), ""), None);
    match step {
        Step::Sleep { wait_ms, release_permit } => {
            assert_eq!(wait_ms, 60000);
            assert!(release_permit);
        }
        other => panic!("expected a sleep, got {:?}", other),
    }
    assert!(!st.permit_held);
    st.note_reacquired(true);
    assert!(st.permit_held);
}

#[test]
fn disallowed_method_is_rejected_before_any_attempt() {
    // With POST removed from the allow-list the executor refuses to open
    // the loop at all: an internal error, no state, no permit, no request.
    let mut opts = KyOptions::default();
    opts.allowed_methods.retain(|m| *m != HttpMethod::Post);
    match start(&opts, HttpMethod::Post) {
        Err(NgError::InternalError(msg)) => {
            assert_eq!(msg, "Method POST not allowed");
        }
        other => panic!("expected an internal error, got {:?}", other.err()),
    }
    assert!(start(&opts, HttpMethod::Get).is_ok());
}

#[test]
fn success_with_undecodable_body_is_terminal_not_retried() {
    // Plenty of budget left, yet a 2xx is final: the loop ends and the
    // decode failure maps to an error, never to another attempt.
    let mut opts = KyOptions::default();
    opts.retry = 9;
    let mut rng = rng_from_seed(7);
    let mut st = start(&opts, HttpMethod::Get).unwrap();
    st.note_admitted();
    let step = st.on_event(&opts, &mut rng, response(200, None, "not json"), None);
    match step {
        Step::Done(Outcome::Accept { status, body, .. }) => {
            assert_eq!(status, 200);
            // The runner's decoder fails on this body; the mapped error is
            // terminal.
            let err = rs_lib_ng::response::decode_error(format!("bad body: {}", body));
            match err {
                NgError::HttpError(m) => assert_eq!(m, "JSON decode: bad body: not json"),
                other => panic!("expected an HTTP error, got {:?}", other),
            }
        }
        other => panic!("expected acceptance, got {:?}", other),
    }
    assert!(!st.permit_held);
}

#[test]
fn unretried_timeout_fails_immediately() {
    let opts = KyOptions::default();
    assert!(!opts.retry_on_timeout);
    let mut rng = rng_from_seed(7);
    let mut st = start(&opts, HttpMethod::Get).unwrap();
    st.note_admitted();
    let ev = AttemptEvent::NetError { is_timeout: true, message: "deadline elapsed".to_string() };
    match st.on_event(&opts, &mut rng, ev, None) {
        Step::Done(Outcome::Fail(NgError::HttpError(m))) => {
            assert_eq!(m, "deadline elapsed");
        }
        other => panic!("expected a failure, got {:?}", other),
    }
    assert!(!st.permit_held);
}

#[test]
fn timeout_is_retried_when_configured() {
    let mut opts = KyOptions::default();
    opts.retry_on_timeout = true;
    let mut rng = rng_from_seed(7);
    let mut st = start(&opts, HttpMethod::Get).unwrap();
    st.note_admitted();
    let ev = AttemptEvent::NetError { is_timeout: true, message: "deadline elapsed".to_string() };
    match st.on_event(&opts, &mut rng, ev, None) {
        Step::Sleep { .. } => {}
        other => panic!("expected a backoff sleep, got {:?}", other),
    }
    assert_eq!(st.attempt, 2);
}

#[test]
fn predicate_veto_stops_retrying_with_enriched_error() {
    let opts = KyOptions::default();
    let mut rng = rng_from_seed(7);
    let mut st = start(&opts, HttpMethod::Get).unwrap();
    st.note_admitted();
    let ev = AttemptEvent::NetError { is_timeout: false, message: "conn refused".to_string() };
    match st.on_event(&opts, &mut rng, ev, Some(false)) {
        Step::Done(Outcome::Fail(NgError::HttpError(m))) => {
            assert_eq!(m, "attempts=1, last_err=conn refused");
        }
        other => panic!("expected a failure, got {:?}", other),
    }
}

#[test]
fn network_exhaustion_reports_enriched_diagnostics() {
    // One response failure first, so the enriched message carries the last
    // status and body snippet alongside the attempt count and last error.
    let mut opts = KyOptions::default();
    opts.retry = 1;
    let mut rng = rng_from_seed(7);
    let mut st = start(&opts, HttpMethod::Get).unwrap();
    st.note_admitted();
    match st.on_event(&opts, &mut rng, response(503, None, "overloaded"), None) {
        Step::Sleep { .. } => {}
        other => panic!("expected a backoff sleep, got {:?}", other),
    }
    let ev = AttemptEvent::NetError { is_timeout: false, message: "boom".to_string() };
    match st.on_event(&opts, &mut rng, ev, None) {
        Step::Done(Outcome::Fail(NgError::HttpError(m))) => {
            assert_eq!(m, "status=503, body=overloaded, attempts=2, last_err=boom");
        }
        other => panic!("expected a failure, got {:?}", other),
    }
}

#[test]
fn configured_retryable_statuses_drive_the_backoff_retry() {
    // 408 sits in the default retryable set and gets a backoff retry; 404
    // does not and is refused at once.
    let opts = KyOptions::default();
    let mut rng = rng_from_seed(7);
    let mut st = start(&opts, HttpMethod::Get).unwrap();
    st.note_admitted();
    match st.on_event(&opts, &mut rng, response(408, None, ""), None) {
        Step::Sleep { .. } => {}
        other => panic!("expected a backoff sleep, got {:?}", other),
    }
    let mut st = start(&opts, HttpMethod::Get).unwrap();
    st.note_admitted();
    match st.on_event(&opts, &mut rng, response(404, None, "missing"), None) {
        Step::Done(Outcome::Refuse { status, .. }) => assert_eq!(status, 404),
        other => panic!("expected a refusal, got {:?}", other),
    }
}

#[test]
fn build_error_in_the_regular_loop_backs_off_like_a_network_failure() {
    let opts = KyOptions::default();
    let mut rng = rng_from_seed(7);
    let mut st = start(&opts, HttpMethod::Get).unwrap();
    st.note_admitted();
    let ev = AttemptEvent::BuildError { message: "bad uri".to_string() };
    match st.on_event(&opts, &mut rng, ev, None) {
        Step::Sleep { .. } => {}
        other => panic!("expected a backoff sleep, got {:?}", other),
    }
    assert_eq!(st.attempt, 2);
}

#[test]
fn build_error_in_extension_is_internal() {
    let mut opts = KyOptions::default();
    opts.retry = 0;
    let mut rng = rng_from_seed(7);
    let mut st = start(&opts, HttpMethod::Get).unwrap();
    st.note_admitted();
    match st.on_event(&opts, &mut rng, response(429, Some("1"), ""), None) {
        Step::Sleep { .. } => {}
        other => panic!("expected the extension sleep, got {:?}", other),
    }
    let ev = AttemptEvent::BuildError { message: "bad header".to_string() };
    match st.on_event(&opts, &mut rng, ev, None) {
        Step::Done(Outcome::Fail(NgError::InternalError(m))) => assert_eq!(m, "bad header"),
        other => panic!("expected an internal error, got {:?}", other),
    }
}

#[test]
fn extension_refusal_reports_the_final_status() {
    let mut opts = KyOptions::default();
    opts.retry = 0;
    let mut rng = rng_from_seed(7);
    let mut st = start(&opts, HttpMethod::Get).unwrap();
    st.note_admitted();
    match st.on_event(&opts, &mut rng, response(503, Some("2"), "first"), None) {
        Step::Sleep { wait_ms, .. } => assert_eq!(wait_ms, 2000),
        other => panic!("expected the extension sleep, got {:?}", other),
    }
    match st.on_event(&opts, &mut rng, response(500, None, "second"), None) {
        Step::Done(Outcome::Refuse { status, body, .. }) => {
            assert_eq!(status, 500);
            assert_eq!(body, "second");
        }
        other => panic!("expected a refusal, got {:?}", other),
    }
}
