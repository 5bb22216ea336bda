//! Concurrency admission and configuration defaults.

use rs_lib_ng::methods::HttpMethod;
use rs_lib_ng::options::KyOptions;
use std::sync::Arc;
use std::time::{Duration, Instant};

#[test]
fn defaults_match_the_documented_configuration() {
    let opts = KyOptions::default();
    assert_eq!(opts.timeout, Some(15000));
    assert_eq!(opts.retry, 2);
    assert_eq!(opts.limit, 2);
    assert_eq!(opts.status_codes, vec![408, 413, 429, 500, 502, 503, 504]);
    assert_eq!(opts.after_status_codes, vec![413, 429, 503]);
    assert_eq!(opts.max_retry_after, None);
    assert_eq!(opts.backoff_limit, None);
    assert!(!opts.retry_on_timeout);
    assert_eq!(opts.allowed_methods.len(), 8);
    assert!(opts.allowed_methods.contains(&HttpMethod::Get));
    assert!(opts.allowed_methods.contains(&HttpMethod::Trace));
    assert!(!opts.test_mode);
    assert!(!opts.disable_jitter);
    assert_eq!(opts.permit_release_threshold_ms, 2000);
    assert_eq!(opts.max_attempts(), 3);
}

#[test]
fn effective_limit_never_admits_zero() {
    let mut opts = KyOptions::default();
    opts.limit = 0;
    assert_eq!(opts.effective_limit(), 1);
    opts.limit = 5;
    assert_eq!(opts.effective_limit(), 5);
}

#[test]
fn a_limit_of_one_serializes_two_concurrent_tasks() {
    // Two tasks, each holding the single permit through a fixed 100 ms
    // latency: total wall time is at least 200 ms.
    let mut opts = KyOptions::default();
    opts.limit = 1;
    let permits = opts.effective_limit();
    let rt = tokio::runtime::Builder::new_multi_thread()
        .worker_threads(2)
        .enable_time()
        .build()
        .unwrap();
    let elapsed = rt.block_on(async move {
        let gate = Arc::new(tokio::sync::Semaphore::new(permits));
        let started = Instant::now();
        let g1 = gate.clone();
        let t1 = tokio::spawn(async move {
            let _permit = g1.acquire_owned().await.unwrap();
            tokio::time::sleep(Duration::from_millis(100)).await;
        });
        let g2 = gate.clone();
        let t2 = tokio::spawn(async move {
            let _permit = g2.acquire_owned().await.unwrap();
            tokio::time::sleep(Duration::from_millis(100)).await;
        });
        t1.await.unwrap();
        t2.await.unwrap();
        started.elapsed()
    });
    assert!(elapsed >= Duration::from_millis(200), "elapsed {:?}", elapsed);
}
