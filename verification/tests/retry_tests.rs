//! Retry/backoff state-machine behaviour on concrete error sequences.

use drive_sync::retry::{is_rate_limit_error, TransferWorker, WorkerPhase};

#[test]
fn rate_limit_classification_matches_signatures() {
    assert!(is_rate_limit_error("User Rate Limit Exceeded: rateLimitExceeded"));
    assert!(is_rate_limit_error("userRateLimitExceeded"));
    assert!(is_rate_limit_error("HTTP 429 Too Many Requests"));
    // Substring match, as the wire text is scanned verbatim.
    assert!(is_rate_limit_error("code 4290"));
    assert!(!is_rate_limit_error("connection reset by peer"));
    assert!(!is_rate_limit_error("Rate Limit Exceeded"));
    assert!(!is_rate_limit_error(""));
}

#[test]
fn persistent_rate_limit_backs_off_linearly_then_fails() {
    // A task whose upload always fails with a 429-style error: three
    // retries with backoffs 10 s, 20 s, 30 s, then failure; the retry
    // count rises by three.
    let mut w = TransferWorker::new();

    w.on_failure("userRateLimitExceeded".to_string());
    assert_eq!(w.current_phase(), WorkerPhase::Backoff);
    assert_eq!(w.backoff_secs(), 10);
    w.resume();

    w.on_failure("HTTP 429".to_string());
    assert_eq!(w.backoff_secs(), 20);
    w.resume();

    w.on_failure("rateLimitExceeded".to_string());
    assert_eq!(w.backoff_secs(), 30);
    w.resume();

    w.on_failure("HTTP 429".to_string());
    assert_eq!(w.current_phase(), WorkerPhase::Failed);

    let o = w.into_outcome("stubborn.pdf".to_string());
    assert!(!o.succeeded);
    assert_eq!(o.retries, 3);
    assert_eq!(o.name, "stubborn.pdf");
    assert_eq!(o.error.as_deref(), Some("HTTP 429"));
}

#[test]
fn generic_errors_back_off_exponentially() {
    let mut w = TransferWorker::new();

    w.on_failure("connection reset".to_string());
    assert_eq!(w.backoff_secs(), 1);
    w.resume();

    w.on_failure("connection reset".to_string());
    assert_eq!(w.backoff_secs(), 2);
    w.resume();

    w.on_failure("connection reset".to_string());
    assert_eq!(w.backoff_secs(), 4);
    w.resume();

    w.on_failure("connection reset".to_string());
    assert_eq!(w.current_phase(), WorkerPhase::Failed);
}

#[test]
fn rate_limit_then_generic_reuses_doubled_delay() {
    let mut w = TransferWorker::new();

    w.on_failure("HTTP 429".to_string());
    assert_eq!(w.backoff_secs(), 10);
    w.resume();

    // The linear delay doubled into the exponential schedule.
    w.on_failure("connection reset".to_string());
    assert_eq!(w.backoff_secs(), 20);
    w.resume();

    w.on_failure("connection reset".to_string());
    assert_eq!(w.backoff_secs(), 40);
}

#[test]
fn success_after_retries_reports_bytes_and_retry_count() {
    let mut w = TransferWorker::new();
    w.on_failure("connection reset".to_string());
    assert_eq!(w.current_phase(), WorkerPhase::Backoff);
    w.resume();
    w.on_success(123_456);
    assert_eq!(w.current_phase(), WorkerPhase::Succeeded);

    let o = w.into_outcome("flaky.txt".to_string());
    assert!(o.succeeded);
    assert_eq!(o.bytes, 123_456);
    assert_eq!(o.retries, 1);
    assert!(o.error.is_none());
}

#[test]
fn local_io_failure_is_not_retried() {
    // A source that cannot be opened fails the item at once, for this
    // item only: no backoff, no retry counted.
    let mut w = TransferWorker::new();
    w.on_local_failure("No such file or directory".to_string());
    assert_eq!(w.current_phase(), WorkerPhase::Failed);
    let o = w.into_outcome("gone.pdf".to_string());
    assert!(!o.succeeded);
    assert_eq!(o.retries, 0);
    assert_eq!(o.error.as_deref(), Some("No such file or directory"));
}

#[test]
fn immediate_success_needs_no_retry() {
    let mut w = TransferWorker::new();
    w.on_success(7);
    let o = w.into_outcome("easy.png".to_string());
    assert!(o.succeeded);
    assert_eq!(o.retries, 0);
    assert_eq!(o.bytes, 7);
}
