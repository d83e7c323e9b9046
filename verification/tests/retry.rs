use astro_up_manifests::rate_limit::RateLimiter;
use astro_up_manifests::retry::{backoff_delay, retry_decision, AttemptResult, RetryDecision};

#[test]
fn backoff_doubles() {
    assert_eq!(backoff_delay(0), 1000);
    assert_eq!(backoff_delay(1), 2000);
    assert_eq!(backoff_delay(2), 4000);
    assert_eq!(backoff_delay(10), 1_024_000);
}

#[test]
fn retries_transient_failures_only() {
    assert_eq!(retry_decision(0, 3, AttemptResult::Answered(503)), RetryDecision::RetryAfter(1000));
    assert_eq!(retry_decision(2, 3, AttemptResult::Failed { transient: true }), RetryDecision::RetryAfter(4000));
    assert_eq!(retry_decision(3, 3, AttemptResult::Answered(503)), RetryDecision::Finish);
    assert_eq!(retry_decision(0, 3, AttemptResult::Answered(404)), RetryDecision::Finish);
    assert_eq!(retry_decision(0, 3, AttemptResult::Answered(200)), RetryDecision::Finish);
    assert_eq!(retry_decision(0, 3, AttemptResult::Failed { transient: false }), RetryDecision::Finish);
    assert_eq!(retry_decision(0, 0, AttemptResult::Failed { transient: true }), RetryDecision::Finish);
}

#[test]
fn rate_limit_windows() {
    let mut r = RateLimiter::new();
    assert!(!r.is_paused_at("github", 0));
    r.record_rate_limit_at("github", Some("30"), 1_000);
    assert!(r.is_paused_at("github", 1_000));
    assert!(!r.is_paused_at("gitlab", 1_000));
    assert_eq!(r.remaining_at("github", 1_000), Some(30_000_000_000));
    assert!(!r.is_paused_at("github", 1_000 + 30_000_000_000));
    assert_eq!(r.remaining_at("github", 1_000 + 30_000_000_000), None);
    r.record_rate_limit_at("gitlab", Some("soon"), 0);
    assert_eq!(r.remaining_at("gitlab", 0), Some(60_000_000_000));
    r.pause_at("github", 5, 10);
    assert_eq!(r.remaining_at("github", 12), Some(3));
}

#[test]
fn rate_limit_with_the_clock() {
    let mut r = RateLimiter::default();
    r.record_rate_limit("github", None);
    assert!(r.is_paused("github"));
    assert!(r.remaining("github").is_some());
    assert!(!r.is_paused("gitlab"));
}
