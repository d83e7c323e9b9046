use astro_up_manifests::audit_types::{CheckStatus, UrlFailureType};
use astro_up_manifests::url_probe::{
    classify_failure, failed_result, first_probe, next_step, passed_result, skipped_result, Probe, ProbeAnswer, ProbeStep,
};

const URL: &str = "https://example.com/setup.exe";

fn failed(step: ProbeStep) -> astro_up_manifests::audit_types::UrlCheck {
    match step {
        ProbeStep::Failed(c) => c,
        other => panic!("expected a failure, got {other:?}"),
    }
}

#[test]
fn empty_url_is_not_probed() {
    assert!(first_probe("").is_none());
    assert_eq!(first_probe(URL), Some(Probe::Head));
    let r = skipped_result("");
    assert_eq!(r.check.status, CheckStatus::Skip);
    assert!(r.check.url.is_none());
    assert!(r.downloaded_bytes.is_empty());
    let r = skipped_result(URL);
    assert_eq!(r.check.url.as_deref(), Some(URL));
}

#[test]
fn head_success_or_refusal_moves_to_range_get() {
    for s in [200u16, 302, 399, 403, 405] {
        assert!(matches!(next_step(URL, Probe::Head, ProbeAnswer::Status(s)), ProbeStep::Send(Probe::RangeGet)));
    }
    assert!(matches!(
        next_step(URL, Probe::Head, ProbeAnswer::Error { timeout_or_connect: true }),
        ProbeStep::Send(Probe::RangeGet)
    ));
}

#[test]
fn head_not_found_fails_permanently() {
    let c = failed(next_step(URL, Probe::Head, ProbeAnswer::Status(404)));
    assert_eq!(c.status, CheckStatus::Fail);
    assert_eq!(c.http_status, Some(404));
    assert_eq!(c.failure_type, Some(UrlFailureType::Permanent));
    assert_eq!(c.method_used.as_deref(), Some("HEAD"));
    assert_eq!(c.url.as_deref(), Some(URL));
}

#[test]
fn head_other_error_is_transient() {
    let c = failed(next_step(URL, Probe::Head, ProbeAnswer::Error { timeout_or_connect: false }));
    assert_eq!(c.failure_type, Some(UrlFailureType::Transient));
    assert_eq!(c.http_status, None);
}

#[test]
fn range_get_outcomes() {
    assert!(matches!(next_step(URL, Probe::RangeGet, ProbeAnswer::Status(206)), ProbeStep::Passed(Probe::RangeGet, 206)));
    assert!(matches!(next_step(URL, Probe::RangeGet, ProbeAnswer::Status(200)), ProbeStep::Passed(Probe::RangeGet, 200)));
    assert!(matches!(next_step(URL, Probe::RangeGet, ProbeAnswer::Status(416)), ProbeStep::Send(Probe::PlainGet)));
    assert!(matches!(
        next_step(URL, Probe::RangeGet, ProbeAnswer::Error { timeout_or_connect: false }),
        ProbeStep::Send(Probe::PlainGet)
    ));
    let c = failed(next_step(URL, Probe::RangeGet, ProbeAnswer::Status(503)));
    assert_eq!(c.failure_type, Some(UrlFailureType::Transient));
    assert_eq!(c.method_used.as_deref(), Some("GET+Range"));
}

#[test]
fn plain_get_outcomes() {
    assert!(matches!(next_step(URL, Probe::PlainGet, ProbeAnswer::Status(204)), ProbeStep::Passed(Probe::PlainGet, 204)));
    let c = failed(next_step(URL, Probe::PlainGet, ProbeAnswer::Status(410)));
    assert_eq!(c.failure_type, Some(UrlFailureType::Permanent));
    assert_eq!(c.method_used.as_deref(), Some("GET"));
    let c = failed(next_step(URL, Probe::PlainGet, ProbeAnswer::Error { timeout_or_connect: true }));
    assert_eq!(c.failure_type, Some(UrlFailureType::Transient));
}

#[test]
fn failure_classes() {
    assert_eq!(classify_failure(404), UrlFailureType::Permanent);
    assert_eq!(classify_failure(410), UrlFailureType::Permanent);
    assert_eq!(classify_failure(401), UrlFailureType::Blocked);
    assert_eq!(classify_failure(403), UrlFailureType::Blocked);
    assert_eq!(classify_failure(416), UrlFailureType::Blocked);
    assert_eq!(classify_failure(500), UrlFailureType::Transient);
    assert_eq!(classify_failure(418), UrlFailureType::Permanent);
}

#[test]
fn plain_get_keeps_at_most_the_sniff_limit() {
    let body = vec![7u8; 300_000];
    let r = passed_result(URL, Probe::PlainGet, 200, body.clone());
    assert_eq!(r.downloaded_bytes.len(), 262_144);
    assert_eq!(r.check.status, CheckStatus::Pass);
    assert_eq!(r.check.method_used.as_deref(), Some("GET"));
    let r = passed_result(URL, Probe::RangeGet, 206, body);
    assert_eq!(r.downloaded_bytes.len(), 300_000);
    assert_eq!(r.check.http_status, Some(206));
    let f = failed_result(failed(next_step(URL, Probe::Head, ProbeAnswer::Status(404))));
    assert!(f.downloaded_bytes.is_empty());
}
