use astro_up_manifests::audit_types::CheckStatus;
use astro_up_manifests::precision::{check_precision, extract_version_from_url, validate_version_format};

#[test]
fn exact_match_with_template() {
    let r = check_precision(
        "https://example.com/v3.2.0/setup.exe",
        "3.2.0",
        Some("https://example.com/v$version/setup.exe"),
    );
    assert_eq!(r.status, CheckStatus::Pass);
    assert_eq!(r.comparison_mode, "exact");
}

#[test]
fn partial_version_fails_exact() {
    let r = check_precision(
        "https://example.com/NINA-3.2.0.9001.zip",
        "3.2",
        Some("https://example.com/NINA-$version.zip"),
    );
    assert_eq!(r.status, CheckStatus::Fail);
    assert_eq!(r.comparison_mode, "exact");
}

#[test]
fn generic_url_uses_normalized() {
    let r = check_precision(
        "https://github.com/o/r/releases/download/latest/setup.exe",
        "3.2.0",
        None,
    );
    assert_eq!(r.status, CheckStatus::Pass);
    assert_eq!(r.comparison_mode, "normalized");
}

#[test]
fn semver_format_valid() {
    assert_eq!(validate_version_format("3.2.0", Some("semver")), CheckStatus::Pass);
    assert_eq!(validate_version_format("bad", Some("semver")), CheckStatus::Fail);
}

#[test]
fn date_format_valid() {
    assert_eq!(validate_version_format("2026.04.07", Some("date")), CheckStatus::Pass);
    assert_eq!(validate_version_format("abc", Some("date")), CheckStatus::Fail);
}

#[test]
fn no_format_passes() {
    assert_eq!(validate_version_format("anything", None), CheckStatus::Pass);
}

#[test]
fn failed_exact_reports_url_segment() {
    let r = check_precision(
        "https://example.com/NINA-3.2.0.9001.zip",
        "3.2",
        Some("https://example.com/NINA-$version.zip"),
    );
    assert!(!r.url_contains_version);
    assert_eq!(r.url_version_segment.as_deref(), Some("3.2.0.9001"));
    assert_eq!(r.discovered_version, "3.2");
}

#[test]
fn exact_pass_reports_version_segment() {
    let r = check_precision(
        "https://example.com/v3.2.0/setup.exe",
        "3.2.0",
        Some("https://example.com/v$version/setup.exe"),
    );
    assert!(r.url_contains_version);
    assert_eq!(r.url_version_segment.as_deref(), Some("3.2.0"));
}

#[test]
fn normalized_records_whether_url_holds_version() {
    let r = check_precision("https://example.com/app-3.2.0.exe", "3.2.0", Some("https://example.com/app.exe"));
    assert_eq!(r.status, CheckStatus::Pass);
    assert_eq!(r.comparison_mode, "normalized");
    assert!(r.url_contains_version);
    let empty = check_precision("", "3.2.0", Some("https://example.com/$version.exe"));
    assert_eq!(empty.comparison_mode, "normalized");
    assert!(!empty.url_contains_version);
}

#[test]
fn version_in_url_is_first_dotted_number() {
    assert_eq!(extract_version_from_url("https://x.org/a1b/v10.2.33-rc/1.0").as_deref(), Some("10.2.33"));
    assert_eq!(extract_version_from_url("https://x.org/latest"), None);
}

#[test]
fn lenient_semver_and_regex_formats() {
    assert_eq!(validate_version_format("3.1", Some("semver")), CheckStatus::Pass);
    assert_eq!(validate_version_format("2026.1", Some("date")), CheckStatus::Pass);
    assert_eq!(validate_version_format("26.1", Some("date")), CheckStatus::Fail);
    assert_eq!(validate_version_format("3.1 HF2", Some(r"^\d+\.\d+ HF\d+$")), CheckStatus::Pass);
    assert_eq!(validate_version_format("3.1", Some(r"^\d+\.\d+ HF\d+$")), CheckStatus::Fail);
    assert_eq!(validate_version_format("3.1", Some("(unclosed")), CheckStatus::Skip);
}

#[test]
fn url_from_template_with_several_variables_is_exact() {
    let r = check_precision(
        "https://x.com/3/app-3.1.2.exe",
        "3.1.2",
        Some("https://x.com/$majorVersion/app-$version.exe"),
    );
    assert_eq!(r.status, CheckStatus::Pass);
    assert_eq!(r.comparison_mode, "exact");
    assert!(r.url_contains_version);
    let wrong = check_precision(
        "https://x.com/4/app-3.1.2.exe",
        "3.1.2",
        Some("https://x.com/$majorVersion/app-$version.exe"),
    );
    assert_eq!(wrong.status, CheckStatus::Fail);
}
