use astro_up_manifests::audit::{
    audit_discovery, audit_finish, check_install_method, fail_early, install_method_verdict, precision_of,
    resolve_download_url, url_validation_skipped, version_check_of,
};
use astro_up_manifests::audit_report::{audit_report, summary_lines};
use astro_up_manifests::audit_types::{
    CheckStatus, FileType, InstallMethodCheck, MatchResult, PackageValidationResult, ResultStatus, UrlCheck, VersionCheck,
};
use astro_up_manifests::manifest::{Autoupdate, Checkver, Install, Manifest};
use astro_up_manifests::providers::{CheckError, CheckOutcome, CheckResult, ReleaseAsset};
use astro_up_manifests::url_probe::{skipped_result, UrlValidationResult};

fn install(method: &str, zip: bool) -> Install {
    Install {
        method: method.to_string(),
        zip_wrapped: zip,
        zip_inner_path: None,
        scope: None,
        elevation: None,
        switches: Vec::new(),
        exit_codes: Vec::new(),
        success_codes: Vec::new(),
    }
}

fn checkver(provider: &str, autoupdate: Option<Autoupdate>) -> Checkver {
    Checkver {
        provider: provider.to_string(),
        owner: None,
        repo: None,
        url: None,
        regex: None,
        version_format: None,
        include_pre_release: false,
        css_selector: None,
        tag_prefix: None,
        version: None,
        hash: None,
        autoupdate,
    }
}

fn autoupdate(url: Option<&str>, resolver: Option<&str>) -> Autoupdate {
    Autoupdate {
        url: url.map(str::to_string),
        resolver: resolver.map(str::to_string),
        resolver_args: Vec::new(),
        hash: None,
        asset_filter: None,
        skip_browser_ua: false,
    }
}

fn manifest(id: &str, method: &str, zip: bool, cv: Option<Checkver>) -> Manifest {
    Manifest {
        id: id.to_string(),
        manifest_version: 1,
        name: id.to_string(),
        disabled: false,
        description: None,
        publisher: None,
        homepage: None,
        category: "capture".to_string(),
        package_type: "application".to_string(),
        slug: id.to_string(),
        tags: Vec::new(),
        aliases: Vec::new(),
        license: None,
        icon: None,
        detection: None,
        install: install(method, zip),
        checkver: cv,
        hardware: None,
        backup: None,
        dependencies: None,
    }
}

fn found(version: &str, url: Option<&str>) -> CheckResult {
    CheckResult {
        version: version.to_string(),
        url: url.map(str::to_string),
        sha256: None,
        release_notes_url: None,
        pre_release: false,
        assets: Vec::new(),
    }
}

fn pe_bytes() -> Vec<u8> {
    let mut b = vec![0u8; 256];
    b[0] = 0x4D;
    b[1] = 0x5A;
    b
}

#[test]
fn version_check_from_outcomes() {
    let (vc, cr) = version_check_of(Ok(CheckOutcome::Found(found("1.2.3", None))));
    assert_eq!(vc.status, CheckStatus::Pass);
    assert_eq!(vc.version.as_deref(), Some("1.2.3"));
    assert!(cr.is_some());
    let (vc, cr) = version_check_of(Ok(CheckOutcome::Skipped { reason: "no [checkver] section".to_string() }));
    assert_eq!(vc.status, CheckStatus::Skip);
    assert_eq!(vc.error.as_deref(), Some("no [checkver] section"));
    assert!(cr.is_none());
    let (vc, _) = version_check_of(Err(CheckError::NoMatch));
    assert_eq!(vc.status, CheckStatus::Fail);
    assert_eq!(vc.error.as_deref(), Some("no version match found in response"));
}

#[test]
fn failed_discovery_fails_early() {
    let m = manifest("app", "exe", false, Some(checkver("github", None)));
    let r = audit_discovery(&m, Err(CheckError::MissingConfig("owner".to_string())));
    let p = r.err().expect("a failed discovery ends the audit");
    assert_eq!(p.status, ResultStatus::Fail);
    assert_eq!(p.provider, "github");
    assert_eq!(p.version_discovery.error.as_deref(), Some("provider not configured: missing owner"));
    assert_eq!(p.url_reachability.status, CheckStatus::Skip);
    assert_eq!(p.install_method.match_result, MatchResult::Skipped);
    assert!(p.version_precision.is_none());
}

#[test]
fn manual_package_goes_on_after_failure() {
    let m = manifest("drv", "exe", false, Some(checkver("manual", None)));
    let d = audit_discovery(&m, Err(CheckError::NoMatch)).ok().expect("manual packages are audited further");
    assert!(d.is_manual);
    assert!(d.resolved_url.is_empty());
    let url = url_validation_skipped(&d, false).expect("no URL to validate");
    let p = audit_finish(&m, d, url);
    assert_eq!(p.status, ResultStatus::Fail);
    assert_eq!(p.install_method.match_result, MatchResult::Skipped);
}

#[test]
fn download_url_from_template_or_assets() {
    let m = manifest(
        "nina-app",
        "inno_setup",
        false,
        Some(checkver("html_scrape", Some(autoupdate(Some("https://example.com/NINA-$version.exe"), None)))),
    );
    let cr = found("3.1.2", Some("https://other.example.com/x.exe"));
    assert_eq!(resolve_download_url(&m, "3.1.2", &cr), "https://example.com/NINA-3.1.2.exe");
    let mut with_assets = found("3.1.2", Some("https://github.com/a.exe"));
    with_assets.assets.push(ReleaseAsset { name: "a.exe".to_string(), url: "https://github.com/a.exe".to_string(), size: 1 });
    assert_eq!(resolve_download_url(&m, "3.1.2", &with_assets), "https://github.com/a.exe");
    let plain = manifest("tool", "exe", false, Some(checkver("github", None)));
    assert_eq!(resolve_download_url(&plain, "1.0", &cr), "https://other.example.com/x.exe");
    assert_eq!(resolve_download_url(&plain, "1.0", &found("1.0", None)), "");
    let unknown = manifest("tool", "exe", false, Some(checkver("github", Some(autoupdate(None, Some("nope"))))));
    assert_eq!(resolve_download_url(&unknown, "1.0", &cr), "https://other.example.com/x.exe");
    let sharpcap = manifest("sharpcap", "exe", false, Some(checkver("github", Some(autoupdate(None, Some("sharpcap"))))));
    let url = resolve_download_url(&sharpcap, "4.1.1234.0", &cr);
    assert!(url.starts_with("https://d.sharpcap.co.uk/file/4"));
    assert!(url.ends_with("_x64"));
}

#[test]
fn install_method_checks() {
    let m = manifest("app", "inno_setup", false, None);
    let c = check_install_method(&m, &[], false);
    assert_eq!(c.match_result, MatchResult::DetectionFailed);
    assert_eq!(c.status, CheckStatus::Skip);
    let c = check_install_method(&m, &[], true);
    assert_eq!(c.match_result, MatchResult::Skipped);
    let c = check_install_method(&m, &pe_bytes(), false);
    assert_eq!(c.detected_file_type, Some(FileType::PeExe));
    assert_eq!(c.detected_method.as_deref(), Some("exe"));
    assert_eq!(c.status, CheckStatus::Pass);
    assert_eq!(c.match_result, MatchResult::Match);
    let msi = manifest("app", "msi", false, None);
    let c = check_install_method(&msi, &pe_bytes(), false);
    assert_eq!(c.status, CheckStatus::Fail);
    assert_eq!(c.match_result, MatchResult::Mismatch);
}

#[test]
fn zip_verdicts() {
    let wrapped = manifest("app", "exe", true, None);
    let c = install_method_verdict(&wrapped, FileType::Zip, true);
    assert_eq!(c.detected_method.as_deref(), Some("exe"));
    assert!(c.detected_zip_wrapped);
    assert_eq!(c.status, CheckStatus::Pass);
    let c = install_method_verdict(&wrapped, FileType::Zip, false);
    assert_eq!(c.detected_method.as_deref(), Some("download_only"));
    assert_eq!(c.status, CheckStatus::Fail);
    let plain = manifest("app", "download_only", false, None);
    let c = install_method_verdict(&plain, FileType::Zip, false);
    assert_eq!(c.status, CheckStatus::Fail);
}

#[test]
fn full_audit_of_a_found_version() {
    let m = manifest(
        "nina-app",
        "exe",
        false,
        Some(checkver("html_scrape", Some(autoupdate(Some("https://example.com/NINA-$version.exe"), None)))),
    );
    let d = audit_discovery(&m, Ok(CheckOutcome::Found(found("3.1.2", None)))).ok().unwrap();
    assert_eq!(d.resolved_url, "https://example.com/NINA-3.1.2.exe");
    assert!(url_validation_skipped(&d, false).is_none());
    let skipped = url_validation_skipped(&d, true).unwrap();
    assert_eq!(skipped.check.url.as_deref(), Some("https://example.com/NINA-3.1.2.exe"));
    let url = UrlValidationResult {
        check: UrlCheck {
            status: CheckStatus::Pass,
            url: Some(d.resolved_url.clone()),
            http_status: Some(206),
            failure_type: None,
            method_used: Some("GET+Range".to_string()),
        },
        downloaded_bytes: pe_bytes(),
    };
    let p = audit_finish(&m, d, url);
    assert_eq!(p.status, ResultStatus::Pass);
    let precision = p.version_precision.expect("a found version is checked for precision");
    assert_eq!(precision.status, CheckStatus::Pass);
    assert_eq!(precision.comparison_mode, "exact");
}

#[test]
fn precision_uses_normalized_mode_with_assets() {
    let m = manifest("a", "exe", false, Some(checkver("github", Some(autoupdate(Some("https://x/$version.exe"), None)))));
    let mut cr = found("1.0", Some("https://x/1.0.0.exe"));
    cr.assets.push(ReleaseAsset { name: "1.0.0.exe".to_string(), url: "https://x/1.0.0.exe".to_string(), size: 3 });
    let p = precision_of(&m, &cr, "https://x/1.0.0.exe");
    assert_eq!(p.comparison_mode, "normalized");
    let cr = found("1.0", None);
    let p = precision_of(&m, &cr, "https://x/1.0.0.exe");
    assert_eq!(p.comparison_mode, "exact");
    assert_eq!(p.status, CheckStatus::Fail);
}

fn result(id: &str, status: ResultStatus, url_fail: bool, version_fail: bool) -> PackageValidationResult {
    let m = manifest(id, "exe", false, None);
    let mut p = fail_early(
        &m,
        "github",
        VersionCheck {
            status: if version_fail { CheckStatus::Fail } else { CheckStatus::Pass },
            version: None,
            error: if version_fail { Some("no version match found in response".to_string()) } else { None },
        },
    );
    p.status = status;
    if url_fail {
        p.url_reachability = UrlCheck {
            status: CheckStatus::Fail,
            url: Some("https://x/a.exe".to_string()),
            http_status: Some(404),
            failure_type: None,
            method_used: None,
        };
    } else {
        p.url_reachability = skipped_result("").check;
    }
    p.install_method = InstallMethodCheck { status: CheckStatus::Skip, ..p.install_method };
    p
}

#[test]
fn report_counts_and_summary() {
    let results = vec![
        result("a", ResultStatus::Pass, false, false),
        result("b", ResultStatus::Fail, true, false),
        result("c", ResultStatus::Skip, false, false),
        result("d", ResultStatus::Fail, false, true),
    ];
    let report = audit_report("2026-01-01T00:00:00+00:00".to_string(), results);
    assert_eq!(report.manifests_checked, 4);
    assert_eq!(report.manifests_passed, 1);
    assert_eq!(report.manifests_failed, 2);
    assert_eq!(report.manifests_skipped, 1);
    assert_eq!(report.summary.failed_url, 1);
    assert_eq!(report.summary.failed_version, 1);
    assert_eq!(
        report.manifests_checked,
        report.manifests_passed + report.manifests_failed + report.manifests_skipped
    );
    let lines = summary_lines(&report);
    assert_eq!(lines[0], "Audit: 4 checked, 1 passed, 2 failed, 1 skipped");
    assert_eq!(lines[1], "  Failures: url=1, version=1, method=0, precision=0");
    assert_eq!(lines[2], "    b \u{2014} url: https://x/a.exe (404)");
    assert_eq!(lines[3], "    d \u{2014} version: no version match found in response");
    assert_eq!(lines.len(), 4);
}

#[test]
fn summary_without_failures_is_one_line() {
    let report = audit_report("t".to_string(), vec![result("a", ResultStatus::Pass, false, false)]);
    assert_eq!(summary_lines(&report), vec!["Audit: 1 checked, 1 passed, 0 failed, 0 skipped".to_string()]);
}

#[test]
fn method_reason_uses_debug_text() {
    let mut r = result("e", ResultStatus::Fail, false, false);
    r.install_method = InstallMethodCheck {
        status: CheckStatus::Fail,
        declared_method: "msi".to_string(),
        declared_zip_wrapped: false,
        detected_file_type: Some(FileType::PeExe),
        detected_method: Some("exe".to_string()),
        detected_zip_wrapped: false,
        match_result: MatchResult::Mismatch,
    };
    let report = audit_report("t".to_string(), vec![r]);
    let lines = summary_lines(&report);
    assert_eq!(lines[2], "    e \u{2014} method: msi(zip=false) != Some(\"exe\")(zip=false)");
}

fn zip_holding(name: &[u8]) -> Vec<u8> {
    let mut b = vec![0x50, 0x4B, 0x03, 0x04];
    b.extend_from_slice(&[0; 100]);
    b.extend_from_slice(&[0x50, 0x4B, 0x01, 0x02]);
    b.extend_from_slice(&[0; 24]);
    b.extend_from_slice(&u16::try_from(name.len()).unwrap().to_le_bytes());
    b.extend_from_slice(&[0; 16]);
    b.extend_from_slice(name);
    b.extend_from_slice(&[0; 50]);
    b
}

#[test]
fn zip_wrapped_installer_is_seen_inside_the_archive() {
    let m = manifest("app", "exe", true, None);
    let c = check_install_method(&m, &zip_holding(b"setup.exe"), false);
    assert_eq!(c.detected_file_type, Some(FileType::Zip));
    assert_eq!(c.detected_method.as_deref(), Some("exe"));
    assert_eq!(c.match_result, MatchResult::Match);
    let c = check_install_method(&m, &zip_holding(b"setup.exe.txt"), false);
    assert_eq!(c.detected_method.as_deref(), Some("download_only"));
    assert_eq!(c.match_result, MatchResult::Mismatch);
    let c = check_install_method(&m, &zip_holding(b"dir/.exe"), false);
    assert_eq!(c.detected_method.as_deref(), Some("download_only"));
    assert_eq!(c.match_result, MatchResult::Mismatch);
}
