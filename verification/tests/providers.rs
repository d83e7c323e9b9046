use astro_up_manifests::manifest::{Autoupdate, Checkver, Install, Manifest};
use astro_up_manifests::provider_api::{
    api_status_check, github_outcome, github_releases_url, gitlab_outcome, gitlab_tags_url, owner_and_repo, plan_check,
    status_display, url_and_regex, CheckPlan, GithubAsset, GithubRelease, ProviderKind,
};
use astro_up_manifests::provider_pages::{
    browser_action, browser_outcome, extract_href, head_needs_fallback, html_scrape_outcome, http_head_outcome,
    pe_outcome, redirect_outcome, BrowserAction,
};
use astro_up_manifests::providers::{check_rate_limit, version_from_body, CheckError, CheckOutcome, CheckResult};

fn checkver(provider: &str) -> Checkver {
    Checkver {
        provider: provider.to_string(),
        owner: None,
        repo: None,
        url: None,
        regex: None,
        version_format: None,
        include_pre_release: false,
        css_selector: None,
        tag_prefix: None,
        version: None,
        hash: None,
        autoupdate: None,
    }
}

fn manifest(cv: Option<Checkver>) -> Manifest {
    Manifest {
        id: "pkg".to_string(),
        manifest_version: 1,
        name: "Pkg".to_string(),
        disabled: false,
        description: None,
        publisher: None,
        homepage: None,
        category: "capture".to_string(),
        package_type: "application".to_string(),
        slug: "pkg".to_string(),
        tags: Vec::new(),
        aliases: Vec::new(),
        license: None,
        icon: None,
        detection: None,
        install: Install {
            method: "exe".to_string(),
            zip_wrapped: false,
            zip_inner_path: None,
            scope: None,
            elevation: None,
            switches: Vec::new(),
            exit_codes: Vec::new(),
            success_codes: Vec::new(),
        },
        checkver: cv,
        hardware: None,
        backup: None,
        dependencies: None,
    }
}

fn found(r: Result<CheckOutcome, CheckError>) -> CheckResult {
    match r {
        Ok(CheckOutcome::Found(c)) => c,
        other => panic!("expected a found version, got {other:?}"),
    }
}

#[test]
fn plans_by_provider() {
    match plan_check(&manifest(None)) {
        CheckPlan::Done(Ok(CheckOutcome::Skipped { reason })) => assert_eq!(reason, "no [checkver] section"),
        other => panic!("{other:?}"),
    }
    assert!(matches!(plan_check(&manifest(Some(checkver("github")))), CheckPlan::Fetch(ProviderKind::Github)));
    assert!(matches!(plan_check(&manifest(Some(checkver("redirect")))), CheckPlan::Fetch(ProviderKind::Redirect)));
    match plan_check(&manifest(Some(checkver("manual")))) {
        CheckPlan::Done(Ok(CheckOutcome::Skipped { reason })) => assert_eq!(reason, "manual: requires human update"),
        other => panic!("{other:?}"),
    }
    let mut st = checkver("static");
    st.version = Some("2.0".to_string());
    match plan_check(&manifest(Some(st))) {
        CheckPlan::Done(Ok(CheckOutcome::Found(c))) => assert_eq!(c.version, "2.0"),
        other => panic!("{other:?}"),
    }
    match plan_check(&manifest(Some(checkver("static")))) {
        CheckPlan::Done(Err(e)) => {
            assert_eq!(e.message(), "pkg: static provider requires a 'version' field in [checkver]")
        }
        other => panic!("{other:?}"),
    }
    match plan_check(&manifest(Some(checkver("ftp")))) {
        CheckPlan::Done(Err(e)) => assert_eq!(e.message(), "unknown provider: ftp"),
        other => panic!("{other:?}"),
    }
}

#[test]
fn required_configuration() {
    let mut cv = checkver("html_scrape");
    assert!(matches!(url_and_regex(&cv), Err(CheckError::MissingConfig(f)) if f == "url"));
    cv.url = Some("https://x".to_string());
    assert!(matches!(url_and_regex(&cv), Err(CheckError::MissingConfig(f)) if f == "regex"));
    cv.regex = Some("v(\\d+)".to_string());
    assert_eq!(url_and_regex(&cv).unwrap(), ("https://x".to_string(), "v(\\d+)".to_string()));
    let mut gh = checkver("github");
    gh.repo = Some("r".to_string());
    assert!(matches!(owner_and_repo(&gh), Err(CheckError::MissingConfig(f)) if f == "owner"));
    gh.owner = Some("o".to_string());
    assert_eq!(owner_and_repo(&gh).unwrap(), ("o".to_string(), "r".to_string()));
}

#[test]
fn api_status() {
    assert!(api_status_check("GitHub", 200, None, "o", "r").is_ok());
    match api_status_check("GitHub", 429, Some("30".to_string()), "o", "r") {
        Err(e @ CheckError::RateLimited { .. }) => assert_eq!(e.message(), "rate limited (retry-after: Some(\"30\"))"),
        other => panic!("{other:?}"),
    }
    match api_status_check("GitLab", 404, None, "o", "r") {
        Err(e) => assert_eq!(e.message(), "GitLab API returned 404 Not Found for o/r"),
        Ok(()) => panic!("404 is not a success"),
    }
    assert_eq!(status_display(599), "599 <unknown status code>");
    assert!(check_rate_limit(200, None).is_ok());
    assert!(matches!(check_rate_limit(429, None), Err(CheckError::RateLimited { retry_after: None })));
}

#[test]
fn api_urls() {
    assert_eq!(
        github_releases_url("OpenPHDGuiding", "phd2", false),
        "https://api.github.com/repos/OpenPHDGuiding/phd2/releases/latest"
    );
    assert_eq!(github_releases_url("o", "r", true), "https://api.github.com/repos/o/r/releases?per_page=1");
    assert_eq!(
        gitlab_tags_url("o", "r", false),
        "https://gitlab.com/api/v4/projects/o%2Fr/repository/tags?per_page=20&order_by=version"
    );
    assert_eq!(
        gitlab_tags_url("o", "r", true),
        "https://gitlab.com/api/v4/projects/o%2Fr/repository/tags?per_page=1&order_by=version"
    );
}

fn release() -> GithubRelease {
    GithubRelease {
        tag_name: "v2.6.13".to_string(),
        prerelease: false,
        html_url: "https://github.com/o/r/releases/tag/v2.6.13".to_string(),
        assets: vec![
            GithubAsset { browser_download_url: "https://dl/src.tar.gz".to_string(), name: "src.tar.gz".to_string(), size: 10 },
            GithubAsset { browser_download_url: "https://dl/setup.exe".to_string(), name: "setup.exe".to_string(), size: 20 },
        ],
    }
}

#[test]
fn github_release_without_filter() {
    let c = found(github_outcome(&checkver("github"), Some(release())));
    assert_eq!(c.version, "2.6.13");
    assert_eq!(c.url.as_deref(), Some("https://dl/src.tar.gz"));
    assert_eq!(c.assets.len(), 2);
    assert_eq!(c.release_notes_url.as_deref(), Some("https://github.com/o/r/releases/tag/v2.6.13"));
    assert!(!c.pre_release);
    assert!(matches!(github_outcome(&checkver("github"), None), Err(CheckError::NoMatch)));
}

#[test]
fn github_release_with_filter_and_prefix() {
    let mut cv = checkver("github");
    cv.tag_prefix = Some("v2.".to_string());
    cv.autoupdate = Some(Autoupdate {
        url: None,
        resolver: None,
        resolver_args: Vec::new(),
        hash: None,
        asset_filter: Some("\\.exe$".to_string()),
        skip_browser_ua: false,
    });
    let c = found(github_outcome(&cv, Some(release())));
    assert_eq!(c.version, "6.13");
    assert_eq!(c.assets.len(), 1);
    assert_eq!(c.assets[0].name, "setup.exe");
    assert_eq!(c.assets[0].size, 20);
    assert_eq!(c.url.as_deref(), Some("https://dl/setup.exe"));
    cv.autoupdate.as_mut().unwrap().asset_filter = Some("\\.msi$".to_string());
    let c = found(github_outcome(&cv, Some(release())));
    assert!(c.assets.is_empty());
    assert_eq!(c.url.as_deref(), Some("https://dl/src.tar.gz"));
}

#[test]
fn gitlab_tags() {
    let tags = vec!["v3.0.0-beta".to_string(), "v2.9.1".to_string()];
    let c = found(gitlab_outcome("o", "r", false, &tags));
    assert_eq!(c.version, "2.9.1");
    assert!(!c.pre_release);
    assert_eq!(c.release_notes_url.as_deref(), Some("https://gitlab.com/o/r/-/tags/v2.9.1"));
    let c = found(gitlab_outcome("o", "r", true, &tags));
    assert_eq!(c.version, "3.0.0-beta");
    assert!(c.pre_release);
    let only_beta = vec!["v1.0-rc".to_string()];
    assert!(matches!(gitlab_outcome("o", "r", false, &only_beta), Err(CheckError::NoMatch)));
    assert!(matches!(gitlab_outcome("o", "r", true, &Vec::new()), Err(CheckError::NoMatch)));
}

#[test]
fn head_headers_in_order() {
    let re = "Setup-(\\d+\\.\\d+)";
    let c = found(http_head_outcome(
        "https://x/dl",
        re,
        Some("attachment; filename=Setup-1.2.exe".to_string()),
        Some("https://cdn/Setup-9.9.exe".to_string()),
        "https://cdn/Setup-8.8.exe".to_string(),
    ));
    assert_eq!(c.version, "1.2");
    assert_eq!(c.url.as_deref(), Some("https://x/dl"));
    let c = found(http_head_outcome("https://x/dl", re, None, Some("https://cdn/Setup-9.9.exe".to_string()), "f".to_string()));
    assert_eq!(c.version, "9.9");
    assert_eq!(c.url.as_deref(), Some("https://cdn/Setup-9.9.exe"));
    let c = found(http_head_outcome("https://x/dl", re, None, None, "https://cdn/Setup-8.8.exe".to_string()));
    assert_eq!(c.url.as_deref(), Some("https://cdn/Setup-8.8.exe"));
    assert!(matches!(http_head_outcome("u", re, None, None, "none".to_string()), Err(CheckError::NoMatch)));
    match http_head_outcome("u", "(", None, None, "x".to_string()) {
        Err(CheckError::Other(m)) => assert!(m.starts_with("invalid regex: ")),
        other => panic!("{other:?}"),
    }
}

#[test]
fn redirect_keeps_the_stable_url() {
    assert!(head_needs_fallback(None));
    assert!(head_needs_fallback(Some(405)));
    assert!(!head_needs_fallback(Some(302)));
    let re = "ASI_(\\d+\\.\\d+)";
    let c = found(redirect_outcome("https://dl.zwo/latest", re, 200, None, "https://cdn/ASI_1.36.zip?sig=1".to_string(), None, None));
    assert_eq!(c.version, "1.36");
    assert_eq!(c.url.as_deref(), Some("https://dl.zwo/latest"));
    let c = found(redirect_outcome("u", re, 206, None, "https://cdn/x".to_string(), None, Some("ASI_2.0".to_string())));
    assert_eq!(c.version, "2.0");
    assert_eq!(c.url.as_deref(), Some("u"));
    assert!(matches!(redirect_outcome("u", re, 429, None, "ASI_1.0".to_string(), None, None), Err(CheckError::RateLimited { .. })));
    assert!(matches!(redirect_outcome("u", re, 200, None, "x".to_string(), None, None), Err(CheckError::NoMatch)));
}

const PAGE: &str = r#"<html><body>
<div class="old"><a href="/files/app-1.0.exe">old</a></div>
<div class="dl"><p>Version 2.5 is out</p><a href="/files/app-2.5.exe">get</a></div>
</body></html>"#;

#[test]
fn html_scrape_prefers_links() {
    let c = found(html_scrape_outcome(PAGE, "https://example.com/download/", "app-(\\d+\\.\\d+)", None));
    assert_eq!(c.version, "1.0");
    assert_eq!(c.url.as_deref(), Some("https://example.com/files/app-1.0.exe"));
    let c = found(html_scrape_outcome(PAGE, "https://example.com/download/", "app-(\\d+\\.\\d+)", Some("div.dl")));
    assert_eq!(c.version, "2.5");
    assert_eq!(c.url.as_deref(), Some("https://example.com/files/app-2.5.exe"));
}

#[test]
fn html_scrape_falls_back_to_text_and_body() {
    let c = found(html_scrape_outcome(PAGE, "https://example.com/", "Version (\\d+\\.\\d+)", Some("div.dl")));
    assert_eq!(c.version, "2.5");
    assert!(c.url.is_none());
    let c = found(html_scrape_outcome(PAGE, "https://example.com/", "Version (\\d+\\.\\d+)", None));
    assert_eq!(c.version, "2.5");
    assert!(matches!(html_scrape_outcome(PAGE, "https://e/", "nothing (\\d+)", None), Err(CheckError::NoMatch)));
    match html_scrape_outcome(PAGE, "https://e/", "(\\d+)", Some("div[")) {
        Err(CheckError::Other(m)) => assert!(m.starts_with("invalid CSS selector: ")),
        other => panic!("{other:?}"),
    }
}

#[test]
fn link_targets() {
    assert_eq!(extract_href("https://a/b", "https://base/").as_deref(), Some("https://a/b"));
    assert_eq!(extract_href("/x/y.exe", "https://base.org/dl/page").as_deref(), Some("https://base.org/x/y.exe"));
    assert_eq!(extract_href("y.exe", "https://base.org/dl/page").as_deref(), Some("y.exe"));
    assert_eq!(extract_href("/x", "not a url"), None);
}

#[test]
fn browser_actions() {
    assert!(matches!(browser_action(&None), BrowserAction::Nothing));
    match browser_action(&Some("js:document.title".to_string())) {
        BrowserAction::Evaluate(js) => assert_eq!(js, "document.title"),
        other => panic!("{other:?}"),
    }
    match browser_action(&Some("#download".to_string())) {
        BrowserAction::Click(s) => assert_eq!(s, "#download"),
        other => panic!("{other:?}"),
    }
}

#[test]
fn browser_page_assets() {
    let c = found(browser_outcome("https://example.com/download/", "app-(\\d+\\.\\d+)", PAGE));
    assert_eq!(c.version, "1.0");
    assert_eq!(c.assets.len(), 2);
    assert_eq!(c.assets[1].url, "https://example.com/files/app-2.5.exe");
    assert_eq!(c.assets[1].name, "app-2.5.exe");
    assert_eq!(c.assets[1].size, 0);
    assert_eq!(c.url.as_deref(), Some("https://example.com/files/app-1.0.exe"));
    assert!(matches!(browser_outcome("https://e/", "zzz(\\d)", PAGE), Err(CheckError::NoMatch)));
}

#[test]
fn body_regex_version() {
    let c = found(version_from_body("latest: v4.2.0", "v(\\d+\\.\\d+\\.\\d+)"));
    assert_eq!(c.version, "4.2.0");
    assert!(c.url.is_none());
    assert!(matches!(version_from_body("latest", "v(\\d+)"), Err(CheckError::NoMatch)));
    assert!(matches!(version_from_body("v12", "v\\d+"), Err(CheckError::NoMatch)));
}

#[test]
fn pe_versions_from_bytes() {
    match pe_outcome("https://x/a.exe", b"not a pe") {
        Err(CheckError::PeParse(m)) => assert!(!m.is_empty()),
        other => panic!("{other:?}"),
    }
}

#[test]
fn error_messages() {
    assert_eq!(CheckError::Reqwest("connection refused".to_string()).message(), "reqwest error: connection refused");
    assert_eq!(CheckError::Browser("launch error: x".to_string()).message(), "browser scrape error: launch error: x");
    assert_eq!(CheckError::PeParse("no optional header in PE".to_string()).message(), "PE parse error: no optional header in PE");
    assert_eq!(CheckError::MissingConfig("url".to_string()).message(), "provider not configured: missing url");
    assert_eq!(CheckError::RateLimited { retry_after: None }.message(), "rate limited (retry-after: None)");
    assert_eq!(CheckError::Other("boom".to_string()).message(), "boom");
    assert_eq!(CheckError::NoMatch.message(), "no version match found in response");
}

#[test]
fn pe_versions_from_optional_header() {
    let mut b = vec![0u8; 0x200];
    b[0] = b'M';
    b[1] = b'Z';
    b[0x3c] = 0x80;
    b[0x80..0x84].copy_from_slice(b"PE\0\0");
    // COFF header: machine i386, size of the optional header 0xE0.
    b[0x84] = 0x4c;
    b[0x85] = 0x01;
    b[0x94] = 0xE0;
    // Optional header (PE32) at 0x98, Windows fields at 0xB4.
    b[0x98] = 0x0b;
    b[0x99] = 0x01;
    b[0xC0] = 6; // major OS version
    b[0xC2] = 1; // minor OS version
    b[0xC4] = 1; // major image version
    b[0xC6] = 2; // minor image version
    match pe_outcome("https://x/a.exe", &b) {
        Ok(CheckOutcome::Found(c)) => {
            assert_eq!(c.version, "1.2.6.1");
            assert_eq!(c.url.as_deref(), Some("https://x/a.exe"));
        },
        other => panic!("{other:?}"),
    }
}
