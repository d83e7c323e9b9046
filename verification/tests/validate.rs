use astro_up_manifests::manifest::{Checkver, Install, Manifest};
use astro_up_manifests::validate::{apply_default_switches, default_switches, validate_manifest};

fn manifest() -> Manifest {
    Manifest {
        id: "nina-app".to_string(),
        manifest_version: 1,
        name: "N.I.N.A.".to_string(),
        disabled: false,
        description: None,
        publisher: None,
        homepage: Some("https://nighttime-imaging.eu".to_string()),
        category: "capture".to_string(),
        package_type: "application".to_string(),
        slug: "nina".to_string(),
        tags: Vec::new(),
        aliases: Vec::new(),
        license: None,
        icon: None,
        detection: None,
        install: Install {
            method: "inno_setup".to_string(),
            zip_wrapped: false,
            zip_inner_path: None,
            scope: None,
            elevation: None,
            switches: Vec::new(),
            exit_codes: Vec::new(),
            success_codes: Vec::new(),
        },
        checkver: Some(Checkver {
            provider: "html_scrape".to_string(),
            owner: None,
            repo: None,
            url: Some("https://nighttime-imaging.eu/download/".to_string()),
            regex: None,
            version_format: Some("semver".to_string()),
            include_pre_release: false,
            css_selector: None,
            tag_prefix: None,
            version: None,
            hash: None,
            autoupdate: None,
        }),
        hardware: None,
        backup: None,
        dependencies: None,
    }
}

#[test]
fn valid_manifest_has_no_errors() {
    assert!(validate_manifest(&manifest(), "nina.toml").is_empty());
}

#[test]
fn every_rule_reports_its_error() {
    let mut m = manifest();
    m.manifest_version = 2;
    m.name = String::new();
    m.install.method = "unknown_method".to_string();
    m.homepage = Some("ftp://x".to_string());
    let cv = m.checkver.as_mut().unwrap();
    cv.provider = "static".to_string();
    cv.url = Some("nighttime-imaging.eu".to_string());
    let messages: Vec<String> = validate_manifest(&m, "bad.toml").iter().map(|e| e.message()).collect();
    assert_eq!(
        messages,
        vec![
            "bad.toml: unsupported manifest_version 2 (supported: [1])".to_string(),
            "bad.toml: missing required field 'name'".to_string(),
            "bad.toml: unknown install method 'unknown_method'".to_string(),
            "bad.toml: unknown checkver provider 'static'".to_string(),
            "bad.toml: invalid URL in field 'checkver.url': nighttime-imaging.eu".to_string(),
            "bad.toml: invalid URL in field 'homepage': ftp://x".to_string(),
        ]
    );
}

#[test]
fn default_switches_per_method() {
    assert_eq!(
        default_switches("inno_setup"),
        vec![("silent".to_string(), "/VERYSILENT /NORESTART /SUPPRESSMSGBOXES".to_string())]
    );
    assert_eq!(default_switches("msi"), vec![("silent".to_string(), "/qn /norestart".to_string())]);
    assert_eq!(default_switches("nsis"), vec![("silent".to_string(), "/S".to_string())]);
    assert!(default_switches("exe").is_empty());
}

#[test]
fn given_switches_override_defaults() {
    let mut m = manifest();
    apply_default_switches(&mut m.install);
    assert_eq!(m.install.switches, default_switches("inno_setup"));
    m.install.switches = vec![("silent".to_string(), "/SP-".to_string())];
    apply_default_switches(&mut m.install);
    assert_eq!(m.install.switches, vec![("silent".to_string(), "/SP-".to_string())]);
}
