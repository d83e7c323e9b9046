use astro_up_manifests::catalog::{
    icon_base64, icon_file_names, load_outcome, normalized_aliases, version_file_version, version_imports,
};
use astro_up_manifests::manifest::{Checkver, Install, Manifest};

fn manifest(id: &str, method: &str) -> Manifest {
    Manifest {
        id: id.to_string(),
        manifest_version: 1,
        name: id.to_string(),
        disabled: false,
        description: None,
        publisher: None,
        homepage: None,
        category: "capture".to_string(),
        package_type: "application".to_string(),
        slug: id.to_string(),
        tags: Vec::new(),
        aliases: Vec::new(),
        license: None,
        icon: None,
        detection: None,
        install: Install {
            method: method.to_string(),
            zip_wrapped: false,
            zip_inner_path: None,
            scope: None,
            elevation: None,
            switches: Vec::new(),
            exit_codes: Vec::new(),
            success_codes: Vec::new(),
        },
        checkver: Some(Checkver {
            provider: "manual".to_string(),
            owner: None,
            repo: None,
            url: None,
            regex: None,
            version_format: None,
            include_pre_release: false,
            css_selector: None,
            tag_prefix: None,
            version: None,
            hash: None,
            autoupdate: None,
        }),
        hardware: None,
        backup: None,
        dependencies: None,
    }
}

#[test]
fn aliases_for_search() {
    assert_eq!(normalized_aliases(&Vec::new()), None);
    let aliases = vec!["N.I.N.A.".to_string(), "nina-app".to_string()];
    assert_eq!(normalized_aliases(&aliases).as_deref(), Some("NINA ninaapp"));
}

#[test]
fn icon_lookup_names() {
    let mut m = manifest("app", "exe");
    assert!(icon_file_names(&m).is_empty());
    m.icon = Some("nina".to_string());
    m.publisher = Some("Stefan Berg".to_string());
    assert_eq!(icon_file_names(&m), vec!["nina.png".to_string(), "stefan-berg.png".to_string()]);
}

#[test]
fn icons_in_base64() {
    assert_eq!(icon_base64(b""), "");
    assert_eq!(icon_base64(b"M"), "TQ==");
    assert_eq!(icon_base64(b"Ma"), "TWE=");
    assert_eq!(icon_base64(b"Man"), "TWFu");
    assert_eq!(icon_base64(&[0xff, 0xfe, 0x00, 0x10]), "//4AEA==");
}

#[test]
fn version_file_names() {
    assert_eq!(version_file_version("3.1.2.json").as_deref(), Some("3.1.2"));
    assert_eq!(version_file_version("1.0.0+build_123.json").as_deref(), Some("1.0.0+build_123"));
    assert_eq!(version_file_version("notes.txt"), None);
    assert_eq!(version_file_version(".json"), None);
    assert_eq!(version_file_version("json"), None);
    assert_eq!(version_file_version("a.JSON"), None);
}

#[test]
fn loading_keeps_valid_manifests() {
    let mut bad = manifest("", "exe");
    bad.name = String::new();
    let entries = vec![
        ("good.toml".to_string(), Ok(manifest("good", "inno_setup"))),
        ("bad.toml".to_string(), Err("TOML parse error".to_string())),
        ("empty.toml".to_string(), Ok(bad)),
    ];
    let r = load_outcome(entries);
    assert_eq!(r.manifests.len(), 1);
    assert_eq!(r.manifests[0].id, "good");
    assert_eq!(
        r.manifests[0].install.switches,
        vec![("silent".to_string(), "/VERYSILENT /NORESTART /SUPPRESSMSGBOXES".to_string())]
    );
    assert_eq!(r.errors[0], "bad.toml: TOML parse error");
    assert!(r.errors.len() >= 2);
    assert!(r.errors[1].starts_with("empty.toml: missing required field"));
}

#[test]
fn orphaned_version_files_are_not_imported() {
    let known = vec!["nina-app".to_string()];
    let files = vec!["3.1.2.json".to_string(), "notes.md".to_string(), "3.2.0-rc1.json".to_string()];
    assert_eq!(version_imports(&known, "nina-app", &files), vec!["3.1.2".to_string(), "3.2.0-rc1".to_string()]);
    assert!(version_imports(&known, "nonexistent-pkg", &files).is_empty());
}
