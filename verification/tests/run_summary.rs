use astro_up_manifests::manifest::{Checkver, Install, Manifest};
use astro_up_manifests::run_summary::{run_summary_lines, selected};

fn manifest(id: &str, category: &str, provider: &str) -> Manifest {
    Manifest {
        id: id.to_string(),
        manifest_version: 1,
        name: id.to_string(),
        disabled: false,
        description: None,
        publisher: None,
        homepage: None,
        category: category.to_string(),
        package_type: "application".to_string(),
        slug: id.to_string(),
        tags: Vec::new(),
        aliases: Vec::new(),
        license: None,
        icon: None,
        detection: None,
        install: Install {
            method: "exe".to_string(),
            zip_wrapped: false,
            zip_inner_path: None,
            scope: None,
            elevation: None,
            switches: Vec::new(),
            exit_codes: Vec::new(),
            success_codes: Vec::new(),
        },
        checkver: Some(Checkver {
            provider: provider.to_string(),
            owner: None,
            repo: None,
            url: None,
            regex: None,
            version_format: None,
            include_pre_release: false,
            css_selector: None,
            tag_prefix: None,
            version: None,
            hash: None,
            autoupdate: None,
        }),
        hardware: None,
        backup: None,
        dependencies: None,
    }
}

#[test]
fn filter_matches_id_category_or_provider() {
    let m = manifest("nina-app", "capture", "html_scrape");
    assert!(selected(&m, None));
    assert!(selected(&m, Some("nina")));
    assert!(selected(&m, Some("capt")));
    assert!(selected(&m, Some("scrape")));
    assert!(!selected(&m, Some("github")));
    let mut off = manifest("old", "capture", "github");
    off.disabled = true;
    assert!(!selected(&off, None));
}

#[test]
fn run_summary_format() {
    let lines = run_summary_lines(
        95,
        10,
        &vec![("nina-app".to_string(), "3.1.2".to_string()), ("phd2".to_string(), "2.6.13".to_string())],
        &vec!["sharpcap".to_string(), "astap".to_string()],
        &Vec::new(),
        &vec![("sharpcap".to_string(), 8, 42)],
    );
    assert_eq!(
        lines,
        vec![
            "Checked 95 manifests (10 concurrent)".to_string(),
            "  New versions: 2 (nina-app 3.1.2, phd2 2.6.13)".to_string(),
            "  Failed: 2 (sharpcap, astap)".to_string(),
            "  Skipped: 0".to_string(),
            "  Persistent failures: 1 (sharpcap \u{2014} 8 consecutive, issue #42 created)".to_string(),
        ]
    );
}
