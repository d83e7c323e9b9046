use astro_up_manifests::clock::Timestamp;
use astro_up_manifests::issue::{
    issue_title, issue_url, issues_url, record_issue_closed, record_issue_created, reminder_body_at, reminder_title,
    IssueReport,
};
use astro_up_manifests::manifest::{Checkver, Install, Manifest};
use astro_up_manifests::state::{CheckerState, ManifestState};

const T0: Timestamp = Timestamp { secs: 1_767_225_600, nanos: 0 };

fn manifest(id: &str, provider: &str) -> Manifest {
    Manifest {
        id: id.to_string(),
        manifest_version: 1,
        name: id.to_string(),
        disabled: false,
        description: None,
        publisher: None,
        homepage: None,
        category: "driver".to_string(),
        package_type: "driver".to_string(),
        slug: id.to_string(),
        tags: Vec::new(),
        aliases: Vec::new(),
        license: None,
        icon: None,
        detection: None,
        install: Install {
            method: "exe".to_string(),
            zip_wrapped: false,
            zip_inner_path: None,
            scope: None,
            elevation: None,
            switches: Vec::new(),
            exit_codes: Vec::new(),
            success_codes: Vec::new(),
        },
        checkver: Some(Checkver {
            provider: provider.to_string(),
            owner: None,
            repo: None,
            url: None,
            regex: None,
            version_format: None,
            include_pre_release: false,
            css_selector: None,
            tag_prefix: None,
            version: None,
            hash: None,
            autoupdate: None,
        }),
        hardware: None,
        backup: None,
        dependencies: None,
    }
}

#[test]
fn eight_failures_open_an_issue() {
    let mut state = CheckerState::default();
    for k in 0..7 {
        state.record_failure_at("app", "timeout", Timestamp { secs: k, nanos: 0 });
    }
    assert!(!state.needs_issue("app"));
    assert!(state.issues_to_create().is_empty());
    state.record_failure_at("app", "timeout", T0);
    assert!(state.needs_issue("app"));
    assert_eq!(state.issues_to_create(), vec!["app".to_string()]);
    assert_eq!(issue_title("app"), "Version check failing: app");
    assert_eq!(
        state.issue_body("app").unwrap(),
        "The version check for `app` has failed for 8 consecutive pipeline runs.\n\nLast error: timeout\n\nThis issue was auto-created by the checker pipeline."
    );
    assert!(state.issue_body("other").is_none());
}

#[test]
fn issue_lifecycle() {
    let mut state = CheckerState::default();
    let mut report = IssueReport::default();
    for _ in 0..8 {
        state.record_failure_at("app", "boom", T0);
    }
    record_issue_created(&mut state, &mut report, "app", 42);
    assert_eq!(report.created, vec![("app".to_string(), 42)]);
    assert!(!state.needs_issue("app"));
    assert_eq!(state.should_close_issue("app"), None);
    state.record_success_at("app", T0);
    assert_eq!(state.should_close_issue("app"), Some(42));
    assert_eq!(state.issues_to_close(), vec![("app".to_string(), 42)]);
    record_issue_closed(&mut state, &mut report, "app", 42);
    assert_eq!(report.closed, vec![("app".to_string(), 42)]);
    assert_eq!(state.should_close_issue("app"), None);
    assert!(state.issues_to_close().is_empty());
}

#[test]
fn success_resets_failures_and_keeps_other_entries() {
    let mut state = CheckerState::default();
    state.record_failure_at("a", "x", T0);
    state.record_failure_at("b", "y", T0);
    state.record_success("a");
    assert_eq!(state.manifests.iter().find(|(id, _)| id == "a").unwrap().1.consecutive_failures, 0);
    assert_eq!(state.manifests.iter().find(|(id, _)| id == "b").unwrap().1.consecutive_failures, 1);
    state.record_failure("b", "z");
    let b = &state.manifests.iter().find(|(id, _)| id == "b").unwrap().1;
    assert_eq!(b.consecutive_failures, 2);
    assert_eq!(b.last_error.as_deref(), Some("z"));
}

#[test]
fn github_issue_urls() {
    assert_eq!(issues_url("owner/repo"), "https://api.github.com/repos/owner/repo/issues");
    assert_eq!(issue_url("owner/repo", 17), "https://api.github.com/repos/owner/repo/issues/17");
    assert_eq!(reminder_title(), "Manual version check reminder");
}

#[test]
fn reminder_lists_manual_packages() {
    let manifests = vec![manifest("prolific-drivers", "manual"), manifest("nina-app", "github"), manifest("old-driver", "manual")];
    let mut state = CheckerState::default();
    state.manifests.push((
        "prolific-drivers".to_string(),
        ManifestState {
            consecutive_failures: 0,
            last_checked: T0,
            last_error: None,
            issue_number: None,
            last_manual_update: Some(Timestamp { secs: T0.secs - 10 * 86_400 - 5, nanos: 0 }),
        },
    ));
    let body = reminder_body_at(&state, &manifests, T0).unwrap();
    assert_eq!(
        body,
        "The following packages use manual version checking and may need review:\n\n\
         | Package | Last Updated | Days Since Update |\n\
         |---------|-------------|-------------------|\n\
         | prolific-drivers | 2025-12-21 | 10 |\n\
         | old-driver | never | never |\n\
         \n*This issue is auto-updated by the checker pipeline.*"
    );
    assert!(reminder_body_at(&state, &vec![manifest("nina-app", "github")], T0).is_none());
}
