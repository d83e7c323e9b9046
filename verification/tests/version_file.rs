use astro_up_manifests::clock::Timestamp;
use astro_up_manifests::template::substitute;
use astro_up_manifests::version_file::{version_file_name, DiscoveredVersion};

const NOW: Timestamp = Timestamp { secs: 1_767_225_600, nanos: 0 };

fn discovered(id: &str, version: &str, url: &str) -> DiscoveredVersion {
    DiscoveredVersion {
        package_id: id.into(),
        version: version.into(),
        url: url.into(),
        sha256: None,
        release_notes_url: None,
        pre_release: false,
    }
}

#[test]
fn write_new_version() {
    let mut d = discovered("nina-app", "3.1.2", "https://example.com/nina-3.1.2.exe");
    d.sha256 = Some("abc123def456".into());
    d.release_notes_url = Some("https://example.com/release".into());
    assert!(d.has_url());
    assert_eq!(format!("{}/{}", d.package_id, d.file_name()), "nina-app/3.1.2.json");
    let entry = d.entry_at(NOW);
    assert_eq!(entry.url, "https://example.com/nina-3.1.2.exe");
    assert_eq!(entry.sha256.expect("sha256 should be present"), "abc123def456");
    assert!(!entry.pre_release);
    assert_eq!(entry.discovered_at, NOW);
}

#[test]
fn pre_release_flag() {
    let mut d = discovered("nina-app", "3.2.0-rc1", "https://example.com/nina-3.2.0-rc1.exe");
    d.pre_release = true;
    assert!(d.entry_at(NOW).pre_release);
    assert_eq!(d.file_name(), "3.2.0-rc1.json");
}

#[test]
fn sanitize_unsafe_version_chars() {
    let d = discovered("test-app", "1.0.0+build/123", "https://example.com/test.exe");
    assert_eq!(d.file_name(), "1.0.0+build_123.json");
}

#[test]
fn date_version_format() {
    let d = discovered("tool", "2026.03.29", "https://example.com/tool.exe");
    assert_eq!(d.file_name(), "2026.03.29.json");
}

#[test]
fn empty_url_is_not_written() {
    assert!(!discovered("tool", "1.0", "").has_url());
    assert_eq!(version_file_name("a:b*c"), "a_b_c.json");
}

#[test]
fn template_resolution_in_version_file() {
    let autoupdate_template = "https://f000.backblazeb2.com/file/nina-releases/NINA-$version-Setup.exe";
    let resolved_url = substitute(autoupdate_template, "3.1.2");
    assert_eq!(resolved_url, "https://f000.backblazeb2.com/file/nina-releases/NINA-3.1.2-Setup.exe");
    let mut d = discovered("nina-app", "3.1.2", &resolved_url);
    d.sha256 = Some("abc123".into());
    assert_eq!(d.file_name(), "3.1.2.json");
    let entry = d.entry_at(NOW);
    assert_eq!(entry.url, "https://f000.backblazeb2.com/file/nina-releases/NINA-3.1.2-Setup.exe");
    assert!(!entry.url.contains("$version"));
}
