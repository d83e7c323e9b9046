use astro_up_manifests::sharpcap::{resolve, sharpcap_download_url, sharpcap_download_url_with};

#[test]
fn short_version_url() {
    let url = sharpcap_download_url("4.1.1234.0", "x64").unwrap();
    assert!(url.starts_with("https://d.sharpcap.co.uk/file/"));
    assert!(url.ends_with("_x64"));
    let path = url.strip_prefix("https://d.sharpcap.co.uk/file/").unwrap();
    assert_eq!(path.as_bytes()[0], b'4');
}

#[test]
fn long_version_url() {
    let url = sharpcap_download_url("4.1.14247.0", "x64").unwrap();
    assert!(url.starts_with("https://d.sharpcap.co.uk/file/a"));
    assert!(url.ends_with("_x64"));
}

#[test]
fn version_too_short() {
    assert!(sharpcap_download_url("4.1.1", "x64").is_none());
}

#[test]
fn sharpcap_url_with_fixed_uuid_bytes() {
    let raw = [0u8; 16];
    // uuid: 00000000-0000-4000-8000-000000000000
    let short = sharpcap_download_url_with("4.1.1234.0", "", raw).unwrap();
    assert_eq!(short, "https://d.sharpcap.co.uk/file/40000000-1000-1000-2000-300000000004");
    let long = sharpcap_download_url_with("4.1.14247.0", "x86", raw).unwrap();
    assert_eq!(long, "https://d.sharpcap.co.uk/file/a4000000-1000-1000-4000-200000000074_x86");
}

#[test]
fn resolver_by_name() {
    let args = vec![("arch".to_string(), "arm64".to_string())];
    let url = resolve("sharpcap", "4.1.1234.0", &args).unwrap();
    assert!(url.ends_with("_arm64"));
    let url = resolve("sharpcap", "4.1.1234.0", &Vec::new()).unwrap();
    assert!(url.ends_with("_x64"));
    assert!(resolve("other", "4.1.1234.0", &args).is_none());
}
