use astro_up_manifests::hash::{hash_from_body, hash_method, json_string_at, jsonpath_keys, sha256_hex, HashMethod, JsonValue};
use astro_up_manifests::manifest::HashConfig;

fn config(url: Option<&str>, regex: Option<&str>, jsonpath: Option<&str>) -> HashConfig {
    HashConfig { url: url.map(str::to_string), regex: regex.map(str::to_string), jsonpath: jsonpath.map(str::to_string) }
}

#[test]
fn one_method_per_configuration() {
    assert!(hash_method(None).is_none());
    match hash_method(Some(&config(Some("https://x/sums-$version.txt"), Some("([0-9a-f]{64})"), Some("$.a")))) {
        Some(HashMethod::UrlRegex { url_template, regex }) => {
            assert_eq!(url_template, "https://x/sums-$version.txt");
            assert_eq!(regex, "([0-9a-f]{64})");
        }
        other => panic!("{other:?}"),
    }
    match hash_method(Some(&config(Some("https://x/api"), None, Some("$.assets.sha256")))) {
        Some(HashMethod::JsonPath { path, .. }) => assert_eq!(path, "$.assets.sha256"),
        other => panic!("{other:?}"),
    }
    assert!(matches!(hash_method(Some(&config(None, None, Some("$.a")))), Some(HashMethod::Download)));
    assert!(matches!(hash_method(Some(&config(None, None, None))), Some(HashMethod::Download)));
}

#[test]
fn hash_on_a_checksum_page() {
    let body = "abc123  setup.exe\nfff000  other.exe";
    assert_eq!(hash_from_body(body, r"([0-9a-f]+)\s+setup\.exe").as_deref(), Some("abc123"));
    assert_eq!(hash_from_body(body, r"([0-9a-f]+)\s+missing\.exe"), None);
    assert_eq!(hash_from_body(body, "("), None);
}

#[test]
fn json_path_keys() {
    assert_eq!(jsonpath_keys("$.assets.sha256"), vec!["assets".to_string(), "sha256".to_string()]);
    assert_eq!(jsonpath_keys("sha256"), vec!["sha256".to_string()]);
    assert_eq!(jsonpath_keys("$.$.a"), vec!["a".to_string()]);
}

#[test]
fn json_lookup_follows_objects() {
    let doc = JsonValue::Object(vec![
        (
            "assets".to_string(),
            JsonValue::Object(vec![
                ("sha256".to_string(), JsonValue::Str("deadbeef".to_string())),
                ("size".to_string(), JsonValue::Number("12".to_string())),
            ]),
        ),
        ("list".to_string(), JsonValue::Array(vec![JsonValue::Str("x".to_string())])),
    ]);
    assert_eq!(json_string_at(&doc, &jsonpath_keys("$.assets.sha256")).as_deref(), Some("deadbeef"));
    assert_eq!(json_string_at(&doc, &jsonpath_keys("$.assets.size")), None);
    assert_eq!(json_string_at(&doc, &jsonpath_keys("$.list.0")), None);
    assert_eq!(json_string_at(&doc, &jsonpath_keys("$.missing")), None);
    assert_eq!(json_string_at(&JsonValue::Null, &jsonpath_keys("$.a")), None);
}

#[test]
fn sha256_of_download() {
    assert_eq!(sha256_hex(b""), "e3b0c44298fc1c149afbf4c8996fb92427ae41e4649b934ca495991b7852b855");
    assert_eq!(sha256_hex(b"abc"), "ba7816bf8f01cfea414140de5dae2223b00361a396177a9cb410ff61f20015ad");
}
