use astro_up_manifests::version::{parse, sanitize_for_filename, ParsedVersion, VersionError};

#[test]
fn semver_strict() {
    let v = parse("3.1.2", None).unwrap();
    assert!(matches!(v, ParsedVersion::Semver(_)));
}

#[test]
fn semver_lenient() {
    let v = parse("3.1", None).unwrap();
    assert!(matches!(v, ParsedVersion::Semver(_)));
}

#[test]
fn semver_with_prefix() {
    let v = parse("v3.1.2", Some("semver")).unwrap();
    assert!(matches!(v, ParsedVersion::Semver(_)));
}

#[test]
fn version_semver_ordering() {
    let v1 = parse("1.0.0", None).unwrap();
    let v2 = parse("2.0.0", None).unwrap();
    let v3 = parse("1.1.0", None).unwrap();
    assert!(v1 < v2);
    assert!(v1 < v3);
    assert!(v3 < v2);
}

#[test]
fn date_format() {
    let v = parse("2026.03.29", Some("date")).unwrap();
    assert!(matches!(
        v,
        ParsedVersion::Date {
            year: 2026,
            month: 3,
            day: 29,
            ..
        }
    ));
}

#[test]
fn version_date_ordering() {
    let v1 = parse("2025.12.01", Some("date")).unwrap();
    let v2 = parse("2026.01.01", Some("date")).unwrap();
    assert!(v1 < v2);
}

#[test]
fn custom_regex() {
    let v = parse("3.1 HF2", Some(r"(\d+)\.(\d+) HF(\d+)")).unwrap();
    assert!(matches!(v, ParsedVersion::Custom { .. }));
}

#[test]
fn sanitize_filename() {
    assert_eq!(sanitize_for_filename("3.1.2-rc1"), "3.1.2-rc1");
    assert_eq!(sanitize_for_filename("3.1.2+build/123"), "3.1.2+build_123");
}

#[test]
fn version_format_semver_ordering() {
    let v1 = parse("1.0.0", None).unwrap();
    let v2 = parse("1.1.0", None).unwrap();
    let v3 = parse("2.0.0", None).unwrap();
    assert!(v1 < v2);
    assert!(v2 < v3);
}

#[test]
fn semver_pre_release_before_stable() {
    let pre = parse("1.0.0-rc1", Some("semver")).unwrap();
    let stable = parse("1.0.0", Some("semver")).unwrap();
    assert!(pre < stable);
}

#[test]
fn lenient_semver_two_parts() {
    let v = parse("3.1", Some("semver")).unwrap();
    assert!(matches!(v, ParsedVersion::Semver(_)));
}

#[test]
fn lenient_semver_with_v_prefix() {
    let v = parse("v2.4.1", Some("semver")).unwrap();
    assert!(matches!(v, ParsedVersion::Semver(_)));
}

#[test]
fn date_format_parsing() {
    let v = parse("2026.03.29", Some("date")).unwrap();
    assert!(matches!(
        v,
        ParsedVersion::Date {
            year: 2026,
            month: 3,
            day: 29,
            ..
        }
    ));
}

#[test]
fn version_format_date_ordering() {
    let v1 = parse("2025.12.01", Some("date")).unwrap();
    let v2 = parse("2026.01.15", Some("date")).unwrap();
    let v3 = parse("2026.03.29", Some("date")).unwrap();
    assert!(v1 < v2);
    assert!(v2 < v3);
}

#[test]
fn date_partial_year_month() {
    let v = parse("2026.03", Some("date")).unwrap();
    assert!(matches!(
        v,
        ParsedVersion::Date {
            year: 2026,
            month: 3,
            day: 1,
            ..
        }
    ));
}

#[test]
fn custom_regex_with_groups() {
    let v = parse("3.1 HF2", Some(r"(\d+)\.(\d+) HF(\d+)")).unwrap();
    assert!(matches!(v, ParsedVersion::Custom { .. }));
}

#[test]
fn custom_regex_ordering() {
    let v1 = parse("3.1 HF1", Some(r"(\d+)\.(\d+) HF(\d+)")).unwrap();
    let v2 = parse("3.1 HF2", Some(r"(\d+)\.(\d+) HF(\d+)")).unwrap();
    let v3 = parse("3.2 HF1", Some(r"(\d+)\.(\d+) HF(\d+)")).unwrap();
    assert!(v1 < v2);
    assert!(v2 < v3);
}

#[test]
fn date_parse_error_names_input() {
    match parse("abc", Some("date")) {
        Err(VersionError::DateParse(m)) => assert_eq!(m, "abc"),
        other => panic!("unexpected {other:?}"),
    }
}

#[test]
fn date_dash_separated_and_bad_day() {
    let v = parse("2024-07-xx", Some("date")).unwrap();
    assert!(matches!(v, ParsedVersion::Date { year: 2024, month: 7, day: 1, .. }));
}

#[test]
fn semver_parse_error_mentions_version() {
    match parse("not a version", None) {
        Err(e @ VersionError::SemverParse(_)) => {
            assert!(e.message().starts_with("failed to parse semver: not a version: "));
        }
        other => panic!("unexpected {other:?}"),
    }
}

#[test]
fn custom_regex_errors() {
    match parse("1.0", Some("(")) {
        Err(VersionError::RegexParse(m)) => assert!(m.starts_with("(: ")),
        other => panic!("unexpected {other:?}"),
    }
    match parse("xyz", Some(r"(\d+)")) {
        Err(VersionError::RegexParse(m)) => assert_eq!(m, r"xyz doesn't match (\d+)"),
        other => panic!("unexpected {other:?}"),
    }
}

#[test]
fn custom_components_skip_unmatched_groups() {
    let v = parse("7-x", Some(r"(\d+)-(y)?(x)")).unwrap();
    match v {
        ParsedVersion::Custom { components, raw } => {
            assert_eq!(components, vec!["7".to_string(), "x".to_string()]);
            assert_eq!(raw, "7-x");
        }
        _ => panic!("expected custom"),
    }
}

#[test]
fn raw_text_of_versions() {
    assert_eq!(parse("v1.2", None).unwrap().raw(), "1.2.0");
    assert_eq!(parse("1.2.3-rc.1+b7", None).unwrap().raw(), "1.2.3-rc.1+b7");
    assert_eq!(parse("2026.03", Some("date")).unwrap().raw(), "2026.03");
}

#[test]
fn order_laws_on_examples() {
    let a = parse("1.0.0-alpha", None).unwrap();
    let b = parse("1.0.0-alpha.1", None).unwrap();
    let c = parse("1.0.0-beta.2", None).unwrap();
    let d = parse("1.0.0-beta.11", None).unwrap();
    let e = parse("1.0.0", None).unwrap();
    assert!(a < b && b < c && c < d && d < e);
    assert!(e > a);
    assert!(a == a.clone());
    let date = parse("2026.01.01", Some("date")).unwrap();
    assert!(date != e);
    assert!(e < date);
}

#[test]
fn sanitize_is_idempotent() {
    let once = sanitize_for_filename("a:b*c?d\"e<f>g|h\\i/j");
    assert_eq!(once, "a_b_c_d_e_f_g_h_i_j");
    assert_eq!(sanitize_for_filename(&once), once);
}

#[test]
fn different_formats_order_by_raw_text() {
    let a = parse("2.0.0", None).unwrap();
    let b = parse("2026.01.01", Some("date")).unwrap();
    assert_eq!(a.partial_cmp(&b), Some(std::cmp::Ordering::Less));
    assert_eq!(b.partial_cmp(&a), Some(std::cmp::Ordering::Greater));
    assert!(a != b);
    assert!(a < b);
}
