use astro_up_manifests::template::substitute;

#[test]
fn standard_semver() {
    let result = substitute("https://example.com/$version/app-$cleanVersion.exe", "3.1.2");
    assert_eq!(result, "https://example.com/3.1.2/app-312.exe");
}

#[test]
fn all_variables() {
    let v = "3.1.2-rc1+build.456";
    assert_eq!(substitute("$version", v), "3.1.2-rc1+build.456");
    assert_eq!(substitute("$majorVersion", v), "3");
    assert_eq!(substitute("$minorVersion", v), "1");
    assert_eq!(substitute("$patchVersion", v), "2");
    assert_eq!(substitute("$cleanVersion", v), "312");
    assert_eq!(substitute("$underscoreVersion", v), "3_1_2");
    assert_eq!(substitute("$dashVersion", v), "3-1-2");
    assert_eq!(substitute("$preReleaseVersion", v), "rc1");
    assert_eq!(substitute("$buildVersion", v), "build.456");
}

#[test]
fn missing_components() {
    assert_eq!(substitute("$minorVersion", "3"), "");
    assert_eq!(substitute("$patchVersion", "3.1"), "");
    assert_eq!(substitute("$preReleaseVersion", "3.1.2"), "");
}

#[test]
fn leading_v_prefix() {
    assert_eq!(substitute("$majorVersion", "v3.1.2"), "3");
}

#[test]
fn full_version_url_template() {
    let template = "https://github.com/daleghent/nina/releases/download/v$version/NINA-$version-Setup.exe";
    let result = substitute(template, "3.1.2");
    assert_eq!(
        result,
        "https://github.com/daleghent/nina/releases/download/v3.1.2/NINA-3.1.2-Setup.exe"
    );
}

#[test]
fn hash_url_template() {
    let template = "https://example.com/releases/$version/checksums-$cleanVersion.txt";
    let result = substitute(template, "3.1.2");
    assert_eq!(result, "https://example.com/releases/3.1.2/checksums-312.txt");
}

#[test]
fn underscore_and_dash_templates() {
    let template = "app_$underscoreVersion.zip and app-$dashVersion.tar.gz";
    let result = substitute(template, "3.1.2");
    assert_eq!(result, "app_3_1_2.zip and app-3-1-2.tar.gz");
}

#[test]
fn pre_release_version() {
    let template = "v$version (pre: $preReleaseVersion, build: $buildVersion)";
    let result = substitute(template, "3.2.0-rc1+build.456");
    assert_eq!(result, "v3.2.0-rc1+build.456 (pre: rc1, build: build.456)");
}

#[test]
fn version_with_only_major() {
    let template = "$majorVersion.$minorVersion.$patchVersion";
    let result = substitute(template, "3");
    assert_eq!(result, "3..");
}

#[test]
fn version_with_two_parts() {
    let template = "$majorVersion-$minorVersion-$patchVersion";
    let result = substitute(template, "3.1");
    assert_eq!(result, "3-1-");
}

#[test]
fn no_variables_passthrough() {
    let template = "https://example.com/download/latest.exe";
    let result = substitute(template, "1.0.0");
    assert_eq!(result, "https://example.com/download/latest.exe");
}

#[test]
fn template_resolution_with_complex_variables() {
    let template = "https://example.com/$majorVersion/$minorVersion/app-$underscoreVersion.msi";
    let url = substitute(template, "4.2.1");
    assert_eq!(url, "https://example.com/4/2/app-4_2_1.msi");
}

#[test]
fn template_resolution_pre_release() {
    let template = "https://example.com/v$version/app-setup.exe";
    let url = substitute(template, "3.2.0-rc1");
    assert_eq!(url, "https://example.com/v3.2.0-rc1/app-setup.exe");
}

#[test]
fn template_version_variable_is_whole_version() {
    for v in ["3.1.2", "v2.0", "1.0.0-beta+exp.sha.5114f85", ""] {
        assert_eq!(substitute("$version", v), v);
    }
}

#[test]
fn template_clean_drops_prefix_and_suffixes() {
    assert_eq!(substitute("$cleanVersion|$buildVersion", "v10.20.30-alpha+b1"), "102030|b1");
}
