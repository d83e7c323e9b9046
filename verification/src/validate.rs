//! Manifest validation and default installer switches.
use vstd::prelude::*;
use crate::manifest::{pairs_view, distinct_names, Install, Manifest};
use crate::text::{concat2, concat3, has_prefix, starts_with_str, str_equals, string_from_str};
use crate::numeric::{decimal, push_decimal};

verus! {

/// A problem found in a manifest, naming the file it was read from.
#[derive(Debug, Clone)]
pub enum ValidationError {
    UnsupportedVersion { file: String, version: u32 },
    MissingField { file: String, field: String },
    UnknownInstallMethod { file: String, method: String },
    UnknownProvider { file: String, provider: String },
    InvalidUrl { file: String, field: String, url: String },
}

/// A validation error as plain values.
pub enum ValidationErrorView {
    UnsupportedVersion { file: Seq<char>, version: u32 },
    MissingField { file: Seq<char>, field: Seq<char> },
    UnknownInstallMethod { file: Seq<char>, method: Seq<char> },
    UnknownProvider { file: Seq<char>, provider: Seq<char> },
    InvalidUrl { file: Seq<char>, field: Seq<char>, url: Seq<char> },
}

impl View for ValidationError {
    type V = ValidationErrorView;

    open spec fn view(&self) -> ValidationErrorView {
        match self {
            ValidationError::UnsupportedVersion { file, version } => ValidationErrorView::UnsupportedVersion {
                file: file@,
                version: *version,
            },
            ValidationError::MissingField { file, field } => ValidationErrorView::MissingField {
                file: file@,
                field: field@,
            },
            ValidationError::UnknownInstallMethod { file, method } => ValidationErrorView::UnknownInstallMethod {
                file: file@,
                method: method@,
            },
            ValidationError::UnknownProvider { file, provider } => ValidationErrorView::UnknownProvider {
                file: file@,
                provider: provider@,
            },
            ValidationError::InvalidUrl { file, field, url } => ValidationErrorView::InvalidUrl {
                file: file@,
                field: field@,
                url: url@,
            },
        }
    }
}

/// The display text of a validation error.
pub open spec fn validation_error_text(e: ValidationErrorView) -> Seq<char> {
    match e {
        ValidationErrorView::UnsupportedVersion { file, version } => file
            + ": unsupported manifest_version "@ + decimal(version as nat) + " (supported: [1])"@,
        ValidationErrorView::MissingField { file, field } => file + ": missing required field '"@
            + field + "'"@,
        ValidationErrorView::UnknownInstallMethod { file, method } => file
            + ": unknown install method '"@ + method + "'"@,
        ValidationErrorView::UnknownProvider { file, provider } => file
            + ": unknown checkver provider '"@ + provider + "'"@,
        ValidationErrorView::InvalidUrl { file, field, url } => file + ": invalid URL in field '"@
            + field + "': "@ + url,
    }
}

fn append_str(out: &mut Vec<char>, s: &str)
    ensures
        final(out)@ == old(out)@ + s@,
{
    crate::text::push_str_chars(out, s);
}

impl ValidationError {
    /// The human-readable message of this error.
    pub fn message(&self) -> (r: String)
        ensures
            r@ == validation_error_text(self@),
    {
        let mut out: Vec<char> = Vec::new();
        match self {
            ValidationError::UnsupportedVersion { file, version } => {
                append_str(&mut out, file.as_str());
                append_str(&mut out, ": unsupported manifest_version ");
                push_decimal(&mut out, *version as u64);
                append_str(&mut out, " (supported: [1])");
            },
            ValidationError::MissingField { file, field } => {
                append_str(&mut out, file.as_str());
                append_str(&mut out, ": missing required field '");
                append_str(&mut out, field.as_str());
                append_str(&mut out, "'");
            },
            ValidationError::UnknownInstallMethod { file, method } => {
                append_str(&mut out, file.as_str());
                append_str(&mut out, ": unknown install method '");
                append_str(&mut out, method.as_str());
                append_str(&mut out, "'");
            },
            ValidationError::UnknownProvider { file, provider } => {
                append_str(&mut out, file.as_str());
                append_str(&mut out, ": unknown checkver provider '");
                append_str(&mut out, provider.as_str());
                append_str(&mut out, "'");
            },
            ValidationError::InvalidUrl { file, field, url } => {
                append_str(&mut out, file.as_str());
                append_str(&mut out, ": invalid URL in field '");
                append_str(&mut out, field.as_str());
                append_str(&mut out, "': ");
                append_str(&mut out, url.as_str());
            },
        }
        proof {
            assert(out@ =~= validation_error_text(self@));
        }
        crate::text::string_from_chars(out.as_slice())
    }
}

/// The install methods a manifest may declare.
pub open spec fn known_install_methods() -> Seq<Seq<char>> {
    seq!["inno_setup"@, "msi"@, "nsis"@, "zip_wrap"@, "download_only"@, "exe"@]
}

/// The version check providers a manifest may declare.
pub open spec fn known_providers() -> Seq<Seq<char>> {
    seq![
        "github"@,
        "gitlab"@,
        "direct_url"@,
        "http_head"@,
        "html_scrape"@,
        "browser_scrape"@,
        "pe_download"@,
        "redirect"@,
        "manual"@,
    ]
}

/// Whether a URL is an absolute `http` or `https` URL.
pub open spec fn valid_url(url: Seq<char>) -> bool {
    has_prefix(url, "http://"@) || has_prefix(url, "https://"@)
}

/// The default silent switches for an installer type.
pub open spec fn default_switches_spec(method: Seq<char>) -> Seq<(Seq<char>, Seq<char>)> {
    if method == "inno_setup"@ {
        seq![("silent"@, "/VERYSILENT /NORESTART /SUPPRESSMSGBOXES"@)]
    } else if method == "msi"@ {
        seq![("silent"@, "/qn /norestart"@)]
    } else if method == "nsis"@ {
        seq![("silent"@, "/S"@)]
    } else {
        Seq::empty()
    }
}

/// The switches after defaults are applied: the defaults for the method when
/// none were given, otherwise the given ones.
pub open spec fn with_default_switches(switches: Seq<(Seq<char>, Seq<char>)>, method: Seq<char>) -> Seq<(Seq<char>, Seq<char>)> {
    if switches.len() == 0 {
        default_switches_spec(method)
    } else {
        switches
    }
}

/// Default silent install switches per installer type, as `(name, value)`
/// pairs (the form `Install::switches` takes).
pub fn default_switches(method: &str) -> (r: Vec<(String, String)>)
    ensures
        pairs_view(r@) == default_switches_spec(method@),
{
    let mut r: Vec<(String, String)> = Vec::new();
    if str_equals(method, "inno_setup") {
        r.push((string_from_str("silent"), string_from_str("/VERYSILENT /NORESTART /SUPPRESSMSGBOXES")));
    } else if str_equals(method, "msi") {
        r.push((string_from_str("silent"), string_from_str("/qn /norestart")));
    } else if str_equals(method, "nsis") {
        r.push((string_from_str("silent"), string_from_str("/S")));
    }
    proof {
        assert(pairs_view(r@) =~= default_switches_spec(method@));
    }
    r
}

/// Apply default switches to an install section if none are specified.
pub fn apply_default_switches(install: &mut Install)
    ensures
        pairs_view(final(install).switches@) == with_default_switches(
            pairs_view(old(install).switches@),
            old(install).method@,
        ),
        final(install).method == old(install).method,
        final(install).zip_wrapped == old(install).zip_wrapped,
        final(install).zip_inner_path == old(install).zip_inner_path,
        final(install).scope == old(install).scope,
        final(install).elevation == old(install).elevation,
        final(install).exit_codes == old(install).exit_codes,
        final(install).success_codes == old(install).success_codes,
{
    if install.switches.len() == 0 {
        install.switches = default_switches(install.method.as_str());
    }
}

/// Applying the defaults a second time changes nothing, and the defaults never
/// name a switch twice.
pub proof fn law_default_switches(switches: Seq<(Seq<char>, Seq<char>)>, method: Seq<char>)
    ensures
        with_default_switches(with_default_switches(switches, method), method) == with_default_switches(switches, method),
        distinct_names(default_switches_spec(method)),
        distinct_names(switches) ==> distinct_names(with_default_switches(switches, method)),
{
}

/// One `MissingField` error when the value is empty, none otherwise.
pub open spec fn missing(value: Seq<char>, field: Seq<char>, file: Seq<char>) -> Seq<ValidationErrorView> {
    if value.len() == 0 {
        seq![ValidationErrorView::MissingField { file, field }]
    } else {
        Seq::empty()
    }
}

/// The errors of the `[checkver]` section.
pub open spec fn checkver_errors(m: Manifest, file: Seq<char>) -> Seq<ValidationErrorView> {
    match m.checkver {
        Some(cv) => {
            let p = if !known_providers().contains(cv.provider@) {
                seq![ValidationErrorView::UnknownProvider { file, provider: cv.provider@ }]
            } else {
                Seq::empty()
            };
            let u = match cv.url {
                Some(url) => if !valid_url(url@) {
                    seq![ValidationErrorView::InvalidUrl { file, field: "checkver.url"@, url: url@ }]
                } else {
                    Seq::empty()
                },
                None => Seq::empty(),
            };
            p + u
        },
        None => Seq::empty(),
    }
}

/// All errors of a manifest, in the order they are reported.
pub open spec fn validation_errors(m: Manifest, file: Seq<char>) -> Seq<ValidationErrorView> {
    let version = if m.manifest_version != 1 {
        seq![ValidationErrorView::UnsupportedVersion { file, version: m.manifest_version }]
    } else {
        Seq::empty()
    };
    let fields = missing(m.id@, "id"@, file) + missing(m.name@, "name"@, file) + missing(
        m.category@,
        "category"@,
        file,
    ) + missing(m.package_type@, "type"@, file) + missing(m.slug@, "slug"@, file);
    let method = if !known_install_methods().contains(m.install.method@) {
        seq![ValidationErrorView::UnknownInstallMethod { file, method: m.install.method@ }]
    } else {
        Seq::empty()
    };
    let homepage = match m.homepage {
        Some(h) => if !valid_url(h@) {
            seq![ValidationErrorView::InvalidUrl { file, field: "homepage"@, url: h@ }]
        } else {
            Seq::empty()
        },
        None => Seq::empty(),
    };
    version + fields + method + checkver_errors(m, file) + homepage
}

/// Whether a manifest satisfies every rule that validation checks.
pub open spec fn manifest_is_valid(m: Manifest) -> bool {
    &&& m.manifest_version == 1
    &&& m.id@.len() > 0
    &&& m.name@.len() > 0
    &&& m.category@.len() > 0
    &&& m.package_type@.len() > 0
    &&& m.slug@.len() > 0
    &&& known_install_methods().contains(m.install.method@)
    &&& (m.checkver matches Some(cv) ==> known_providers().contains(cv.provider@) && (cv.url matches Some(u) ==> valid_url(u@)))
    &&& (m.homepage matches Some(h) ==> valid_url(h@))
}

/// A manifest yields no validation error exactly when it satisfies every rule.
pub proof fn law_valid_iff_no_errors(m: Manifest, file: Seq<char>)
    ensures
        (validation_errors(m, file).len() == 0) == manifest_is_valid(m),
{
}

fn is_valid_url(url: &str) -> (r: bool)
    ensures
        r == valid_url(url@),
{
    starts_with_str(url, "http://") || starts_with_str(url, "https://")
}

fn is_known_method(method: &str) -> (r: bool)
    ensures
        r == known_install_methods().contains(method@),
{
    let r = str_equals(method, "inno_setup") || str_equals(method, "msi") || str_equals(method, "nsis")
        || str_equals(method, "zip_wrap") || str_equals(method, "download_only") || str_equals(
        method,
        "exe",
    );
    proof {
        let k = known_install_methods();
        if r {
            if method@ == "inno_setup"@ { assert(k[0] == method@); }
            if method@ == "msi"@ { assert(k[1] == method@); }
            if method@ == "nsis"@ { assert(k[2] == method@); }
            if method@ == "zip_wrap"@ { assert(k[3] == method@); }
            if method@ == "download_only"@ { assert(k[4] == method@); }
            if method@ == "exe"@ { assert(k[5] == method@); }
        } else {
            assert forall|i: int| 0 <= i < k.len() implies k[i] != method@ by {}
        }
    }
    r
}

fn is_known_provider(provider: &str) -> (r: bool)
    ensures
        r == known_providers().contains(provider@),
{
    let r = str_equals(provider, "github") || str_equals(provider, "gitlab") || str_equals(
        provider,
        "direct_url",
    ) || str_equals(provider, "http_head") || str_equals(provider, "html_scrape") || str_equals(
        provider,
        "browser_scrape",
    ) || str_equals(provider, "pe_download") || str_equals(provider, "redirect") || str_equals(
        provider,
        "manual",
    );
    proof {
        let k = known_providers();
        if r {
            if provider@ == "github"@ { assert(k[0] == provider@); }
            if provider@ == "gitlab"@ { assert(k[1] == provider@); }
            if provider@ == "direct_url"@ { assert(k[2] == provider@); }
            if provider@ == "http_head"@ { assert(k[3] == provider@); }
            if provider@ == "html_scrape"@ { assert(k[4] == provider@); }
            if provider@ == "browser_scrape"@ { assert(k[5] == provider@); }
            if provider@ == "pe_download"@ { assert(k[6] == provider@); }
            if provider@ == "redirect"@ { assert(k[7] == provider@); }
            if provider@ == "manual"@ { assert(k[8] == provider@); }
        } else {
            assert forall|i: int| 0 <= i < k.len() implies k[i] != provider@ by {}
        }
    }
    r
}

/// The views of a list of validation errors.
pub open spec fn errors_view(v: Seq<ValidationError>) -> Seq<ValidationErrorView> {
    v.map_values(|e: ValidationError| e@)
}

fn push_missing(errors: &mut Vec<ValidationError>, value: &String, field: &str, file: &str)
    ensures
        errors_view(final(errors)@) == errors_view(old(errors)@) + missing(value@, field@, file@),
{
    let ghost before = errors@;
    if value.as_str().is_empty() {
        errors.push(ValidationError::MissingField { file: string_from_str(file), field: string_from_str(field) });
    }
    proof {
        assert(errors_view(errors@) =~= errors_view(before) + missing(value@, field@, file@));
    }
}

/// Validate a parsed manifest. Returns a list of validation errors.
pub fn validate_manifest(manifest: &Manifest, file: &str) -> (r: Vec<ValidationError>)
    ensures
        errors_view(r@) == validation_errors(*manifest, file@),
{
    let mut errors: Vec<ValidationError> = Vec::new();
    if manifest.manifest_version != 1 {
        errors.push(ValidationError::UnsupportedVersion { file: string_from_str(file), version: manifest.manifest_version });
    }
    let ghost e1 = errors_view(errors@);
    proof {
        let version = if manifest.manifest_version != 1 {
            seq![ValidationErrorView::UnsupportedVersion { file: file@, version: manifest.manifest_version }]
        } else {
            Seq::empty()
        };
        assert(e1 =~= version);
    }
    push_missing(&mut errors, &manifest.id, "id", file);
    push_missing(&mut errors, &manifest.name, "name", file);
    push_missing(&mut errors, &manifest.category, "category", file);
    push_missing(&mut errors, &manifest.package_type, "type", file);
    push_missing(&mut errors, &manifest.slug, "slug", file);
    let ghost e2 = errors_view(errors@);
    if !is_known_method(manifest.install.method.as_str()) {
        errors.push(ValidationError::UnknownInstallMethod { file: string_from_str(file), method: manifest.install.method.clone() });
    }
    let ghost e3 = errors_view(errors@);
    proof {
        let method = if !known_install_methods().contains(manifest.install.method@) {
            seq![ValidationErrorView::UnknownInstallMethod { file: file@, method: manifest.install.method@ }]
        } else {
            Seq::empty()
        };
        assert(e3 =~= e2 + method);
        let fields = missing(manifest.id@, "id"@, file@) + missing(manifest.name@, "name"@, file@) + missing(
            manifest.category@, "category"@, file@) + missing(manifest.package_type@, "type"@, file@) + missing(manifest.slug@, "slug"@, file@);
        assert(e2 =~= e1 + fields);
    }
    if let Some(checkver) = &manifest.checkver {
        if !is_known_provider(checkver.provider.as_str()) {
            errors.push(ValidationError::UnknownProvider { file: string_from_str(file), provider: checkver.provider.clone() });
        }
        if let Some(url) = &checkver.url {
            if !is_valid_url(url.as_str()) {
                errors.push(ValidationError::InvalidUrl { file: string_from_str(file), field: string_from_str("checkver.url"), url: url.clone() });
            }
        }
    }
    let ghost e4 = errors_view(errors@);
    proof {
        assert(e4 =~= e3 + checkver_errors(*manifest, file@));
    }
    if let Some(homepage) = &manifest.homepage {
        if !is_valid_url(homepage.as_str()) {
            errors.push(ValidationError::InvalidUrl { file: string_from_str(file), field: string_from_str("homepage"), url: homepage.clone() });
        }
    }
    proof {
        assert(errors_view(errors@) =~= validation_errors(*manifest, file@));
    }
    errors
}

/// The file an error is about.
pub open spec fn error_file(e: ValidationErrorView) -> Seq<char> {
    match e {
        ValidationErrorView::UnsupportedVersion { file, .. } => file,
        ValidationErrorView::MissingField { file, .. } => file,
        ValidationErrorView::UnknownInstallMethod { file, .. } => file,
        ValidationErrorView::UnknownProvider { file, .. } => file,
        ValidationErrorView::InvalidUrl { file, .. } => file,
    }
}

/// Whether every error of a list is about `file`.
pub open spec fn all_about(errs: Seq<ValidationErrorView>, file: Seq<char>) -> bool {
    forall|j: int| 0 <= j < errs.len() ==> error_file(#[trigger] errs[j]) == file
}

proof fn lemma_all_about_concat(a: Seq<ValidationErrorView>, b: Seq<ValidationErrorView>, file: Seq<char>)
    requires
        all_about(a, file),
        all_about(b, file),
    ensures
        all_about(a + b, file),
{
    assert forall|j: int| 0 <= j < (a + b).len() implies error_file(#[trigger] (a + b)[j]) == file by {
        if j < a.len() {
            assert((a + b)[j] == a[j]);
        } else {
            assert((a + b)[j] == b[j - a.len()]);
        }
    }
}

proof fn lemma_text_starts_with_file(e: ValidationErrorView)
    ensures
        has_prefix(validation_error_text(e), error_file(e)),
{
    let f = error_file(e);
    assert(validation_error_text(e).take(f.len() as int) =~= f);
}

/// Every validation error of a manifest is about its file, and its text
/// starts with the file name.
pub proof fn lemma_errors_name_file(m: Manifest, file: Seq<char>, i: int)
    requires
        0 <= i < validation_errors(m, file).len(),
    ensures
        has_prefix(validation_error_text(validation_errors(m, file)[i]), file),
{
    let version: Seq<ValidationErrorView> = if m.manifest_version != 1 {
        seq![ValidationErrorView::UnsupportedVersion { file, version: m.manifest_version }]
    } else {
        Seq::empty()
    };
    let f1 = missing(m.id@, "id"@, file);
    let f2 = missing(m.name@, "name"@, file);
    let f3 = missing(m.category@, "category"@, file);
    let f4 = missing(m.package_type@, "type"@, file);
    let f5 = missing(m.slug@, "slug"@, file);
    let method: Seq<ValidationErrorView> = if !known_install_methods().contains(m.install.method@) {
        seq![ValidationErrorView::UnknownInstallMethod { file, method: m.install.method@ }]
    } else {
        Seq::empty()
    };
    let homepage: Seq<ValidationErrorView> = match m.homepage {
        Some(h) => if !valid_url(h@) {
            seq![ValidationErrorView::InvalidUrl { file, field: "homepage"@, url: h@ }]
        } else {
            Seq::empty()
        },
        None => Seq::empty(),
    };
    let cv = checkver_errors(m, file);
    assert(all_about(version, file));
    assert(all_about(f1, file));
    assert(all_about(f2, file));
    assert(all_about(f3, file));
    assert(all_about(f4, file));
    assert(all_about(f5, file));
    assert(all_about(method, file));
    assert(all_about(homepage, file));
    match m.checkver {
        Some(c) => {
            let p: Seq<ValidationErrorView> = if !known_providers().contains(c.provider@) {
                seq![ValidationErrorView::UnknownProvider { file, provider: c.provider@ }]
            } else {
                Seq::empty()
            };
            let u: Seq<ValidationErrorView> = match c.url {
                Some(url) => if !valid_url(url@) {
                    seq![ValidationErrorView::InvalidUrl { file, field: "checkver.url"@, url: url@ }]
                } else {
                    Seq::empty()
                },
                None => Seq::empty(),
            };
            assert(all_about(p, file));
            assert(all_about(u, file));
            lemma_all_about_concat(p, u, file);
            assert(cv == p + u);
        },
        None => {
            assert(all_about(cv, file));
        },
    }
    lemma_all_about_concat(f1, f2, file);
    lemma_all_about_concat(f1 + f2, f3, file);
    lemma_all_about_concat(f1 + f2 + f3, f4, file);
    lemma_all_about_concat(f1 + f2 + f3 + f4, f5, file);
    let fields = f1 + f2 + f3 + f4 + f5;
    lemma_all_about_concat(version, fields, file);
    lemma_all_about_concat(version + fields, method, file);
    lemma_all_about_concat(version + fields + method, cv, file);
    lemma_all_about_concat(version + fields + method + cv, homepage, file);
    let errs = validation_errors(m, file);
    assert(errs == version + fields + method + cv + homepage);
    assert(error_file(errs[i]) == file);
    lemma_text_starts_with_file(errs[i]);
}

} // verus!
