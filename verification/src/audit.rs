//! The audit of one package (version discovery, download URL, install method,
//! version precision) and the report over all audited packages.
use vstd::prelude::*;
use crate::audit_types::{
    install_method_of, CheckStatus, FileType, InstallMethodCheck, MatchResult,
    PackageValidationResult, PrecisionCheck, ResultStatus, UrlCheck, VersionCheck,
};
use crate::file_type::{detect_file_type, detect_spec, has_installer_like_entry, has_plain_installer_entry, zip_contains_installer};
use crate::manifest::{pairs_view, Manifest};
use crate::outside_text::opt_view;
use crate::precision::{check_precision, is_precision_check};
use crate::providers::{check_error_text, CheckError, CheckOutcome, CheckResult};
use crate::sharpcap::{resolve, resolved_by};
use crate::template::{substitute, substituted};
use crate::text::{str_equals, string_from_str};
use crate::url_probe::{is_skipped_check, skipped_result, UrlValidationResult};

verus! {

/// The provider a manifest's versions are checked with; `none` without a
/// `[checkver]` section.
pub open spec fn provider_text(m: Manifest) -> Seq<char> {
    match m.checkver {
        Some(cv) => cv.provider@,
        None => "none"@,
    }
}

/// The autoupdate URL template of a manifest, if it has one.
pub open spec fn autoupdate_url_of(m: Manifest) -> Option<Seq<char>> {
    match m.checkver {
        Some(cv) => match cv.autoupdate {
            Some(au) => opt_view(au.url),
            None => None,
        },
        None => None,
    }
}

fn provider_name(m: &Manifest) -> (r: String)
    ensures
        r@ == provider_text(*m),
{
    match &m.checkver {
        Some(cv) => string_from_str(cv.provider.as_str()),
        None => string_from_str("none"),
    }
}

/// The version check made of a provider's outcome, and the result it found.
pub open spec fn is_version_check(vc: VersionCheck, found: Option<CheckResult>, outcome: Result<CheckOutcome, CheckError>) -> bool {
    match outcome {
        Ok(CheckOutcome::Found(res)) => {
            &&& vc.status == CheckStatus::Pass
            &&& opt_view(vc.version) == Some(res.version@)
            &&& vc.error is None
            &&& found == Some(res)
        },
        Ok(CheckOutcome::Skipped { reason }) => {
            &&& vc.status == CheckStatus::Skip
            &&& vc.version is None
            &&& opt_view(vc.error) == Some(reason@)
            &&& found is None
        },
        Err(e) => {
            &&& vc.status == CheckStatus::Fail
            &&& vc.version is None
            &&& opt_view(vc.error) == Some(check_error_text(e))
            &&& found is None
        },
    }
}

/// Turns a provider's outcome into the version check of the audit: found
/// passes with the version, skipped is skipped with the reason, an error fails
/// with its message.
pub fn version_check_of(outcome: Result<CheckOutcome, CheckError>) -> (r: (VersionCheck, Option<CheckResult>))
    ensures
        is_version_check(r.0, r.1, outcome),
{
    match outcome {
        Ok(CheckOutcome::Found(result)) => {
            let version = string_from_str(result.version.as_str());
            (VersionCheck { status: CheckStatus::Pass, version: Some(version), error: None }, Some(result))
        },
        Ok(CheckOutcome::Skipped { reason }) => {
            (VersionCheck { status: CheckStatus::Skip, version: None, error: Some(reason) }, None)
        },
        Err(e) => {
            let message = e.message();
            (VersionCheck { status: CheckStatus::Fail, version: None, error: Some(message) }, None)
        },
    }
}

/// An install method check that was not made, with the given match result.
pub open spec fn is_unchecked_install(c: InstallMethodCheck, m: Manifest, result: MatchResult) -> bool {
    &&& c.status == CheckStatus::Skip
    &&& c.declared_method@ == m.install.method@
    &&& c.declared_zip_wrapped == m.install.zip_wrapped
    &&& c.detected_file_type is None
    &&& c.detected_method is None
    &&& !c.detected_zip_wrapped
    &&& c.match_result == result
}

fn unchecked_install(m: &Manifest, result: MatchResult) -> (c: InstallMethodCheck)
    ensures
        is_unchecked_install(c, *m, result),
{
    InstallMethodCheck {
        status: CheckStatus::Skip,
        declared_method: string_from_str(m.install.method.as_str()),
        declared_zip_wrapped: m.install.zip_wrapped,
        detected_file_type: None,
        detected_method: None,
        detected_zip_wrapped: false,
        match_result: result,
    }
}

/// The result of a package whose version could not be discovered: it fails,
/// and nothing else is checked.
pub open spec fn is_early_failure(p: PackageValidationResult, m: Manifest, provider: Seq<char>, vc: VersionCheck) -> bool {
    &&& p.id@ == m.id@
    &&& p.provider@ == provider
    &&& p.status == ResultStatus::Fail
    &&& p.version_discovery == vc
    &&& is_skipped_check(p.url_reachability, None)
    &&& is_unchecked_install(p.install_method, m, MatchResult::Skipped)
    &&& p.version_precision is None
}

/// The failed result of a package whose version discovery failed.
pub fn fail_early(manifest: &Manifest, provider: &str, version_check: VersionCheck) -> (r: PackageValidationResult)
    ensures
        is_early_failure(r, *manifest, provider@, version_check),
{
    proof {
        reveal_strlit("");
    }
    let url = skipped_result("");
    PackageValidationResult {
        id: string_from_str(manifest.id.as_str()),
        provider: string_from_str(provider),
        status: ResultStatus::Fail,
        version_discovery: version_check,
        url_reachability: url.check,
        install_method: unchecked_install(manifest, MatchResult::Skipped),
        version_precision: None,
    }
}

/// A URL, or the fallback URL, or nothing (empty).
pub open spec fn url_or(first: Option<Seq<char>>, fallback: Option<Seq<char>>) -> Seq<char> {
    match first {
        Some(u) => u,
        None => match fallback {
            Some(u) => u,
            None => Seq::empty(),
        },
    }
}

/// The download URL of a found version: the provider's URL when it listed
/// assets; otherwise what the autoupdate resolver gives (whatever it drew at
/// random), or the autoupdate template filled with the version, falling back
/// to the provider's URL; empty when there is none.
pub open spec fn is_download_url(m: Manifest, version: Seq<char>, found_url: Option<Seq<char>>, has_assets: bool, r: Seq<char>) -> bool {
    if has_assets {
        r == url_or(None, found_url)
    } else {
        match m.checkver {
            Some(cv) => match cv.autoupdate {
                Some(au) => match au.resolver {
                    Some(name) => exists|x: Option<Seq<char>>|
                        #![trigger url_or(x, found_url)]
                        resolved_by(
                            name@,
                            version,
                            vstd::utf8::encode_utf8(version),
                            pairs_view(au.resolver_args@),
                            x,
                        ) && r == url_or(x, found_url),
                    None => match au.url {
                        Some(t) => r == substituted(t@, version),
                        None => r == url_or(None, found_url),
                    },
                },
                None => r == url_or(None, found_url),
            },
            None => r == url_or(None, found_url),
        }
    }
}

fn url_or_found(first: Option<String>, found: &Option<String>) -> (r: String)
    ensures
        r@ == url_or(opt_view(first), opt_view(*found)),
{
    match first {
        Some(u) => u,
        None => match found {
            Some(u) => string_from_str(u.as_str()),
            None => String::new(),
        },
    }
}

/// Resolve the download URL of a found version (see [`is_download_url`]).
pub fn resolve_download_url(manifest: &Manifest, version: &str, cr: &CheckResult) -> (r: String)
    ensures
        is_download_url(*manifest, version@, opt_view(cr.url), cr.assets@.len() > 0, r@),
{
    if cr.assets.len() > 0 {
        return url_or_found(None, &cr.url);
    }
    match &manifest.checkver {
        Some(cv) => match &cv.autoupdate {
            Some(au) => match &au.resolver {
                Some(name) => {
                    let x = resolve(name.as_str(), version, &au.resolver_args);
                    let r = url_or_found(x, &cr.url);
                    proof {
                        assert(url_or(opt_view(x), opt_view(cr.url)) == r@);
                    }
                    r
                },
                None => match &au.url {
                    Some(t) => substitute(t.as_str(), version),
                    None => url_or_found(None, &cr.url),
                },
            },
            None => url_or_found(None, &cr.url),
        },
        None => url_or_found(None, &cr.url),
    }
}

/// The install method detected for a file type, given whether a ZIP archive
/// holds an installer: a ZIP counts as `exe` with one and `download_only`
/// without; any other type as its own method.
pub open spec fn detected_method_of(t: FileType, zip_has_installer: bool) -> Seq<char> {
    if t == FileType::Zip {
        if zip_has_installer {
            "exe"@
        } else {
            "download_only"@
        }
    } else {
        install_method_of(t)
    }
}

/// Whether a detected method satisfies the declared one: the same, or a plain
/// `exe` for an Inno Setup, NSIS or exe declaration.
pub open spec fn method_accepts(declared: Seq<char>, detected: Seq<char>) -> bool {
    detected == declared || (detected == "exe"@ && (declared == "inno_setup"@ || declared == "nsis"@
        || declared == "exe"@))
}

/// Whether the detection agrees with the declaration, method and ZIP wrapping alike.
pub open spec fn install_agrees(m: Manifest, t: FileType, zip_has_installer: bool) -> bool {
    method_accepts(m.install.method@, detected_method_of(t, zip_has_installer)) && (t
        == FileType::Zip) == m.install.zip_wrapped
}

/// The install method check of a detected file type.
pub open spec fn is_install_verdict(c: InstallMethodCheck, m: Manifest, t: FileType, zip_has_installer: bool) -> bool {
    let ok = install_agrees(m, t, zip_has_installer);
    &&& c.status == (if ok {
        CheckStatus::Pass
    } else {
        CheckStatus::Fail
    })
    &&& c.declared_method@ == m.install.method@
    &&& c.declared_zip_wrapped == m.install.zip_wrapped
    &&& c.detected_file_type == Some(t)
    &&& opt_view(c.detected_method) == Some(detected_method_of(t, zip_has_installer))
    &&& c.detected_zip_wrapped == (t == FileType::Zip)
    &&& c.match_result == (if ok {
        MatchResult::Match
    } else {
        MatchResult::Mismatch
    })
}

/// Compares a detected file type (and, for a ZIP, whether it holds an
/// installer) with the manifest's declared install method.
pub fn install_method_verdict(manifest: &Manifest, file_type: FileType, zip_has_installer: bool) -> (r: InstallMethodCheck)
    ensures
        is_install_verdict(r, *manifest, file_type, zip_has_installer),
{
    let is_zip = file_type.is_zip();
    let detected: String = if is_zip {
        if zip_has_installer {
            string_from_str("exe")
        } else {
            string_from_str("download_only")
        }
    } else {
        string_from_str(file_type.as_install_method())
    };
    let declared = manifest.install.method.as_str();
    let method_ok = str_equals(detected.as_str(), declared) || (str_equals(detected.as_str(), "exe")
        && (str_equals(declared, "inno_setup") || str_equals(declared, "nsis") || str_equals(
        declared,
        "exe",
    )));
    let zip_ok = is_zip == manifest.install.zip_wrapped;
    let ok = method_ok && zip_ok;
    InstallMethodCheck {
        status: if ok {
            CheckStatus::Pass
        } else {
            CheckStatus::Fail
        },
        declared_method: string_from_str(declared),
        declared_zip_wrapped: manifest.install.zip_wrapped,
        detected_file_type: Some(file_type),
        detected_method: Some(detected),
        detected_zip_wrapped: is_zip,
        match_result: if ok {
            MatchResult::Match
        } else {
            MatchResult::Mismatch
        },
    }
}

/// The install method check of downloaded bytes: not made for a manual
/// package or when nothing was downloaded (detection failed then); otherwise
/// the verdict on the detected file type, where a ZIP is taken to hold an
/// installer whenever one of its entries plainly ends in `.exe` or `.msi`,
/// and only if the final name component of one of its entries has such an
/// extension; no other file is taken to hold one.
pub open spec fn is_install_check(c: InstallMethodCheck, m: Manifest, bytes: Seq<u8>, is_manual: bool) -> bool {
    if is_manual || bytes.len() == 0 {
        is_unchecked_install(
            c,
            m,
            if bytes.len() == 0 && !is_manual {
                MatchResult::DetectionFailed
            } else {
                MatchResult::Skipped
            },
        )
    } else {
        exists|has: bool|
            #![trigger detected_method_of(detect_spec(bytes), has)]
            (has ==> detect_spec(bytes) == FileType::Zip && has_installer_like_entry(bytes))
                && (detect_spec(bytes) == FileType::Zip && has_plain_installer_entry(bytes) ==> has)
                && is_install_verdict(c, m, detect_spec(bytes), has)
    }
}

/// Detects the type of the downloaded bytes and checks it against the
/// manifest's declared install method.
pub fn check_install_method(manifest: &Manifest, bytes: &[u8], is_manual: bool) -> (r: InstallMethodCheck)
    ensures
        is_install_check(r, *manifest, bytes@, is_manual),
{
    if is_manual || bytes.len() == 0 {
        let result = if bytes.len() == 0 && !is_manual {
            MatchResult::DetectionFailed
        } else {
            MatchResult::Skipped
        };
        return unchecked_install(manifest, result);
    }
    let file_type = detect_file_type(bytes);
    let has = if file_type.is_zip() {
        zip_contains_installer(bytes)
    } else {
        false
    };
    let r = install_method_verdict(manifest, file_type, has);
    proof {
        assert(detected_method_of(detect_spec(bytes@), has) == detected_method_of(file_type, has));
    }
    r
}

/// The template a found version's URL is compared with: none when the
/// provider listed assets, else the autoupdate URL.
pub open spec fn precision_template(m: Manifest, cr: CheckResult) -> Option<Seq<char>> {
    if cr.assets@.len() > 0 {
        None
    } else {
        autoupdate_url_of(m)
    }
}

/// The precision check of a found version against its resolved URL.
pub fn precision_of(manifest: &Manifest, cr: &CheckResult, resolved_url: &str) -> (r: PrecisionCheck)
    ensures
        is_precision_check(r, resolved_url@, cr.version@, precision_template(*manifest, *cr)),
{
    let template: Option<&str> = if cr.assets.len() > 0 {
        None
    } else {
        match &manifest.checkver {
            Some(cv) => match &cv.autoupdate {
                Some(au) => match &au.url {
                    Some(u) => Some(u.as_str()),
                    None => None,
                },
                None => None,
            },
            None => None,
        }
    };
    check_precision(resolved_url, cr.version.as_str(), template)
}

/// The overall status of a package: failed if any check failed, else skipped
/// if version discovery was skipped, else passed.
pub open spec fn overall_status(version: CheckStatus, url: CheckStatus, install: CheckStatus, precision: Option<CheckStatus>) -> ResultStatus {
    if version == CheckStatus::Fail || url == CheckStatus::Fail || install == CheckStatus::Fail
        || precision == Some(CheckStatus::Fail) {
        ResultStatus::Fail
    } else if version == CheckStatus::Skip {
        ResultStatus::Skip
    } else {
        ResultStatus::Pass
    }
}

/// What the audit of a package knows once its version was looked up.
pub struct DiscoveredPackage {
    pub provider: String,
    pub is_manual: bool,
    pub version_check: VersionCheck,
    pub check_result: Option<CheckResult>,
    /// The download URL to validate; empty when there is none.
    pub resolved_url: String,
}

/// The state of an audit after version discovery.
pub open spec fn is_discovered(d: DiscoveredPackage, m: Manifest, outcome: Result<CheckOutcome, CheckError>) -> bool {
    &&& d.provider@ == provider_text(m)
    &&& d.is_manual == (provider_text(m) == "manual"@)
    &&& is_version_check(d.version_check, d.check_result, outcome)
    &&& match d.check_result {
        Some(cr) => is_download_url(m, cr.version@, opt_view(cr.url), cr.assets@.len() > 0, d.resolved_url@),
        None => d.resolved_url@.len() == 0,
    }
}

/// The first part of a package's audit, on the outcome of its version check:
/// a failed discovery ends the audit (except for a manual package); otherwise
/// the download URL is resolved.
pub fn audit_discovery(manifest: &Manifest, outcome: Result<CheckOutcome, CheckError>) -> (r: Result<DiscoveredPackage, PackageValidationResult>)
    ensures
        match r {
            Ok(d) => is_discovered(d, *manifest, outcome) && (outcome is Err ==> d.is_manual),
            Err(p) => outcome is Err && provider_text(*manifest) != "manual"@ && exists|vc: VersionCheck|
                #![trigger is_version_check(vc, None, outcome)]
                is_version_check(vc, None, outcome) && is_early_failure(p, *manifest, provider_text(*manifest), vc),
        },
{
    let provider = provider_name(manifest);
    let is_manual = str_equals(provider.as_str(), "manual");
    let (version_check, check_result) = version_check_of(outcome);
    if version_check.status == CheckStatus::Fail && !is_manual {
        let ghost vc = version_check;
        let p = fail_early(manifest, provider.as_str(), version_check);
        proof {
            assert(is_version_check(vc, None, outcome));
        }
        return Err(p);
    }
    let resolved_url = match &check_result {
        Some(cr) => resolve_download_url(manifest, cr.version.as_str(), cr),
        None => String::new(),
    };
    Ok(DiscoveredPackage { provider, is_manual, version_check, check_result, resolved_url })
}

/// The URL validation result when none is made: validation is skipped, or
/// there is no URL. `None` when the URL is to be validated.
pub fn url_validation_skipped(d: &DiscoveredPackage, skip_url_validation: bool) -> (r: Option<UrlValidationResult>)
    ensures
        (skip_url_validation || d.resolved_url@.len() == 0) ==> (r matches Some(u) && is_skipped_check(
            u.check,
            if d.resolved_url@.len() == 0 {
                None
            } else {
                Some(d.resolved_url@)
            },
        ) && u.downloaded_bytes@.len() == 0),
        !(skip_url_validation || d.resolved_url@.len() == 0) ==> r is None,
{
    if skip_url_validation || d.resolved_url.as_str().is_empty() {
        Some(skipped_result(d.resolved_url.as_str()))
    } else {
        None
    }
}

/// The status of an optional precision check.
pub open spec fn precision_status(p: Option<PrecisionCheck>) -> Option<CheckStatus> {
    match p {
        Some(c) => Some(c.status),
        None => None,
    }
}

/// The rest of a package's audit, once its URL was validated (or not).
pub open spec fn is_finished_audit(p: PackageValidationResult, m: Manifest, d: DiscoveredPackage, url: UrlValidationResult) -> bool {
    &&& p.id@ == m.id@
    &&& p.provider == d.provider
    &&& p.version_discovery == d.version_check
    &&& p.url_reachability == url.check
    &&& is_install_check(p.install_method, m, url.downloaded_bytes@, d.is_manual)
    &&& match d.check_result {
        Some(cr) => p.version_precision matches Some(pc) && is_precision_check(
            pc,
            d.resolved_url@,
            cr.version@,
            precision_template(m, cr),
        ),
        None => p.version_precision is None,
    }
    &&& p.status == overall_status(
        d.version_check.status,
        url.check.status,
        p.install_method.status,
        precision_status(p.version_precision),
    )
}

/// The last part of a package's audit: install method and version precision,
/// and the overall status.
pub fn audit_finish(manifest: &Manifest, d: DiscoveredPackage, url_result: UrlValidationResult) -> (r: PackageValidationResult)
    ensures
        is_finished_audit(r, *manifest, d, url_result),
{
    let install_method = check_install_method(manifest, url_result.downloaded_bytes.as_slice(), d.is_manual);
    let version_precision = match &d.check_result {
        Some(cr) => Some(precision_of(manifest, cr, d.resolved_url.as_str())),
        None => None,
    };
    let precision_failed = match &version_precision {
        Some(p) => p.status == CheckStatus::Fail,
        None => false,
    };
    let has_failure = d.version_check.status == CheckStatus::Fail || url_result.check.status
        == CheckStatus::Fail || install_method.status == CheckStatus::Fail || precision_failed;
    let status = if has_failure {
        ResultStatus::Fail
    } else if d.version_check.status == CheckStatus::Skip {
        ResultStatus::Skip
    } else {
        ResultStatus::Pass
    };
    PackageValidationResult {
        id: string_from_str(manifest.id.as_str()),
        provider: d.provider,
        status,
        version_discovery: d.version_check,
        url_reachability: url_result.check,
        install_method,
        version_precision,
    }
}

/// A package fails exactly when one of its checks failed, and is skipped only
/// when its version was not looked up and nothing failed.
pub proof fn law_overall_status(version: CheckStatus, url: CheckStatus, install: CheckStatus, precision: Option<CheckStatus>)
    ensures
        (overall_status(version, url, install, precision) == ResultStatus::Fail) == (version
            == CheckStatus::Fail || url == CheckStatus::Fail || install == CheckStatus::Fail
            || precision == Some(CheckStatus::Fail)),
        overall_status(version, url, install, precision) == ResultStatus::Skip ==> version
            == CheckStatus::Skip,
        overall_status(version, url, install, precision) == ResultStatus::Pass ==> version
            == CheckStatus::Pass || version == CheckStatus::Timeout,
{
}

/// A plain executable (a PE that is no ZIP) is accepted, as the method `exe`,
/// for a declaration of `inno_setup`, `nsis` or `exe` that is not ZIP-wrapped,
/// and so is a ZIP holding an installer for such a declaration that is
/// ZIP-wrapped; a plain executable fails a ZIP-wrapped declaration.
pub proof fn law_plain_exe_accepted(c: InstallMethodCheck, m: Manifest, has: bool)
    ensures
        (m.install.method@ == "inno_setup"@ || m.install.method@ == "nsis"@ || m.install.method@ == "exe"@)
            && !m.install.zip_wrapped && is_install_verdict(c, m, FileType::PeExe, has) ==> c.status
            == CheckStatus::Pass && c.match_result == MatchResult::Match && opt_view(c.detected_method)
            == Some("exe"@),
        (m.install.method@ == "inno_setup"@ || m.install.method@ == "nsis"@ || m.install.method@ == "exe"@)
            && m.install.zip_wrapped && is_install_verdict(c, m, FileType::Zip, true) ==> c.status
            == CheckStatus::Pass && c.match_result == MatchResult::Match,
        m.install.zip_wrapped && is_install_verdict(c, m, FileType::PeExe, has) ==> c.status
            == CheckStatus::Fail && c.match_result == MatchResult::Mismatch,
{
}

/// An install check passes exactly when it reports a match.
pub proof fn law_install_pass_is_match(c: InstallMethodCheck, m: Manifest, t: FileType, has: bool)
    requires
        is_install_verdict(c, m, t, has),
    ensures
        (c.status == CheckStatus::Pass) == (c.match_result == MatchResult::Match),
        c.status == CheckStatus::Pass || c.status == CheckStatus::Fail,
{
}

} // verus!
