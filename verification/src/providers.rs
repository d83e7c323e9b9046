//! Version check providers: results, errors, and what each provider makes of
//! the responses it fetched.
use vstd::prelude::*;
use crate::manifest::{Checkver, Manifest};
use crate::outside_text::{opt_view, regex_captures, regex_compile_error, regex_match_groups};
use crate::text::{concat2, concat3, str_equals, string_from_str};

verus! {

/// What a provider found.
#[derive(Debug)]
pub struct CheckResult {
    pub version: String,
    pub url: Option<String>,
    pub sha256: Option<String>,
    pub release_notes_url: Option<String>,
    pub pre_release: bool,
    /// All release assets matching the manifest's `asset_filter`.
    pub assets: Vec<ReleaseAsset>,
}

impl Default for CheckResult {
    fn default() -> (r: Self)
        ensures
            r.version@ == Seq::<char>::empty(),
            r.url is None,
            r.sha256 is None,
            r.release_notes_url is None,
            !r.pre_release,
            r.assets@.len() == 0,
    {
        CheckResult {
            version: String::new(),
            url: None,
            sha256: None,
            release_notes_url: None,
            pre_release: false,
            assets: Vec::new(),
        }
    }
}

/// A downloadable asset of a release.
#[derive(Debug, Clone)]
pub struct ReleaseAsset {
    pub name: String,
    pub url: String,
    pub size: u64,
}

/// The outcome of a version check.
#[derive(Debug)]
pub enum CheckOutcome {
    Found(CheckResult),
    Skipped { reason: String },
}

/// Why a version check failed.
#[derive(Debug)]
pub enum CheckError {
    /// A request failed; the request error's message.
    Reqwest(String),
    RateLimited { retry_after: Option<String> },
    NoMatch,
    MissingConfig(String),
    Browser(String),
    PeParse(String),
    Other(String),
}

/// The `Debug` text of an optional string, as std writes it.
pub uninterp spec fn debug_text_of(value: Option<Seq<char>>) -> Seq<char>;

/// Renders an optional string with std `Debug` (`None`, or `Some("…")` with
/// the string escaped).
#[verifier::external_body]
pub(crate) fn debug_option_string(value: &Option<String>) -> (r: String)
    ensures
        r@ == debug_text_of(opt_view(*value)),
{
    format!("{:?}", value)
}

/// The display text of a check error.
pub open spec fn check_error_text(e: CheckError) -> Seq<char> {
    match e {
        CheckError::Reqwest(m) => "reqwest error: "@ + m@,
        CheckError::RateLimited { retry_after } => "rate limited (retry-after: "@ + debug_text_of(
            opt_view(retry_after),
        ) + ")"@,
        CheckError::NoMatch => "no version match found in response"@,
        CheckError::MissingConfig(m) => "provider not configured: missing "@ + m@,
        CheckError::Browser(m) => "browser scrape error: "@ + m@,
        CheckError::PeParse(m) => "PE parse error: "@ + m@,
        CheckError::Other(m) => m@,
    }
}

impl CheckError {
    /// The human-readable message of this error.
    pub fn message(&self) -> (r: String)
        ensures
            r@ == check_error_text(*self),
    {
        match self {
            CheckError::Reqwest(m) => concat2("reqwest error: ", m.as_str()),
            CheckError::RateLimited { retry_after } => {
                let d = debug_option_string(retry_after);
                concat3("rate limited (retry-after: ", d.as_str(), ")")
            },
            CheckError::NoMatch => string_from_str("no version match found in response"),
            CheckError::MissingConfig(m) => concat2("provider not configured: missing ", m.as_str()),
            CheckError::Browser(m) => concat2("browser scrape error: ", m.as_str()),
            CheckError::PeParse(m) => concat2("PE parse error: ", m.as_str()),
            CheckError::Other(m) => string_from_str(m.as_str()),
        }
    }
}

/// Check an HTTP response for rate limiting (429) and return a `RateLimited`
/// error, carrying the `retry-after` header, if detected.
pub fn check_rate_limit(status: u16, retry_after: Option<String>) -> (r: Result<(), CheckError>)
    ensures
        status == 429 ==> (r matches Err(CheckError::RateLimited { retry_after: ra }) && ra == retry_after),
        status != 429 ==> r is Ok,
{
    if status == 429 {
        return Err(CheckError::RateLimited { retry_after });
    }
    Ok(())
}

/// A found result carrying only a version.
pub open spec fn found_version_only(o: CheckOutcome, version: Seq<char>) -> bool {
    o matches CheckOutcome::Found(r) && r.version@ == version && r.url is None && r.sha256 is None
        && r.release_notes_url is None && !r.pre_release && r.assets@.len() == 0
}

pub(crate) fn found(version: String, url: Option<String>) -> (r: CheckOutcome)
    ensures
        r matches CheckOutcome::Found(c) && c.version == version && c.url == url && c.sha256 is None
            && c.release_notes_url is None && !c.pre_release && c.assets@.len() == 0,
{
    CheckOutcome::Found(CheckResult {
        version,
        url,
        sha256: None,
        release_notes_url: None,
        pre_release: false,
        assets: Vec::new(),
    })
}

/// The `manual` provider: the check is skipped and no version is discovered;
/// the reason reads "manual: requires human update".
pub fn manual_check(manifest: &Manifest) -> (r: CheckOutcome)
    ensures
        r matches CheckOutcome::Skipped { reason } && reason@ == "manual: requires human update"@,
{
    CheckOutcome::Skipped { reason: string_from_str("manual: requires human update") }
}

/// The `static` provider: reports the fixed `version` of the `[checkver]` section.
pub fn static_check(manifest: &Manifest, checkver: &Checkver) -> (r: Result<CheckOutcome, CheckError>)
    ensures
        match checkver.version {
            Some(v) => r matches Ok(o) && found_version_only(o, v@),
            None => r matches Err(CheckError::Other(m)) && m@ == manifest.id@
                + ": static provider requires a 'version' field in [checkver]"@,
        },
{
    match &checkver.version {
        Some(v) => Ok(found(string_from_str(v.as_str()), None)),
        None => Err(CheckError::Other(concat2(
            manifest.id.as_str(),
            ": static provider requires a 'version' field in [checkver]",
        ))),
    }
}

/// A configuration field a provider needs, or `MissingConfig` naming it.
pub fn required(value: &Option<String>, field: &str) -> (r: Result<String, CheckError>)
    ensures
        match value {
            Some(v) => r matches Ok(s) && s@ == v@,
            None => r matches Err(CheckError::MissingConfig(m)) && m@ == field@,
        },
{
    match value {
        Some(v) => Ok(string_from_str(v.as_str())),
        None => Err(CheckError::MissingConfig(string_from_str(field))),
    }
}

/// The version captured by group 1 of `pattern` in `text`: `Err` with the
/// compile error, or `Ok(None)` when there is no match or group 1 took no part.
pub open spec fn capture_group_1(pattern: Seq<char>, text: Seq<char>) -> Result<Option<Seq<char>>, Seq<char>> {
    match regex_compile_error(pattern) {
        Some(e) => Err(e),
        None => match regex_match_groups(pattern, text) {
            Some(groups) => if groups.len() > 1 {
                Ok(groups[1])
            } else {
                Ok(None)
            },
            None => Ok(None),
        },
    }
}

/// Group 1 of the leftmost match of `pattern` in `text`.
pub fn capture_first_group(pattern: &str, text: &str) -> (r: Result<Option<String>, String>)
    ensures
        match r {
            Ok(g) => capture_group_1(pattern@, text@) == Ok::<_, Seq<char>>(opt_view(g)),
            Err(e) => capture_group_1(pattern@, text@) == Err::<Option<Seq<char>>, _>(e@),
        },
{
    match regex_captures(pattern, text) {
        Err(e) => Err(e),
        Ok(None) => Ok(None),
        Ok(Some(groups)) => {
            if groups.len() > 1 {
                match &groups[1] {
                    Some(g) => Ok(Some(string_from_str(g.as_str()))),
                    None => Ok(None),
                }
            } else {
                Ok(None)
            }
        },
    }
}

/// The `direct_url` and body-regex providers: the version is group 1 of the
/// regex in the fetched body.
pub open spec fn body_regex_outcome(body: Seq<char>, pattern: Seq<char>, r: Result<CheckOutcome, CheckError>) -> bool {
    match capture_group_1(pattern, body) {
        Err(e) => r matches Err(CheckError::Other(m)) && m@ == "invalid regex: "@ + e,
        Ok(None) => r matches Err(CheckError::NoMatch),
        Ok(Some(v)) => r matches Ok(o) && found_version_only(o, v),
    }
}

/// The version of a page or response body: group 1 of `regex_pat`.
pub fn version_from_body(body: &str, regex_pat: &str) -> (r: Result<CheckOutcome, CheckError>)
    ensures
        body_regex_outcome(body@, regex_pat@, r),
{
    match capture_first_group(regex_pat, body) {
        Err(e) => Err(CheckError::Other(concat2("invalid regex: ", e.as_str()))),
        Ok(None) => Err(CheckError::NoMatch),
        Ok(Some(v)) => Ok(found(v, None)),
    }
}

} // verus!
