//! Calls into `semver`, `lenient_semver` and `regex`, with what their results are named.
use vstd::prelude::*;
use crate::version::SemVer;

verus! {

/// What `semver::Version::parse` yields for a text: its major, minor and patch
/// numbers and the text of its pre-release and build parts, or `None` when it
/// rejects the text.
pub uninterp spec fn semver_parse_result(text: Seq<char>) -> Option<(u64, u64, u64, Seq<char>, Seq<char>)>;

/// What `lenient_semver::parse` yields for a text: the parts of the version, or
/// the display text of its error.
pub uninterp spec fn lenient_parse_result(text: Seq<char>) -> Result<(u64, u64, u64, Seq<char>, Seq<char>), Seq<char>>;

/// What `regex::Regex::new(pattern)` yields: the display text of its error,
/// or `None` when the pattern compiles.
pub uninterp spec fn regex_compile_error(pattern: Seq<char>) -> Option<Seq<char>>;

/// What `captures(text)` yields on the regex compiled from `pattern`: no match,
/// or every group of the leftmost match in order (group 0 is the whole
/// match), `None` for a group that did not take part.
pub uninterp spec fn regex_match_groups(pattern: Seq<char>, text: Seq<char>) -> Option<Seq<Option<Seq<char>>>>;

/// What compiling `pattern` and capturing in `text` yields together.
pub open spec fn regex_captures_result(pattern: Seq<char>, text: Seq<char>) -> Result<Option<Seq<Option<Seq<char>>>>, Seq<char>> {
    match regex_compile_error(pattern) {
        Some(e) => Err(e),
        None => Ok(regex_match_groups(pattern, text)),
    }
}

/// The view of an optional string.
pub open spec fn opt_view(o: Option<String>) -> Option<Seq<char>> {
    match o {
        Some(s) => Some(s@),
        None => None,
    }
}

/// The views of a list of optional strings.
pub open spec fn groups_view(v: Seq<Option<String>>) -> Seq<Option<Seq<char>>> {
    v.map_values(|o: Option<String>| opt_view(o))
}

/// Calls `semver::Version::parse`; the result's fields are those of the parsed version.
#[verifier::external_body]
pub(crate) fn semver_strict_parse(text: &str) -> (r: Option<SemVer>)
    ensures
        match r {
            Some(v) => semver_parse_result(text@) == Some(v@),
            None => semver_parse_result(text@) is None,
        },
{
    match semver::Version::parse(text) {
        Ok(v) => Some(SemVer {
            major: v.major,
            minor: v.minor,
            patch: v.patch,
            pre: v.pre.as_str().to_string(),
            build: v.build.as_str().to_string(),
        }),
        Err(_) => None,
    }
}

/// Calls `lenient_semver::parse`; on failure the error is rendered with `Display`.
#[verifier::external_body]
pub(crate) fn semver_lenient_parse(text: &str) -> (r: Result<SemVer, String>)
    ensures
        match r {
            Ok(v) => lenient_parse_result(text@) == Ok::<_, Seq<char>>(v@),
            Err(e) => lenient_parse_result(text@) == Err::<(u64, u64, u64, Seq<char>, Seq<char>), _>(e@),
        },
{
    match lenient_semver::parse(text) {
        Ok(v) => Ok(SemVer {
            major: v.major,
            minor: v.minor,
            patch: v.patch,
            pre: v.pre.as_str().to_string(),
            build: v.build.as_str().to_string(),
        }),
        Err(e) => Err(format!("{}", e.owned())),
    }
}

/// Compiles `pattern` with `regex::Regex::new`; the display text of the error, if any.
#[verifier::external_body]
pub(crate) fn regex_check(pattern: &str) -> (r: Option<String>)
    ensures
        opt_view(r) == regex_compile_error(pattern@),
{
    match regex::Regex::new(pattern) {
        Ok(_) => None,
        Err(e) => Some(e.to_string()),
    }
}

/// Compiles `pattern` with `regex::Regex::new` and runs `captures` on `text`.
#[verifier::external_body]
pub(crate) fn regex_captures(pattern: &str, text: &str) -> (r: Result<Option<Vec<Option<String>>>, String>)
    ensures
        match r {
            Ok(Some(groups)) => regex_compile_error(pattern@) is None && regex_match_groups(pattern@, text@) == Some(groups_view(groups@)),
            Ok(None) => regex_compile_error(pattern@) is None && regex_match_groups(pattern@, text@) is None,
            Err(e) => regex_compile_error(pattern@) == Some(e@),
        },
{
    match regex::Regex::new(pattern) {
        Ok(re) => Ok(re.captures(text).map(|caps| caps.iter().map(|m| m.map(|m| m.as_str().to_string())).collect())),
        Err(e) => Err(e.to_string()),
    }
}

} // verus!
