//! Whether a discovered version is precise enough to rebuild its download
//! URL, and whether it has the format the manifest declares.
use vstd::prelude::*;
use vstd::string::StringSliceAdditionalSpecFns;
use crate::audit_types::{CheckStatus, PrecisionCheck};
use crate::outside_text::{
    lenient_parse_result, opt_view, regex_captures, regex_compile_error, regex_match_groups,
    semver_lenient_parse, semver_parse_result, semver_strict_parse,
};
use crate::template::{substitute, substituted};
use crate::text::{chars_of, contains_str, seq_contains_seq, str_equals, string_from_str};

verus! {

/// The pattern of a dotted version number inside a URL.
pub open spec fn url_version_pattern() -> Seq<char> {
    "\\d+\\.\\d+(?:\\.\\d+)*"@
}

/// The first dotted version number in a URL: the leftmost match of
/// [`url_version_pattern`], if the pattern compiles and matches.
pub open spec fn version_in_url(url: Seq<char>) -> Option<Seq<char>> {
    match regex_compile_error(url_version_pattern()) {
        Some(_) => None,
        None => match regex_match_groups(url_version_pattern(), url) {
            Some(groups) => if groups.len() > 0 {
                groups[0]
            } else {
                None
            },
            None => None,
        },
    }
}

/// The first dotted version number (`\d+\.\d+(\.\d+)*`) in a URL.
pub fn extract_version_from_url(url: &str) -> (r: Option<String>)
    ensures
        opt_view(r) == version_in_url(url@),
{
    let pattern = "\\d+\\.\\d+(?:\\.\\d+)*";
    proof {
        reveal_strlit("\\d+\\.\\d+(?:\\.\\d+)*");
    }
    match regex_captures(pattern, url) {
        Ok(Some(groups)) => {
            if groups.len() > 0 {
                match &groups[0] {
                    Some(m) => Some(string_from_str(m.as_str())),
                    None => None,
                }
            } else {
                None
            }
        },
        _ => None,
    }
}

/// Whether a URL template is built from the whole version (`$version`).
pub open spec fn is_templated(template: Option<Seq<char>>) -> bool {
    template matches Some(t) && seq_contains_seq(t, "$version"@)
}

/// The precision check of a resolved URL against the discovered version and
/// the autoupdate URL template it came from, if any.
pub open spec fn is_precision_check(c: PrecisionCheck, url: Seq<char>, version: Seq<char>, template: Option<Seq<char>>) -> bool {
    &&& c.discovered_version@ == version
    &&& if is_templated(template) && url.len() > 0 {
        &&& c.comparison_mode@ == "exact"@
        &&& if substituted(template.unwrap(), version) == url {
            &&& c.status == CheckStatus::Pass
            &&& c.url_contains_version
            &&& opt_view(c.url_version_segment) == Some(version)
        } else {
            &&& c.status == CheckStatus::Fail
            &&& !c.url_contains_version
            &&& opt_view(c.url_version_segment) == version_in_url(url)
        }
    } else {
        &&& c.comparison_mode@ == "normalized"@
        &&& c.status == CheckStatus::Pass
        &&& c.url_contains_version == (url.len() > 0 && seq_contains_seq(url, version))
        &&& c.url_version_segment is None
    }
}

/// Check whether the discovered version has sufficient precision for the resolved URL.
///
/// If the autoupdate template contains `$version` and the resolved URL was built
/// from it, the version must reconstruct the URL exactly: the URL must equal the
/// template with every variable filled in from the version, as `substitute`
/// fills them. Otherwise, normalized comparison applies.
pub fn check_precision(resolved_url: &str, version: &str, template: Option<&str>) -> (r: PrecisionCheck)
    ensures
        is_precision_check(
            r,
            resolved_url@,
            version@,
            match template {
                Some(t) => Some(t@),
                None => None,
            },
        ),
{
    proof {
        reveal_strlit("$version");
    }
    let is_templated = match template {
        Some(t) => contains_str(t, "$version"),
        None => false,
    };
    if is_templated && !resolved_url.is_empty() {
        let tmpl = match template {
            Some(t) => t,
            None => "",
        };
        let expected_url = substitute(tmpl, version);
        if str_equals(resolved_url, expected_url.as_str()) {
            return PrecisionCheck {
                status: CheckStatus::Pass,
                url_contains_version: true,
                url_version_segment: Some(string_from_str(version)),
                discovered_version: string_from_str(version),
                comparison_mode: string_from_str("exact"),
            };
        }
        let url_segment = extract_version_from_url(resolved_url);
        PrecisionCheck {
            status: CheckStatus::Fail,
            url_contains_version: false,
            url_version_segment: url_segment,
            discovered_version: string_from_str(version),
            comparison_mode: string_from_str("exact"),
        }
    } else {
        let url_has_version = !resolved_url.is_empty() && contains_str(resolved_url, version);
        PrecisionCheck {
            status: CheckStatus::Pass,
            url_contains_version: url_has_version,
            url_version_segment: None,
            discovered_version: string_from_str(version),
            comparison_mode: string_from_str("normalized"),
        }
    }
}

/// Whether a character may appear in a date version: a digit, `.` or `-`.
pub open spec fn date_char(c: char) -> bool {
    ('0' <= c && c <= '9') || c == '.' || c == '-'
}

/// The verdict on a version's format: `semver` accepts what the strict or the
/// lenient semver parser accepts; `date` wants digits, dots and dashes, at
/// least six bytes of them; any other format is a regex the version must
/// match, skipped when it does not compile; no format passes.
pub open spec fn format_verdict(version: Seq<char>, byte_len: nat, format: Option<Seq<char>>) -> CheckStatus {
    match format {
        None => CheckStatus::Pass,
        Some(f) => if f == "semver"@ {
            if semver_parse_result(version) is Some || lenient_parse_result(version) is Ok {
                CheckStatus::Pass
            } else {
                CheckStatus::Fail
            }
        } else if f == "date"@ {
            if (forall|i: int| 0 <= i < version.len() ==> date_char(#[trigger] version[i])) && byte_len >= 6 {
                CheckStatus::Pass
            } else {
                CheckStatus::Fail
            }
        } else {
            match regex_compile_error(f) {
                Some(_) => CheckStatus::Skip,
                None => if regex_match_groups(f, version) is Some {
                    CheckStatus::Pass
                } else {
                    CheckStatus::Fail
                },
            }
        },
    }
}

fn all_date_chars(version: &str) -> (r: bool)
    ensures
        r == forall|i: int| 0 <= i < version@.len() ==> date_char(#[trigger] version@[i]),
{
    let v = chars_of(version);
    let mut i: usize = 0;
    while i < v.len()
        invariant
            v@ == version@,
            i <= v@.len(),
            forall|k: int| 0 <= k < i ==> date_char(#[trigger] version@[k]),
        decreases v@.len() - i,
    {
        let c = v[i];
        if !(('0' <= c && c <= '9') || c == '.' || c == '-') {
            return false;
        }
        i = i + 1;
    }
    true
}

/// Validate discovered version against declared `version_format`.
pub fn validate_version_format(version: &str, version_format: Option<&str>) -> (r: CheckStatus)
    ensures
        r == format_verdict(
            version@,
            version.spec_bytes().len(),
            match version_format {
                Some(f) => Some(f@),
                None => None,
            },
        ),
{
    proof {
        reveal_strlit("semver");
        reveal_strlit("date");
    }
    match version_format {
        None => CheckStatus::Pass,
        Some(f) => {
            if str_equals(f, "semver") {
                let strict = semver_strict_parse(version);
                if strict.is_some() {
                    return CheckStatus::Pass;
                }
                match semver_lenient_parse(version) {
                    Ok(_) => CheckStatus::Pass,
                    Err(_) => CheckStatus::Fail,
                }
            } else if str_equals(f, "date") {
                if all_date_chars(version) && version.as_bytes().len() >= 6 {
                    CheckStatus::Pass
                } else {
                    CheckStatus::Fail
                }
            } else {
                match regex_captures(f, version) {
                    Err(_) => CheckStatus::Skip,
                    Ok(Some(_)) => CheckStatus::Pass,
                    Ok(None) => CheckStatus::Fail,
                }
            }
        },
    }
}

/// A URL built from a `$version` template by filling in its variables always
/// passes the exact comparison.
pub proof fn law_template_url_is_exact(template: Seq<char>, version: Seq<char>, c: PrecisionCheck)
    requires
        seq_contains_seq(template, "$version"@),
        substituted(template, version).len() > 0,
        is_precision_check(c, substituted(template, version), version, Some(template)),
    ensures
        c.status == CheckStatus::Pass,
        c.comparison_mode@ == "exact"@,
{
}

/// Without a `$version` template the check never fails.
pub proof fn law_untemplated_never_fails(url: Seq<char>, version: Seq<char>, template: Option<Seq<char>>, c: PrecisionCheck)
    requires
        !is_templated(template),
        is_precision_check(c, url, version, template),
    ensures
        c.status == CheckStatus::Pass,
{
}

} // verus!

verus! {

/// The `date` format accepts exactly the versions made of ASCII digits, `.`
/// and `-` that are at least six bytes long: `2024-07-01` and `2024.07.01`
/// pass, a version with any other character or under six bytes fails.
pub proof fn law_date_format(version: Seq<char>, byte_len: nat)
    ensures
        (forall|i: int| 0 <= i < version.len() ==> ('0' <= #[trigger] version[i] && version[i] <= '9')
            || version[i] == '.' || version[i] == '-') && byte_len >= 6 ==> format_verdict(
            version,
            byte_len,
            Some("date"@),
        ) == CheckStatus::Pass,
        (exists|i: int| 0 <= i < version.len() && !(('0' <= #[trigger] version[i] && version[i] <= '9')
            || version[i] == '.' || version[i] == '-')) ==> format_verdict(version, byte_len, Some("date"@))
            == CheckStatus::Fail,
        byte_len < 6 ==> format_verdict(version, byte_len, Some("date"@)) == CheckStatus::Fail,
{
    reveal_strlit("date");
    reveal_strlit("semver");
    assert("date"@ != "semver"@) by {
        assert("date"@[0] != "semver"@[0]);
    }
}

} // verus!
