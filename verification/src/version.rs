//! Version strings: parsing by declared format, display, and safe file names.
use vstd::prelude::*;
use crate::numeric::{decimal, parse_u32, parse_unsigned, push_decimal};
use crate::outside_text::{
    groups_view, lenient_parse_result, opt_view, regex_captures, regex_captures_result,
    semver_lenient_parse, semver_parse_result, semver_strict_parse,
};
use crate::text::{
    chars_of, concat2, concat3, copy_range, push_all, split_any, split_chars_any, str_equals, strip_char,
    string_from_chars, string_from_str, lemma_split_any_len,
};

verus! {

/// Failure to read a version in its declared format.
#[derive(Debug)]
pub enum VersionError {
    SemverParse(String),
    DateParse(String),
    RegexParse(String),
}

/// A version error as the message it carries, by kind.
pub enum VersionErrorView {
    SemverParse(Seq<char>),
    DateParse(Seq<char>),
    RegexParse(Seq<char>),
}

impl View for VersionError {
    type V = VersionErrorView;

    open spec fn view(&self) -> VersionErrorView {
        match self {
            VersionError::SemverParse(m) => VersionErrorView::SemverParse(m@),
            VersionError::DateParse(m) => VersionErrorView::DateParse(m@),
            VersionError::RegexParse(m) => VersionErrorView::RegexParse(m@),
        }
    }
}

/// The display text of a version error.
pub open spec fn version_error_text(e: VersionErrorView) -> Seq<char> {
    match e {
        VersionErrorView::SemverParse(m) => "failed to parse semver: "@ + m,
        VersionErrorView::DateParse(m) => "failed to parse date version: "@ + m,
        VersionErrorView::RegexParse(m) => "failed to parse version with custom regex: "@ + m,
    }
}

impl VersionError {
    /// The human-readable message of this error.
    pub fn message(&self) -> (r: String)
        ensures
            r@ == version_error_text(self@),
    {
        match self {
            VersionError::SemverParse(m) => concat2("failed to parse semver: ", m.as_str()),
            VersionError::DateParse(m) => concat2("failed to parse date version: ", m.as_str()),
            VersionError::RegexParse(m) => concat2("failed to parse version with custom regex: ", m.as_str()),
        }
    }
}

/// A semantic version: numeric core, pre-release text and build metadata text.
#[derive(Debug, Clone)]
pub struct SemVer {
    pub major: u64,
    pub minor: u64,
    pub patch: u64,
    pub pre: String,
    pub build: String,
}

impl View for SemVer {
    type V = (u64, u64, u64, Seq<char>, Seq<char>);

    open spec fn view(&self) -> (u64, u64, u64, Seq<char>, Seq<char>) {
        (self.major, self.minor, self.patch, self.pre@, self.build@)
    }
}

/// A parsed version with its format, supporting ordering.
#[derive(Debug, Clone)]
pub enum ParsedVersion {
    Semver(SemVer),
    Date { year: u32, month: u32, day: u32, raw: String },
    Custom { components: Vec<String>, raw: String },
}

/// A parsed version as plain values.
pub enum ParsedView {
    Semver((u64, u64, u64, Seq<char>, Seq<char>)),
    Date { year: u32, month: u32, day: u32, raw: Seq<char> },
    Custom { components: Seq<Seq<char>>, raw: Seq<char> },
}

/// The views of a list of strings.
pub open spec fn strings_view(v: Seq<String>) -> Seq<Seq<char>> {
    v.map_values(|s: String| s@)
}

impl View for ParsedVersion {
    type V = ParsedView;

    open spec fn view(&self) -> ParsedView {
        match self {
            ParsedVersion::Semver(v) => ParsedView::Semver(v@),
            ParsedVersion::Date { year, month, day, raw } => ParsedView::Date {
                year: *year,
                month: *month,
                day: *day,
                raw: raw@,
            },
            ParsedVersion::Custom { components, raw } => ParsedView::Custom {
                components: strings_view(components@),
                raw: raw@,
            },
        }
    }
}

/// The canonical text of a semantic version: `major.minor.patch`, then
/// `-pre` and `+build` when those are not empty.
pub open spec fn semver_text(v: (u64, u64, u64, Seq<char>, Seq<char>)) -> Seq<char> {
    let core = decimal(v.0 as nat) + seq!['.'] + decimal(v.1 as nat) + seq!['.'] + decimal(
        v.2 as nat,
    );
    let with_pre = if v.3.len() > 0 {
        core + seq!['-'] + v.3
    } else {
        core
    };
    if v.4.len() > 0 {
        with_pre + seq!['+'] + v.4
    } else {
        with_pre
    }
}

/// The text a parsed version came from (canonical text for semantic versions).
pub open spec fn raw_text(v: ParsedView) -> Seq<char> {
    match v {
        ParsedView::Semver(s) => semver_text(s),
        ParsedView::Date { raw, .. } => raw,
        ParsedView::Custom { raw, .. } => raw,
    }
}

impl ParsedVersion {
    /// The text this version stands for.
    pub fn raw(&self) -> (r: String)
        ensures
            r@ == raw_text(self@),
    {
        match self {
            ParsedVersion::Semver(v) => {
                let mut out: Vec<char> = Vec::new();
                push_decimal(&mut out, v.major);
                out.push('.');
                push_decimal(&mut out, v.minor);
                out.push('.');
                push_decimal(&mut out, v.patch);
                let pre = chars_of(v.pre.as_str());
                let build = chars_of(v.build.as_str());
                if pre.len() > 0 {
                    out.push('-');
                    push_all(&mut out, pre.as_slice());
                }
                if build.len() > 0 {
                    out.push('+');
                    push_all(&mut out, build.as_slice());
                }
                proof {
                    let core = decimal(v.major as nat) + seq!['.'] + decimal(v.minor as nat) + seq!['.']
                        + decimal(v.patch as nat);
                    let with_pre = if v.pre@.len() > 0 {
                        core + seq!['-'] + v.pre@
                    } else {
                        core
                    };
                    if v.build@.len() > 0 {
                        assert(out@ =~= with_pre + seq!['+'] + v.build@);
                    } else {
                        assert(out@ =~= with_pre);
                    }
                }
                string_from_chars(out.as_slice())
            },
            ParsedVersion::Date { raw, .. } => raw.clone(),
            ParsedVersion::Custom { raw, .. } => raw.clone(),
        }
    }
}

/// Reading a semantic version: a leading `v` is dropped, then the strict
/// parser is tried, then the lenient one.
pub open spec fn semver_spec(version: Seq<char>) -> Result<ParsedView, VersionErrorView> {
    let v = strip_char(version, 'v');
    match semver_parse_result(v) {
        Some(x) => Ok(ParsedView::Semver(x)),
        None => match lenient_parse_result(v) {
            Ok(x) => Ok(ParsedView::Semver(x)),
            Err(e) => Err(VersionErrorView::SemverParse(version + ": "@ + e)),
        },
    }
}

/// The number in piece `i`, or 1 when the piece is missing or not a `u32`.
pub open spec fn piece_or_one(parts: Seq<Seq<char>>, i: int) -> u32 {
    if i < parts.len() {
        match parse_unsigned(parts[i], u32::MAX as nat) {
            Some(n) => n as u32,
            None => 1,
        }
    } else {
        1
    }
}

/// Reading a date version `YYYY[.-]MM[.-]DD` (month and day default to 1).
pub open spec fn date_spec(version: Seq<char>) -> Result<ParsedView, VersionErrorView> {
    let parts = split_any(version, seq!['.', '-']);
    match parse_unsigned(parts[0], u32::MAX as nat) {
        None => Err(VersionErrorView::DateParse(version)),
        Some(y) => Ok(
            ParsedView::Date {
                year: y as u32,
                month: piece_or_one(parts, 1),
                day: piece_or_one(parts, 2),
                raw: version,
            },
        ),
    }
}

/// The texts of the groups that took part in a match, in order.
pub open spec fn present_groups(gs: Seq<Option<Seq<char>>>) -> Seq<Seq<char>>
    decreases gs.len(),
{
    if gs.len() == 0 {
        Seq::empty()
    } else {
        let rest = present_groups(gs.drop_last());
        match gs.last() {
            Some(g) => rest.push(g),
            None => rest,
        }
    }
}

/// Reading a version with a custom regular expression: the components are the
/// capture groups (after the whole match) that took part in the match.
pub open spec fn custom_spec(version: Seq<char>, pattern: Seq<char>) -> Result<ParsedView, VersionErrorView> {
    match regex_captures_result(pattern, version) {
        Err(e) => Err(VersionErrorView::RegexParse(pattern + ": "@ + e)),
        Ok(None) => Err(VersionErrorView::RegexParse(version + " doesn't match "@ + pattern)),
        Ok(Some(groups)) => Ok(
            ParsedView::Custom {
                components: present_groups(
                    if groups.len() > 0 {
                        groups.drop_first()
                    } else {
                        groups
                    },
                ),
                raw: version,
            },
        ),
    }
}

/// Reading a version in the declared format: `semver` (the default), `date`,
/// or any other text taken as a regular expression.
pub open spec fn parse_spec(version: Seq<char>, format: Option<Seq<char>>) -> Result<ParsedView, VersionErrorView> {
    let f = match format {
        Some(f) => f,
        None => "semver"@,
    };
    if f == "semver"@ {
        semver_spec(version)
    } else if f == "date"@ {
        date_spec(version)
    } else {
        custom_spec(version, f)
    }
}

/// The view of a parse result.
pub open spec fn parse_result_view(r: Result<ParsedVersion, VersionError>) -> Result<ParsedView, VersionErrorView> {
    match r {
        Ok(v) => Ok(v@),
        Err(e) => Err(e@),
    }
}

/// Parse a version string according to the specified format.
///
/// `format` values:
/// - `None` or `Some("semver")` → parse as semver (lenient)
/// - `Some("date")` → parse as date (YYYY.MM.DD or YYYY-MM-DD)
/// - Other → treat as custom regex pattern with capture groups
pub fn parse(version: &str, format: Option<&str>) -> (r: Result<ParsedVersion, VersionError>)
    ensures
        parse_result_view(r) == parse_spec(version@, match format {
            Some(f) => Some(f@),
            None => None,
        }),
{
    let f: &str = match format {
        Some(f) => f,
        None => "semver",
    };
    if str_equals(f, "semver") {
        parse_semver(version)
    } else if str_equals(f, "date") {
        parse_date(version)
    } else {
        parse_custom(version, f)
    }
}

fn parse_semver(version: &str) -> (r: Result<ParsedVersion, VersionError>)
    ensures
        parse_result_view(r) == semver_spec(version@),
{
    let chars = chars_of(version);
    let stripped: Vec<char> = if chars.len() > 0 && chars[0] == 'v' {
        copy_range(chars.as_slice(), 1, chars.len())
    } else {
        copy_range(chars.as_slice(), 0, chars.len())
    };
    proof {
        if version@.len() > 0 && version@[0] == 'v' {
            assert(stripped@ =~= version@.drop_first());
        } else {
            assert(stripped@ =~= version@);
        }
    }
    let v = string_from_chars(stripped.as_slice());
    match semver_strict_parse(v.as_str()) {
        Some(x) => Ok(ParsedVersion::Semver(x)),
        None => match semver_lenient_parse(v.as_str()) {
            Ok(x) => Ok(ParsedVersion::Semver(x)),
            Err(e) => Err(VersionError::SemverParse(concat3(version, ": ", e.as_str()))),
        },
    }
}

fn number_or_one(parts: &Vec<Vec<char>>, i: usize) -> (r: u32)
    ensures
        r == piece_or_one(parts@.map_values(|p: Vec<char>| p@), i as int),
{
    if i < parts.len() {
        match parse_u32(parts[i].as_slice()) {
            Some(n) => n,
            None => 1,
        }
    } else {
        1
    }
}

fn parse_date(version: &str) -> (r: Result<ParsedVersion, VersionError>)
    ensures
        parse_result_view(r) == date_spec(version@),
{
    let chars = chars_of(version);
    let seps: Vec<char> = vec!['.', '-'];
    let parts = split_chars_any(chars.as_slice(), seps.as_slice());
    let ghost views = parts@.map_values(|p: Vec<char>| p@);
    proof {
        assert(seps@ =~= seq!['.', '-']);
        assert(views =~= split_any(version@, seq!['.', '-']));
        lemma_split_any_len(version@, seq!['.', '-']);
    }
    match parse_u32(parts[0].as_slice()) {
        None => Err(VersionError::DateParse(string_from_str(version))),
        Some(year) => {
            let month = number_or_one(&parts, 1);
            let day = number_or_one(&parts, 2);
            Ok(ParsedVersion::Date { year, month, day, raw: string_from_str(version) })
        },
    }
}

fn present_strings(groups: &Vec<Option<String>>) -> (r: Vec<String>)
    ensures
        strings_view(r@) == present_groups(
            if groups@.len() > 0 {
                groups_view(groups@).drop_first()
            } else {
                groups_view(groups@)
            },
        ),
{
    let ghost gs = if groups@.len() > 0 {
        groups_view(groups@).drop_first()
    } else {
        groups_view(groups@)
    };
    let mut out: Vec<String> = Vec::new();
    let mut i: usize = 1;
    if groups.len() == 0 {
        return out;
    }
    while i < groups.len()
        invariant
            1 <= i <= groups@.len(),
            gs == groups_view(groups@).drop_first(),
            strings_view(out@) == present_groups(gs.take(i - 1)),
        decreases groups@.len() - i,
    {
        proof {
            assert(gs.take(i as int).drop_last() =~= gs.take(i - 1));
            assert(gs.take(i as int).last() == opt_view(groups@[i as int]));
        }
        match &groups[i] {
            Some(g) => {
                let ghost before = out@;
                out.push(string_from_str(g.as_str()));
                proof {
                    assert(strings_view(out@) =~= strings_view(before).push(g@));
                }
            },
            None => {},
        }
        i = i + 1;
    }
    proof {
        assert(gs.take(groups@.len() - 1) =~= gs);
    }
    out
}

fn parse_custom(version: &str, pattern: &str) -> (r: Result<ParsedVersion, VersionError>)
    ensures
        parse_result_view(r) == custom_spec(version@, pattern@),
{
    match regex_captures(pattern, version) {
        Err(e) => Err(VersionError::RegexParse(concat3(pattern, ": ", e.as_str()))),
        Ok(None) => Err(VersionError::RegexParse(concat3(version, " doesn't match ", pattern))),
        Ok(Some(groups)) => {
            let components = present_strings(&groups);
            proof {
                assert(groups_view(groups@).len() == groups@.len());
            }
            Ok(ParsedVersion::Custom { components, raw: string_from_str(version) })
        },
    }
}

/// Whether `c` may not appear in a file name.
pub open spec fn unsafe_file_char(c: char) -> bool {
    c == '/' || c == '\\' || c == ':' || c == '*' || c == '?' || c == '"' || c == '<' || c == '>'
        || c == '|'
}

/// `c`, or `_` when `c` may not appear in a file name.
pub open spec fn safe_char(c: char) -> char {
    if unsafe_file_char(c) {
        '_'
    } else {
        c
    }
}

/// The version with every character unsafe in file names replaced by `_`.
pub open spec fn sanitized(version: Seq<char>) -> Seq<char> {
    version.map_values(|c: char| safe_char(c))
}

/// Sanitize a version string for use as a filename.
pub fn sanitize_for_filename(version: &str) -> (r: String)
    ensures
        r@ == sanitized(version@),
{
    let v = chars_of(version);
    let mut out: Vec<char> = Vec::new();
    let mut i: usize = 0;
    while i < v.len()
        invariant
            i <= v@.len(),
            v@ == version@,
            out@ == sanitized(v@.take(i as int)),
        decreases v@.len() - i,
    {
        let c = v[i];
        let d = if c == '/' || c == '\\' || c == ':' || c == '*' || c == '?' || c == '"' || c == '<'
            || c == '>' || c == '|' {
            '_'
        } else {
            c
        };
        out.push(d);
        proof {
            assert(sanitized(v@.take(i + 1)) =~= sanitized(v@.take(i as int)).push(safe_char(c)));
        }
        i = i + 1;
    }
    proof {
        assert(v@.take(v@.len() as int) =~= v@);
    }
    string_from_chars(out.as_slice())
}

/// Sanitizing keeps the length, leaves no character unsafe in file names,
/// changes nothing in a version that was already safe, and so gives the same
/// result when applied twice.
pub proof fn law_sanitize(version: Seq<char>)
    ensures
        sanitized(version).len() == version.len(),
        forall|i: int| 0 <= i < version.len() ==> !unsafe_file_char(#[trigger] sanitized(version)[i]),
        (forall|i: int| 0 <= i < version.len() ==> !unsafe_file_char(#[trigger] version[i])) ==> sanitized(version) == version,
        sanitized(sanitized(version)) == sanitized(version),
{
    if forall|i: int| 0 <= i < version.len() ==> !unsafe_file_char(#[trigger] version[i]) {
        assert(sanitized(version) =~= version);
    }
    assert(sanitized(sanitized(version)) =~= sanitized(version));
}

} // verus!
