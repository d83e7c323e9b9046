//! Scoop-style `$version` template substitution.
use vstd::prelude::*;
use crate::text::{
    chars_of, copy_range, find_char, first_index, join_chars, join_with, lemma_first_index,
    lemma_split_on_len, replace_all, replace_chars, split_chars, split_on, split_once, strip_char,
    string_from_chars,
};

verus! {

/// The named components of a version string, as character sequences.
pub struct PartsView {
    pub major: Seq<char>,
    pub minor: Seq<char>,
    pub patch: Seq<char>,
    pub clean: Seq<char>,
    pub underscore: Seq<char>,
    pub dash: Seq<char>,
    pub pre_release: Seq<char>,
    pub build: Seq<char>,
}

/// The version without a leading `v`, and its build metadata (after the first `+`).
pub open spec fn base_and_build(version: Seq<char>) -> (Seq<char>, Seq<char>) {
    let v = strip_char(version, 'v');
    match split_once(v, '+') {
        Some((b, x)) => (b, x),
        None => (v, Seq::empty()),
    }
}

/// The numeric base and the pre-release suffix (after the first `-`, before any `+`).
pub open spec fn base_and_pre(version: Seq<char>) -> (Seq<char>, Seq<char>) {
    let bwp = base_and_build(version).0;
    match split_once(bwp, '-') {
        Some((b, p)) => (b, p),
        None => (bwp, Seq::empty()),
    }
}

/// The dot-separated numeric components of the version.
pub open spec fn components(version: Seq<char>) -> Seq<Seq<char>> {
    split_on(base_and_pre(version).0, '.')
}

/// Component `i`, or the empty sequence when there are fewer components.
pub open spec fn component_or_empty(parts: Seq<Seq<char>>, i: int) -> Seq<char> {
    if i < parts.len() {
        parts[i]
    } else {
        Seq::empty()
    }
}

/// What each template variable stands for, for a given version.
pub open spec fn version_parts(version: Seq<char>) -> PartsView {
    let comps = components(version);
    PartsView {
        major: component_or_empty(comps, 0),
        minor: component_or_empty(comps, 1),
        patch: component_or_empty(comps, 2),
        clean: join_with(comps, Seq::empty()),
        underscore: join_with(comps, seq!['_']),
        dash: join_with(comps, seq!['-']),
        pre_release: base_and_pre(version).1,
        build: base_and_build(version).1,
    }
}

/// The template with every variable replaced, in the fixed order in which
/// the replacements are applied.
pub open spec fn substituted(template: Seq<char>, version: Seq<char>) -> Seq<char> {
    let p = version_parts(version);
    let t1 = replace_all(template, "$cleanVersion"@, p.clean);
    let t2 = replace_all(t1, "$underscoreVersion"@, p.underscore);
    let t3 = replace_all(t2, "$dashVersion"@, p.dash);
    let t4 = replace_all(t3, "$majorVersion"@, p.major);
    let t5 = replace_all(t4, "$minorVersion"@, p.minor);
    let t6 = replace_all(t5, "$patchVersion"@, p.patch);
    let t7 = replace_all(t6, "$preReleaseVersion"@, p.pre_release);
    let t8 = replace_all(t7, "$buildVersion"@, p.build);
    replace_all(t8, "$version"@, version)
}

struct VersionParts {
    major: Vec<char>,
    minor: Vec<char>,
    patch: Vec<char>,
    clean: Vec<char>,
    underscore: Vec<char>,
    dash: Vec<char>,
    pre_release: Vec<char>,
    build: Vec<char>,
}

impl VersionParts {
    spec fn view_parts(&self) -> PartsView {
        PartsView {
            major: self.major@,
            minor: self.minor@,
            patch: self.patch@,
            clean: self.clean@,
            underscore: self.underscore@,
            dash: self.dash@,
            pre_release: self.pre_release@,
            build: self.build@,
        }
    }
}

/// Splits `v` at the first `c` into the part before and the part after.
fn split_once_chars(v: &[char], c: char) -> (r: (Vec<char>, Vec<char>))
    ensures
        match split_once(v@, c) {
            Some((a, b)) => r.0@ == a && r.1@ == b,
            None => r.0@ == v@ && r.1@ == Seq::<char>::empty(),
        },
{
    match find_char(v, c) {
        Some(i) => {
            proof {
                lemma_first_index(v@, c);
            }
            assert(i < v@.len());
            assert(v@.len() == v.len());
            let a = copy_range(v, 0, i);
            let b = copy_range(v, i + 1, v.len());
            proof {
                assert(a@ =~= v@.take(i as int));
                assert(b@ =~= v@.skip(i + 1));
            }
            (a, b)
        },
        None => (copy_range(v, 0, v.len()), Vec::new()),
    }
}

fn element_or_empty(parts: &Vec<Vec<char>>, i: usize) -> (r: Vec<char>)
    ensures
        r@ == component_or_empty(parts@.map_values(|p: Vec<char>| p@), i as int),
{
    if i < parts.len() {
        let p = &parts[i];
        copy_range(p.as_slice(), 0, p.len())
    } else {
        Vec::new()
    }
}

fn parse_version_parts(version: &[char]) -> (r: VersionParts)
    ensures
        r.view_parts() == version_parts(version@),
{
    let v: Vec<char> = if version.len() > 0 && version[0] == 'v' {
        copy_range(version, 1, version.len())
    } else {
        copy_range(version, 0, version.len())
    };
    proof {
        if version@.len() > 0 && version@[0] == 'v' {
            assert(v@ =~= version@.drop_first());
        } else {
            assert(v@ =~= version@);
        }
    }
    let (base_with_pre, build) = split_once_chars(v.as_slice(), '+');
    let (base, pre_release) = split_once_chars(base_with_pre.as_slice(), '-');
    let comps = split_chars(base.as_slice(), '.');
    let ghost views = comps@.map_values(|p: Vec<char>| p@);
    proof {
        assert(views =~= components(version@));
    }
    let major = element_or_empty(&comps, 0);
    let minor = element_or_empty(&comps, 1);
    let patch = element_or_empty(&comps, 2);
    let no_sep: Vec<char> = Vec::new();
    let underscore_sep: Vec<char> = vec!['_'];
    let dash_sep: Vec<char> = vec!['-'];
    let clean = join_chars(&comps, no_sep.as_slice());
    let underscore = join_chars(&comps, underscore_sep.as_slice());
    let dash = join_chars(&comps, dash_sep.as_slice());
    proof {
        assert(seq!['_'] =~= underscore_sep@);
        assert(seq!['-'] =~= dash_sep@);
        assert(Seq::<char>::empty() =~= no_sep@);
    }
    VersionParts { major, minor, patch, clean, underscore, dash, pre_release, build }
}

/// Substitute Scoop-style `$version` template variables in a string.
///
/// `$version` is the full version; `$majorVersion`, `$minorVersion` and
/// `$patchVersion` its first three dot-separated components (empty when
/// missing); `$cleanVersion`, `$underscoreVersion` and `$dashVersion` the
/// components joined with nothing, `_` and `-`; `$preReleaseVersion` the
/// suffix after `-`; `$buildVersion` the metadata after `+`. A leading `v`
/// is ignored when the components are taken.
pub fn substitute(template: &str, version: &str) -> (r: String)
    ensures
        r@ == substituted(template@, version@),
{
    let ver = chars_of(version);
    let parts = parse_version_parts(ver.as_slice());
    proof {
        reveal_strlit("$cleanVersion");
        reveal_strlit("$underscoreVersion");
        reveal_strlit("$dashVersion");
        reveal_strlit("$majorVersion");
        reveal_strlit("$minorVersion");
        reveal_strlit("$patchVersion");
        reveal_strlit("$preReleaseVersion");
        reveal_strlit("$buildVersion");
        reveal_strlit("$version");
    }
    let t0 = chars_of(template);
    let t1 = replace_chars(t0.as_slice(), chars_of("$cleanVersion").as_slice(), parts.clean.as_slice());
    let t2 = replace_chars(t1.as_slice(), chars_of("$underscoreVersion").as_slice(), parts.underscore.as_slice());
    let t3 = replace_chars(t2.as_slice(), chars_of("$dashVersion").as_slice(), parts.dash.as_slice());
    let t4 = replace_chars(t3.as_slice(), chars_of("$majorVersion").as_slice(), parts.major.as_slice());
    let t5 = replace_chars(t4.as_slice(), chars_of("$minorVersion").as_slice(), parts.minor.as_slice());
    let t6 = replace_chars(t5.as_slice(), chars_of("$patchVersion").as_slice(), parts.patch.as_slice());
    let t7 = replace_chars(t6.as_slice(), chars_of("$preReleaseVersion").as_slice(), parts.pre_release.as_slice());
    let t8 = replace_chars(t7.as_slice(), chars_of("$buildVersion").as_slice(), parts.build.as_slice());
    let t9 = replace_chars(t8.as_slice(), chars_of("$version").as_slice(), ver.as_slice());
    string_from_chars(t9.as_slice())
}

proof fn lemma_replace_absent(s: Seq<char>, pat: Seq<char>, rep: Seq<char>)
    requires
        pat.len() > 0,
        pat[0] == '$',
        !crate::text::has_char(s, '$'),
    ensures
        replace_all(s, pat, rep) == s,
    decreases s.len(),
{
    if s.len() >= pat.len() {
        assert(s.take(pat.len() as int)[0] == s[0]);
        assert(!crate::text::has_char(s.skip(1), '$')) by {
            assert forall|i: int| 0 <= i < s.skip(1).len() implies s.skip(1)[i] != '$' by {
                assert(s.skip(1)[i] == s[i + 1]);
            }
        }
        lemma_replace_absent(s.skip(1), pat, rep);
        assert(seq![s[0]] + s.skip(1) =~= s);
    }
}

/// A template without variables (no `$`) is passed through unchanged.
pub proof fn law_template_without_variables(template: Seq<char>, version: Seq<char>)
    requires
        !crate::text::has_char(template, '$'),
    ensures
        substituted(template, version) == template,
{
    reveal_strlit("$cleanVersion");
    reveal_strlit("$underscoreVersion");
    reveal_strlit("$dashVersion");
    reveal_strlit("$majorVersion");
    reveal_strlit("$minorVersion");
    reveal_strlit("$patchVersion");
    reveal_strlit("$preReleaseVersion");
    reveal_strlit("$buildVersion");
    reveal_strlit("$version");
    let p = version_parts(version);
    lemma_replace_absent(template, "$cleanVersion"@, p.clean);
    lemma_replace_absent(template, "$underscoreVersion"@, p.underscore);
    lemma_replace_absent(template, "$dashVersion"@, p.dash);
    lemma_replace_absent(template, "$majorVersion"@, p.major);
    lemma_replace_absent(template, "$minorVersion"@, p.minor);
    lemma_replace_absent(template, "$patchVersion"@, p.patch);
    lemma_replace_absent(template, "$preReleaseVersion"@, p.pre_release);
    lemma_replace_absent(template, "$buildVersion"@, p.build);
    lemma_replace_absent(template, "$version"@, version);
}

} // verus!

verus! {

/// `s` with every `c` replaced by `r`.
pub open spec fn replace_char(s: Seq<char>, c: char, r: Seq<char>) -> Seq<char>
    decreases s.len(),
{
    if s.len() == 0 {
        Seq::empty()
    } else if s.last() == c {
        replace_char(s.drop_last(), c, r) + r
    } else {
        replace_char(s.drop_last(), c, r).push(s.last())
    }
}

/// Whether a version is a plain dotted number: ASCII digits and dots only.
pub open spec fn dotted_number(v: Seq<char>) -> bool {
    forall|i: int| 0 <= i < v.len() ==> ('0' <= #[trigger] v[i] && v[i] <= '9') || v[i] == '.'
}

proof fn lemma_join_update_last(p: Seq<Seq<char>>, q: Seq<char>, sep: Seq<char>)
    requires
        p.len() >= 1,
    ensures
        join_with(p.update(p.len() - 1, q), sep) == if p.len() == 1 {
            q
        } else {
            join_with(p.drop_last(), sep) + sep + q
        },
{
    let u = p.update(p.len() - 1, q);
    assert(u.drop_last() =~= p.drop_last());
    assert(u.last() == q);
}

proof fn lemma_join_split(s: Seq<char>, sep: Seq<char>)
    ensures
        join_with(split_on(s, '.'), sep) == replace_char(s, '.', sep),
    decreases s.len(),
{
    if s.len() > 0 {
        let p = split_on(s.drop_last(), '.');
        lemma_join_split(s.drop_last(), sep);
        lemma_split_on_len(s.drop_last(), '.');
        if s.last() == '.' {
            let e = Seq::<char>::empty();
            assert(p.push(e).drop_last() =~= p);
            assert(p.push(e).last() == e);
            assert(join_with(p, sep) + sep + e =~= join_with(p, sep) + sep);
        } else {
            let q = p.last().push(s.last());
            lemma_join_update_last(p, q, sep);
            if p.len() > 1 {
                assert(join_with(p.drop_last(), sep) + sep + q =~= (join_with(p.drop_last(), sep) + sep
                    + p.last()).push(s.last()));
            }
        }
    }
}

proof fn lemma_replace_char_dotted(s: Seq<char>, r: Seq<char>)
    requires
        dotted_number(s),
        dotted_number(r),
    ensures
        dotted_number(replace_char(s, '.', r)),
    decreases s.len(),
{
    if s.len() > 0 {
        assert(dotted_number(s.drop_last())) by {
            assert forall|i: int| 0 <= i < s.drop_last().len() implies ('0' <= #[trigger] s.drop_last()[i]
                && s.drop_last()[i] <= '9') || s.drop_last()[i] == '.' by {
                assert(s.drop_last()[i] == s[i]);
            }
        }
        lemma_replace_char_dotted(s.drop_last(), r);
        let t = replace_char(s.drop_last(), '.', r);
        if s.last() == '.' {
            assert forall|i: int| 0 <= i < (t + r).len() implies ('0' <= #[trigger] (t + r)[i] && (t
                + r)[i] <= '9') || (t + r)[i] == '.' by {
                if i >= t.len() {
                    assert((t + r)[i] == r[i - t.len()]);
                }
            }
        } else {
            assert(s[s.len() - 1] == s.last());
            assert forall|i: int| 0 <= i < t.push(s.last()).len() implies ('0' <= #[trigger] t.push(
                s.last(),
            )[i] && t.push(s.last())[i] <= '9') || t.push(s.last())[i] == '.' by {}
        }
    }
}

/// For a version that is a plain dotted number, `$cleanVersion` is the
/// version with its dots dropped (every component, concatenated), and
/// `$underscoreVersion` and `$dashVersion` the version with its dots turned
/// into `_` and `-`: `2.1.0.1234` gives `2101234`, `2_1_0_1234`, `2-1-0-1234`.
pub proof fn law_joined_components(version: Seq<char>)
    requires
        dotted_number(version),
    ensures
        version_parts(version).clean == replace_char(version, '.', Seq::empty()),
        version_parts(version).underscore == replace_char(version, '.', seq!['_']),
        version_parts(version).dash == replace_char(version, '.', seq!['-']),
        substituted("$cleanVersion"@, version) == replace_char(version, '.', Seq::empty()),
{
    if version.len() > 0 {
        assert(version[0] != 'v');
    }
    assert(strip_char(version, 'v') == version);
    lemma_first_index(version, '+');
    if first_index(version, '+') >= 0 {
        assert(version[first_index(version, '+')] == '+');
    }
    lemma_first_index(version, '-');
    if first_index(version, '-') >= 0 {
        assert(version[first_index(version, '-')] == '-');
    }
    assert(base_and_pre(version).0 == version);
    lemma_join_split(version, Seq::empty());
    lemma_join_split(version, seq!['_']);
    lemma_join_split(version, seq!['-']);
    let clean = replace_char(version, '.', Seq::empty());
    reveal_strlit("$cleanVersion");
    reveal_strlit("$underscoreVersion");
    reveal_strlit("$dashVersion");
    reveal_strlit("$majorVersion");
    reveal_strlit("$minorVersion");
    reveal_strlit("$patchVersion");
    reveal_strlit("$preReleaseVersion");
    reveal_strlit("$buildVersion");
    reveal_strlit("$version");
    let pat = "$cleanVersion"@;
    assert(pat.take(pat.len() as int) =~= pat);
    assert(pat.skip(pat.len() as int) =~= Seq::<char>::empty());
    assert(replace_all(Seq::<char>::empty(), pat, clean) == Seq::<char>::empty());
    assert(clean + Seq::<char>::empty() =~= clean);
    assert(replace_all(pat, pat, clean) == clean);
    assert(dotted_number(Seq::<char>::empty()));
    lemma_replace_char_dotted(version, Seq::empty());
    assert(!crate::text::has_char(clean, '$')) by {
        if crate::text::has_char(clean, '$') {
            let i = choose|i: int| 0 <= i < clean.len() && clean[i] == '$';
            assert(('0' <= clean[i] && clean[i] <= '9') || clean[i] == '.');
        }
    }
    let p = version_parts(version);
    lemma_replace_absent(clean, "$underscoreVersion"@, p.underscore);
    lemma_replace_absent(clean, "$dashVersion"@, p.dash);
    lemma_replace_absent(clean, "$majorVersion"@, p.major);
    lemma_replace_absent(clean, "$minorVersion"@, p.minor);
    lemma_replace_absent(clean, "$patchVersion"@, p.patch);
    lemma_replace_absent(clean, "$preReleaseVersion"@, p.pre_release);
    lemma_replace_absent(clean, "$buildVersion"@, p.build);
    lemma_replace_absent(clean, "$version"@, version);
}

} // verus!
