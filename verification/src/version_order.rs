//! The ordering of parsed versions.
use vstd::prelude::*;
use crate::numeric::{all_digits, is_digit, parse_u64, parse_unsigned};
use crate::order::{
    int_order, lemma_lex_order, lex_order, lex_order_chars, order_u64, reverse_order, then_order,
    Order,
};
use crate::text::{chars_of, chars_equal, lemma_split_on_len, split_chars, split_on};
use crate::version::{raw_text, strings_view, ParsedVersion, ParsedView, SemVer};

verus! {

/// Comparison of two pre-release identifiers: numeric ones by length then text
/// (that is, by value), numeric below alphanumeric, alphanumeric ones by text.
pub open spec fn pre_ident_order(a: Seq<char>, b: Seq<char>) -> Order {
    if all_digits(a) && all_digits(b) {
        then_order(int_order(a.len() as int, b.len() as int), lex_order(a, b))
    } else if all_digits(a) {
        Order::Less
    } else if all_digits(b) {
        Order::Greater
    } else {
        lex_order(a, b)
    }
}

/// `s` without its leading zeros.
pub open spec fn trim_zeros(s: Seq<char>) -> Seq<char>
    decreases s.len(),
{
    if s.len() > 0 && s[0] == '0' {
        trim_zeros(s.drop_first())
    } else {
        s
    }
}

/// Comparison of two build identifiers: numeric ones by value then by length
/// (so `0 < 00 < 1`), numeric below alphanumeric, alphanumeric ones by text.
pub open spec fn build_ident_order(a: Seq<char>, b: Seq<char>) -> Order {
    if all_digits(a) && all_digits(b) {
        then_order(
            int_order(trim_zeros(a).len() as int, trim_zeros(b).len() as int),
            then_order(
                lex_order(trim_zeros(a), trim_zeros(b)),
                int_order(a.len() as int, b.len() as int),
            ),
        )
    } else if all_digits(a) {
        Order::Less
    } else if all_digits(b) {
        Order::Greater
    } else {
        lex_order(a, b)
    }
}

/// Identifier-wise comparison; a list that runs out first is smaller.
pub open spec fn idents_order(xs: Seq<Seq<char>>, ys: Seq<Seq<char>>, build: bool) -> Order
    decreases xs.len(),
{
    if xs.len() == 0 {
        if ys.len() == 0 {
            Order::Equal
        } else {
            Order::Less
        }
    } else if ys.len() == 0 {
        Order::Greater
    } else {
        let o = if build {
            build_ident_order(xs[0], ys[0])
        } else {
            pre_ident_order(xs[0], ys[0])
        };
        if o != Order::Equal {
            o
        } else {
            idents_order(xs.drop_first(), ys.drop_first(), build)
        }
    }
}

/// Pre-release precedence of semantic versions: a release (empty pre-release)
/// is above every pre-release.
pub open spec fn prerelease_order(a: Seq<char>, b: Seq<char>) -> Order {
    if a == b {
        Order::Equal
    } else if a.len() == 0 {
        Order::Greater
    } else if b.len() == 0 {
        Order::Less
    } else {
        idents_order(split_on(a, '.'), split_on(b, '.'), false)
    }
}

/// Order of build metadata, identifier by identifier.
pub open spec fn build_order(a: Seq<char>, b: Seq<char>) -> Order {
    idents_order(split_on(a, '.'), split_on(b, '.'), true)
}

/// Order of semantic versions: major, minor, patch, pre-release, build.
pub open spec fn semver_order(a: (u64, u64, u64, Seq<char>, Seq<char>), b: (u64, u64, u64, Seq<char>, Seq<char>)) -> Order {
    then_order(
        int_order(a.0 as int, b.0 as int),
        then_order(
            int_order(a.1 as int, b.1 as int),
            then_order(
                int_order(a.2 as int, b.2 as int),
                then_order(prerelease_order(a.3, b.3), build_order(a.4, b.4)),
            ),
        ),
    )
}

/// Order of two custom components: numerically when both read as `u64`,
/// otherwise as text.
pub open spec fn component_order(x: Seq<char>, y: Seq<char>) -> Order {
    match (parse_unsigned(x, u64::MAX as nat), parse_unsigned(y, u64::MAX as nat)) {
        (Some(a), Some(b)) => int_order(a as int, b as int),
        _ => lex_order(x, y),
    }
}

/// Component-wise order of custom versions; when one list is a prefix of the
/// other, the shorter is smaller.
pub open spec fn components_order(a: Seq<Seq<char>>, b: Seq<Seq<char>>) -> Order
    decreases a.len(),
{
    if a.len() == 0 || b.len() == 0 {
        int_order(a.len() as int, b.len() as int)
    } else {
        let o = component_order(a[0], b[0]);
        if o != Order::Equal {
            o
        } else {
            components_order(a.drop_first(), b.drop_first())
        }
    }
}

/// Order of parsed versions of the same format; versions of different
/// formats fall back to the order of their raw texts.
pub open spec fn version_order(a: ParsedView, b: ParsedView) -> Order {
    match (a, b) {
        (ParsedView::Semver(x), ParsedView::Semver(y)) => semver_order(x, y),
        (
            ParsedView::Date { year: y1, month: m1, day: d1, .. },
            ParsedView::Date { year: y2, month: m2, day: d2, .. },
        ) => then_order(
            int_order(y1 as int, y2 as int),
            then_order(int_order(m1 as int, m2 as int), int_order(d1 as int, d2 as int)),
        ),
        (ParsedView::Custom { components: c1, .. }, ParsedView::Custom { components: c2, .. }) => components_order(c1, c2),
        _ => lex_order(raw_text(a), raw_text(b)),
    }
}

fn all_digits_chars(v: &[char]) -> (r: bool)
    ensures
        r == all_digits(v@),
{
    let mut i: usize = 0;
    while i < v.len()
        invariant
            i <= v@.len(),
            forall|k: int| 0 <= k < i ==> is_digit(#[trigger] v@[k]),
        decreases v@.len() - i,
    {
        if !('0' <= v[i] && v[i] <= '9') {
            proof {
                assert(!is_digit(v@[i as int]));
            }
            return false;
        }
        i = i + 1;
    }
    true
}

fn leading_zeros(v: &[char]) -> (r: usize)
    ensures
        r <= v@.len(),
        v@.skip(r as int) == trim_zeros(v@),
{
    let mut i: usize = 0;
    proof {
        assert(v@.skip(0) =~= v@);
    }
    while i < v.len() && v[i] == '0'
        invariant
            i <= v@.len(),
            trim_zeros(v@.skip(i as int)) == trim_zeros(v@),
        decreases v@.len() - i,
    {
        proof {
            assert(v@.skip(i as int).drop_first() =~= v@.skip(i + 1));
        }
        i = i + 1;
    }
    i
}

fn len_order(a: usize, b: usize) -> (r: Order)
    ensures
        r == int_order(a as int, b as int),
{
    if a < b {
        Order::Less
    } else if a == b {
        Order::Equal
    } else {
        Order::Greater
    }
}

fn then_exec(first: Order, second: Order) -> (r: Order)
    ensures
        r == then_order(first, second),
{
    match first {
        Order::Equal => second,
        _ => first,
    }
}

fn ident_order_exec(a: &[char], b: &[char], build: bool) -> (r: Order)
    ensures
        r == if build {
            build_ident_order(a@, b@)
        } else {
            pre_ident_order(a@, b@)
        },
{
    let da = all_digits_chars(a);
    let db = all_digits_chars(b);
    if da && db {
        if build {
            let za = leading_zeros(a);
            let zb = leading_zeros(b);
            let ta = crate::text::copy_range(a, za, a.len());
            let tb = crate::text::copy_range(b, zb, b.len());
            proof {
                assert(ta@ =~= a@.skip(za as int));
                assert(tb@ =~= b@.skip(zb as int));
            }
            then_exec(
                len_order(ta.len(), tb.len()),
                then_exec(lex_order_chars(ta.as_slice(), tb.as_slice()), len_order(a.len(), b.len())),
            )
        } else {
            then_exec(len_order(a.len(), b.len()), lex_order_chars(a, b))
        }
    } else if da {
        Order::Less
    } else if db {
        Order::Greater
    } else {
        lex_order_chars(a, b)
    }
}

fn idents_order_exec(xs: &Vec<Vec<char>>, ys: &Vec<Vec<char>>, build: bool) -> (r: Order)
    ensures
        r == idents_order(
            xs@.map_values(|p: Vec<char>| p@),
            ys@.map_values(|p: Vec<char>| p@),
            build,
        ),
{
    let ghost xv = xs@.map_values(|p: Vec<char>| p@);
    let ghost yv = ys@.map_values(|p: Vec<char>| p@);
    let mut i: usize = 0;
    proof {
        assert(xv.skip(0) =~= xv);
        assert(yv.skip(0) =~= yv);
    }
    while i < xs.len() && i < ys.len()
        invariant
            i <= xs@.len(),
            i <= ys@.len(),
            xv == xs@.map_values(|p: Vec<char>| p@),
            yv == ys@.map_values(|p: Vec<char>| p@),
            idents_order(xv, yv, build) == idents_order(xv.skip(i as int), yv.skip(i as int), build),
        decreases xs@.len() - i,
    {
        let o = ident_order_exec(xs[i].as_slice(), ys[i].as_slice(), build);
        proof {
            assert(xv.skip(i as int).drop_first() =~= xv.skip(i + 1));
            assert(yv.skip(i as int).drop_first() =~= yv.skip(i + 1));
            assert(xv.skip(i as int)[0] == xs@[i as int]@);
            assert(yv.skip(i as int)[0] == ys@[i as int]@);
        }
        match o {
            Order::Equal => {},
            _ => {
                return o;
            },
        }
        i = i + 1;
    }
    if i < xs.len() {
        Order::Greater
    } else if i < ys.len() {
        Order::Less
    } else {
        Order::Equal
    }
}

fn prerelease_order_exec(a: &str, b: &str) -> (r: Order)
    ensures
        r == prerelease_order(a@, b@),
{
    let x = chars_of(a);
    let y = chars_of(b);
    if chars_equal(x.as_slice(), y.as_slice()) {
        Order::Equal
    } else if x.len() == 0 {
        Order::Greater
    } else if y.len() == 0 {
        Order::Less
    } else {
        let xs = split_chars(x.as_slice(), '.');
        let ys = split_chars(y.as_slice(), '.');
        proof {
            assert(xs@.map_values(|p: Vec<char>| p@) =~= split_on(a@, '.'));
            assert(ys@.map_values(|p: Vec<char>| p@) =~= split_on(b@, '.'));
        }
        idents_order_exec(&xs, &ys, false)
    }
}

fn build_order_exec(a: &str, b: &str) -> (r: Order)
    ensures
        r == build_order(a@, b@),
{
    let x = chars_of(a);
    let y = chars_of(b);
    let xs = split_chars(x.as_slice(), '.');
    let ys = split_chars(y.as_slice(), '.');
    proof {
        assert(xs@.map_values(|p: Vec<char>| p@) =~= split_on(a@, '.'));
        assert(ys@.map_values(|p: Vec<char>| p@) =~= split_on(b@, '.'));
    }
    idents_order_exec(&xs, &ys, true)
}

fn semver_order_exec(a: &SemVer, b: &SemVer) -> (r: Order)
    ensures
        r == semver_order(a@, b@),
{
    let o1 = order_u64(a.major, b.major);
    match o1 {
        Order::Equal => {},
        _ => {
            return o1;
        },
    }
    let o2 = order_u64(a.minor, b.minor);
    match o2 {
        Order::Equal => {},
        _ => {
            return o2;
        },
    }
    let o3 = order_u64(a.patch, b.patch);
    match o3 {
        Order::Equal => {},
        _ => {
            return o3;
        },
    }
    let o4 = prerelease_order_exec(a.pre.as_str(), b.pre.as_str());
    match o4 {
        Order::Equal => {},
        _ => {
            return o4;
        },
    }
    build_order_exec(a.build.as_str(), b.build.as_str())
}

fn component_order_exec(x: &String, y: &String) -> (r: Order)
    ensures
        r == component_order(x@, y@),
{
    let xc = chars_of(x.as_str());
    let yc = chars_of(y.as_str());
    match (parse_u64(xc.as_slice()), parse_u64(yc.as_slice())) {
        (Some(nx), Some(ny)) => order_u64(nx, ny),
        _ => lex_order_chars(xc.as_slice(), yc.as_slice()),
    }
}

fn components_order_exec(a: &Vec<String>, b: &Vec<String>) -> (r: Order)
    ensures
        r == components_order(strings_view(a@), strings_view(b@)),
{
    let ghost av = strings_view(a@);
    let ghost bv = strings_view(b@);
    let mut i: usize = 0;
    proof {
        assert(av.skip(0) =~= av);
        assert(bv.skip(0) =~= bv);
    }
    while i < a.len() && i < b.len()
        invariant
            i <= a@.len(),
            i <= b@.len(),
            av == strings_view(a@),
            bv == strings_view(b@),
            components_order(av, bv) == components_order(av.skip(i as int), bv.skip(i as int)),
        decreases a@.len() - i,
    {
        let o = component_order_exec(&a[i], &b[i]);
        proof {
            assert(av.skip(i as int).drop_first() =~= av.skip(i + 1));
            assert(bv.skip(i as int).drop_first() =~= bv.skip(i + 1));
            assert(av.skip(i as int)[0] == a@[i as int]@);
            assert(bv.skip(i as int)[0] == b@[i as int]@);
        }
        match o {
            Order::Equal => {},
            _ => {
                return o;
            },
        }
        i = i + 1;
    }
    len_order(a.len(), b.len())
}

/// Compare two parsed versions: semantic versions by semver precedence, date
/// versions chronologically, custom versions component-wise; versions of
/// different formats by their raw texts.
pub fn compare_versions(a: &ParsedVersion, b: &ParsedVersion) -> (r: Order)
    ensures
        r == version_order(a@, b@),
{
    match (a, b) {
        (ParsedVersion::Semver(x), ParsedVersion::Semver(y)) => semver_order_exec(x, y),
        (
            ParsedVersion::Date { year: y1, month: m1, day: d1, .. },
            ParsedVersion::Date { year: y2, month: m2, day: d2, .. },
        ) => then_exec(
            order_u64(*y1 as u64, *y2 as u64),
            then_exec(order_u64(*m1 as u64, *m2 as u64), order_u64(*d1 as u64, *d2 as u64)),
        ),
        (ParsedVersion::Custom { components: c1, .. }, ParsedVersion::Custom { components: c2, .. }) => components_order_exec(c1, c2),
        _ => {
            let ra = chars_of(a.raw().as_str());
            let rb = chars_of(b.raw().as_str());
            lex_order_chars(ra.as_slice(), rb.as_slice())
        },
    }
}


proof fn lemma_ident_antisym(a: Seq<char>, b: Seq<char>, build: bool)
    ensures
        pre_ident_order(a, b) == reverse_order(pre_ident_order(b, a)),
        build_ident_order(a, b) == reverse_order(build_ident_order(b, a)),
        pre_ident_order(a, a) == Order::Equal,
        build_ident_order(a, a) == Order::Equal,
{
    lemma_lex_order(a, b);
    lemma_lex_order(a, a);
    lemma_lex_order(trim_zeros(a), trim_zeros(b));
    lemma_lex_order(trim_zeros(a), trim_zeros(a));
}

pub(crate) proof fn lemma_idents_antisym(xs: Seq<Seq<char>>, ys: Seq<Seq<char>>, build: bool)
    ensures
        idents_order(xs, ys, build) == reverse_order(idents_order(ys, xs, build)),
        idents_order(xs, xs, build) == Order::Equal,
    decreases xs.len(),
{
    if xs.len() > 0 {
        lemma_idents_antisym(xs.drop_first(), xs.drop_first(), build);
        lemma_ident_antisym(xs[0], xs[0], build);
        if ys.len() > 0 {
            lemma_idents_antisym(xs.drop_first(), ys.drop_first(), build);
            lemma_ident_antisym(xs[0], ys[0], build);
        }
    }
}

proof fn lemma_components_antisym(a: Seq<Seq<char>>, b: Seq<Seq<char>>)
    ensures
        components_order(a, b) == reverse_order(components_order(b, a)),
        components_order(a, a) == Order::Equal,
    decreases a.len(),
{
    if a.len() > 0 {
        lemma_components_antisym(a.drop_first(), a.drop_first());
        lemma_lex_order(a[0], a[0]);
        if b.len() > 0 {
            lemma_components_antisym(a.drop_first(), b.drop_first());
            lemma_lex_order(a[0], b[0]);
        }
    }
}

/// Comparing two versions the other way round gives the reverse answer.
pub proof fn law_version_order_antisymmetric(a: ParsedView, b: ParsedView)
    ensures
        version_order(a, b) == reverse_order(version_order(b, a)),
{
    match (a, b) {
        (ParsedView::Semver(x), ParsedView::Semver(y)) => {
            lemma_idents_antisym(split_on(x.3, '.'), split_on(y.3, '.'), false);
            lemma_idents_antisym(split_on(x.4, '.'), split_on(y.4, '.'), true);
            if x.3.len() == 0 && y.3.len() == 0 {
                assert(x.3 =~= y.3);
            }
            assert(prerelease_order(x.3, y.3) == reverse_order(prerelease_order(y.3, x.3)));
            assert(build_order(x.4, y.4) == reverse_order(build_order(y.4, x.4)));
            assert(semver_order(x, y) == reverse_order(semver_order(y, x)));
        },
        (ParsedView::Custom { components: c1, .. }, ParsedView::Custom { components: c2, .. }) => {
            lemma_components_antisym(c1, c2);
        },
        (ParsedView::Date { .. }, ParsedView::Date { .. }) => {},
        _ => {
            lemma_lex_order(raw_text(a), raw_text(b));
        },
    }
}

/// Every version compares `Equal` to itself.
pub proof fn law_version_order_reflexive(a: ParsedView)
    ensures
        version_order(a, a) == Order::Equal,
{
    match a {
        ParsedView::Semver(x) => {
            lemma_idents_antisym(split_on(x.4, '.'), split_on(x.4, '.'), true);
        },
        ParsedView::Custom { components: c, .. } => {
            lemma_components_antisym(c, c);
        },
        _ => {},
    }
}

/// A pre-release is ordered below the release with the same numbers.
pub proof fn law_prerelease_below_release(major: u64, minor: u64, patch: u64, pre: Seq<char>, build: Seq<char>)
    requires
        pre.len() > 0,
    ensures
        version_order(
            ParsedView::Semver((major, minor, patch, pre, build)),
            ParsedView::Semver((major, minor, patch, Seq::empty(), build)),
        ) == Order::Less,
{
}

} // verus!

verus! {

/// Date versions are ordered chronologically: by year, then by month, then by
/// day; a later year wins whatever the months and days, a later month within
/// a year wins whatever the days, and the same date compares `Equal`.
pub proof fn law_dates_chronological(
    y1: u32,
    m1: u32,
    d1: u32,
    r1: Seq<char>,
    y2: u32,
    m2: u32,
    d2: u32,
    r2: Seq<char>,
)
    ensures
        ({
            let a = ParsedView::Date { year: y1, month: m1, day: d1, raw: r1 };
            let b = ParsedView::Date { year: y2, month: m2, day: d2, raw: r2 };
            &&& y1 < y2 ==> version_order(a, b) == Order::Less
            &&& y1 > y2 ==> version_order(a, b) == Order::Greater
            &&& y1 == y2 && m1 < m2 ==> version_order(a, b) == Order::Less
            &&& y1 == y2 && m1 > m2 ==> version_order(a, b) == Order::Greater
            &&& y1 == y2 && m1 == m2 && d1 < d2 ==> version_order(a, b) == Order::Less
            &&& y1 == y2 && m1 == m2 && d1 > d2 ==> version_order(a, b) == Order::Greater
            &&& y1 == y2 && m1 == m2 && d1 == d2 ==> version_order(a, b) == Order::Equal
        }),
{
}

} // verus!
