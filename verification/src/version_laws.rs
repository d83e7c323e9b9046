//! The ordering of semantic versions is a strict order: what compares
//! smaller than a smaller version is smaller still.
use vstd::prelude::*;
use crate::numeric::all_digits;
use crate::order::{int_order, lemma_lex_order, lex_order, then_order, Order};
use crate::text::{join_with, lemma_split_on_len, split_on};
use crate::version::ParsedView;
use crate::version_order::{
    build_ident_order, build_order, idents_order, pre_ident_order, prerelease_order, semver_order,
    trim_zeros, version_order,
};

verus! {

proof fn lemma_lex_trans(a: Seq<char>, b: Seq<char>, c: Seq<char>)
    requires
        lex_order(a, b) == Order::Less,
        lex_order(b, c) == Order::Less,
    ensures
        lex_order(a, c) == Order::Less,
    decreases a.len(),
{
    if a.len() > 0 && b.len() > 0 && c.len() > 0 && a[0] == b[0] && b[0] == c[0] {
        lemma_lex_trans(a.drop_first(), b.drop_first(), c.drop_first());
    }
}

/// Stripping leading zeros leaves a suffix, and only zeros were stripped.
proof fn lemma_trim_zeros(s: Seq<char>)
    ensures
        trim_zeros(s).len() <= s.len(),
        trim_zeros(s) == s.skip(s.len() - trim_zeros(s).len()),
        forall|i: int| 0 <= i < s.len() - trim_zeros(s).len() ==> s[i] == '0',
    decreases s.len(),
{
    if s.len() > 0 && s[0] == '0' {
        lemma_trim_zeros(s.drop_first());
        let t = s.drop_first();
        assert(t.skip(t.len() - trim_zeros(t).len()) =~= s.skip(s.len() - trim_zeros(s).len()));
        assert forall|i: int| 0 <= i < s.len() - trim_zeros(s).len() implies s[i] == '0' by {
            if i > 0 {
                assert(s[i] == t[i - 1]);
            }
        }
    } else {
        assert(s.skip(0) =~= s);
    }
}

proof fn lemma_pre_ident(a: Seq<char>, b: Seq<char>, c: Seq<char>)
    ensures
        pre_ident_order(a, b) == Order::Equal ==> a == b,
        (pre_ident_order(a, b) == Order::Less && pre_ident_order(b, c) == Order::Less)
            ==> pre_ident_order(a, c) == Order::Less,
{
    lemma_lex_order(a, b);
    lemma_lex_order(b, c);
    lemma_lex_order(a, c);
    if lex_order(a, b) == Order::Less && lex_order(b, c) == Order::Less {
        lemma_lex_trans(a, b, c);
    }
}

proof fn lemma_build_ident(a: Seq<char>, b: Seq<char>, c: Seq<char>)
    ensures
        build_ident_order(a, b) == Order::Equal ==> a == b,
        (build_ident_order(a, b) == Order::Less && build_ident_order(b, c) == Order::Less)
            ==> build_ident_order(a, c) == Order::Less,
{
    let (ta, tb, tc) = (trim_zeros(a), trim_zeros(b), trim_zeros(c));
    lemma_lex_order(a, b);
    lemma_lex_order(b, c);
    lemma_lex_order(a, c);
    lemma_lex_order(ta, tb);
    lemma_lex_order(tb, tc);
    lemma_lex_order(ta, tc);
    if lex_order(a, b) == Order::Less && lex_order(b, c) == Order::Less {
        lemma_lex_trans(a, b, c);
    }
    if lex_order(ta, tb) == Order::Less && lex_order(tb, tc) == Order::Less {
        lemma_lex_trans(ta, tb, tc);
    }
    if build_ident_order(a, b) == Order::Equal && all_digits(a) && all_digits(b) {
        lemma_trim_zeros(a);
        lemma_trim_zeros(b);
        let k = a.len() - ta.len();
        assert(a.take(k) =~= b.take(k));
        assert(a =~= a.take(k) + a.skip(k));
        assert(b =~= b.take(k) + b.skip(k));
    }
}

proof fn lemma_idents(xs: Seq<Seq<char>>, ys: Seq<Seq<char>>, zs: Seq<Seq<char>>, build: bool)
    ensures
        idents_order(xs, ys, build) == Order::Equal ==> xs == ys,
        (idents_order(xs, ys, build) == Order::Less && idents_order(ys, zs, build) == Order::Less)
            ==> idents_order(xs, zs, build) == Order::Less,
    decreases xs.len(),
{
    if xs.len() > 0 && ys.len() > 0 {
        lemma_pre_ident(xs[0], ys[0], if zs.len() > 0 { zs[0] } else { xs[0] });
        lemma_build_ident(xs[0], ys[0], if zs.len() > 0 { zs[0] } else { xs[0] });
        if zs.len() > 0 {
            lemma_pre_ident(ys[0], zs[0], zs[0]);
            lemma_build_ident(ys[0], zs[0], zs[0]);
            lemma_idents(xs.drop_first(), ys.drop_first(), zs.drop_first(), build);
        } else {
            lemma_idents(xs.drop_first(), ys.drop_first(), ys.drop_first(), build);
        }
        if idents_order(xs, ys, build) == Order::Equal {
            assert(xs =~= seq![xs[0]] + xs.drop_first());
            assert(ys =~= seq![ys[0]] + ys.drop_first());
        }
    } else if xs.len() == 0 && ys.len() == 0 {
        assert(xs =~= ys);
    }
}

/// Joining the pieces of a split at the separator gives back the text.
proof fn lemma_join_split(s: Seq<char>, c: char)
    ensures
        join_with(split_on(s, c), seq![c]) == s,
    decreases s.len(),
{
    if s.len() > 0 {
        let t = s.drop_last();
        lemma_join_split(t, c);
        lemma_split_on_len(t, c);
        let p = split_on(t, c);
        if s.last() == c {
            assert(p.push(Seq::empty()).drop_last() =~= p);
            assert(s =~= t + seq![c]);
        } else {
            let q = p.update(p.len() - 1, p.last().push(s.last()));
            if p.len() > 1 {
                assert(q.drop_last() =~= p.drop_last());
                assert(join_with(q, seq![c]) =~= join_with(p, seq![c]).push(s.last()));
            }
            assert(s =~= t.push(s.last()));
        }
    } else {
        assert(split_on(s, c) == seq![Seq::<char>::empty()]);
    }
}

proof fn lemma_prerelease(a: Seq<char>, b: Seq<char>, c: Seq<char>)
    ensures
        prerelease_order(a, b) == Order::Equal ==> a == b,
        (prerelease_order(a, b) == Order::Less && prerelease_order(b, c) == Order::Less)
            ==> prerelease_order(a, c) == Order::Less,
{
    let (sa, sb, sc) = (split_on(a, '.'), split_on(b, '.'), split_on(c, '.'));
    lemma_idents(sa, sb, sc, false);
    lemma_idents(sa, sa, sa, false);
    lemma_join_split(a, '.');
    lemma_join_split(b, '.');
    crate::version_order::lemma_idents_antisym(sa, sa, false);
}

proof fn lemma_build_order(a: Seq<char>, b: Seq<char>, c: Seq<char>)
    ensures
        (build_order(a, b) == Order::Less && build_order(b, c) == Order::Less) ==> build_order(a, c)
            == Order::Less,
{
    lemma_idents(split_on(a, '.'), split_on(b, '.'), split_on(c, '.'), true);
}

/// Semantic versions are ordered transitively: a version below one that is
/// below a third is below the third.
pub proof fn law_semver_order_transitive(x: (u64, u64, u64, Seq<char>, Seq<char>), y: (u64, u64, u64, Seq<char>, Seq<char>), z: (u64, u64, u64, Seq<char>, Seq<char>))
    requires
        semver_order(x, y) == Order::Less,
        semver_order(y, z) == Order::Less,
    ensures
        semver_order(x, z) == Order::Less,
{
    lemma_prerelease(x.3, y.3, z.3);
    lemma_prerelease(y.3, z.3, z.3);
    lemma_build_order(x.4, y.4, z.4);
}

/// Whether two parsed versions have the same format.
pub open spec fn same_format(a: ParsedView, b: ParsedView) -> bool {
    (a is Semver && b is Semver) || (a is Date && b is Date) || (a is Custom && b is Custom)
}

/// Versions of one format other than custom ones are ordered transitively.
/// (Custom versions mix numeric and textual comparison and are not:
/// `10 < 2a` as text, `2a < 3` as text, yet `3 < 10` as numbers. Nor are
/// versions of mixed formats, which compare by raw text: semver `10.0.0` is
/// below date `2020.01.01`, which is below semver `9.0.0`, yet `9.0.0` is
/// below `10.0.0`.)
pub proof fn law_version_order_transitive(a: ParsedView, b: ParsedView, c: ParsedView)
    requires
        !(a is Custom),
        same_format(a, b),
        same_format(b, c),
        version_order(a, b) == Order::Less,
        version_order(b, c) == Order::Less,
    ensures
        version_order(a, c) == Order::Less,
{
    match (a, b, c) {
        (ParsedView::Semver(x), ParsedView::Semver(y), ParsedView::Semver(z)) => {
            law_semver_order_transitive(x, y, z);
        },
        _ => {},
    }
}

} // verus!
