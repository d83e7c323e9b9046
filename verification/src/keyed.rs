//! Lists of entries keyed by name, where the first entry with a name counts.
use vstd::prelude::*;
use crate::text::str_equals;

verus! {

/// The value of the first entry named `key`.
pub open spec fn first_with<T>(v: Seq<(Seq<char>, T)>, key: Seq<char>) -> Option<T>
    decreases v.len(),
{
    if v.len() == 0 {
        None
    } else if v[0].0 == key {
        Some(v[0].1)
    } else {
        first_with(v.drop_first(), key)
    }
}

/// The entry at `i` is the first one named `key`.
pub proof fn lemma_first_with_at<T>(v: Seq<(Seq<char>, T)>, key: Seq<char>, i: int)
    requires
        0 <= i < v.len(),
        v[i].0 == key,
        forall|k: int| 0 <= k < i ==> v[k].0 != key,
    ensures
        first_with(v, key) == Some(v[i].1),
    decreases i,
{
    if i > 0 {
        lemma_first_with_at(v.drop_first(), key, i - 1);
    }
}

/// No entry is named `key`.
pub proof fn lemma_first_with_absent<T>(v: Seq<(Seq<char>, T)>, key: Seq<char>)
    requires
        forall|k: int| 0 <= k < v.len() ==> v[k].0 != key,
    ensures
        first_with(v, key) is None,
    decreases v.len(),
{
    if v.len() > 0 {
        lemma_first_with_absent(v.drop_first(), key);
    }
}

/// Replacing the value of entry `i` leaves the other names' values as they were.
pub proof fn lemma_first_with_update<T>(v: Seq<(Seq<char>, T)>, i: int, x: T, q: Seq<char>)
    requires
        0 <= i < v.len(),
    ensures
        q != v[i].0 ==> first_with(v.update(i, (v[i].0, x)), q) == first_with(v, q),
    decreases i,
{
    let w = v.update(i, (v[i].0, x));
    if i > 0 {
        lemma_first_with_update(v.drop_first(), i - 1, x, q);
        assert(w.drop_first() =~= v.drop_first().update(i - 1, (v[i].0, x)));
        assert(w[0] == v[0]);
    } else {
        assert(w.drop_first() =~= v.drop_first());
        assert(w[0].0 == v[0].0);
    }
}

/// Appending an entry changes only a name that had no entry.
pub proof fn lemma_first_with_push<T>(v: Seq<(Seq<char>, T)>, p: (Seq<char>, T), q: Seq<char>)
    ensures
        first_with(v, q) is Some ==> first_with(v.push(p), q) == first_with(v, q),
        first_with(v, q) is None ==> first_with(v.push(p), q) == if p.0 == q {
            Some(p.1)
        } else {
            None
        },
    decreases v.len(),
{
    if v.len() > 0 {
        lemma_first_with_push(v.drop_first(), p, q);
        assert(v.push(p).drop_first() =~= v.drop_first().push(p));
        assert(v.push(p)[0] == v[0]);
    } else {
        assert(v.push(p).drop_first() =~= Seq::<(Seq<char>, T)>::empty());
        assert(v.push(p)[0] == p);
        assert(first_with(v.push(p).drop_first(), q) is None);
    }
}

/// The position of the first entry named `key`, if any.
pub fn position_of<T>(v: &Vec<(String, T)>, key: &str) -> (r: Option<usize>)
    ensures
        match r {
            Some(i) => i < v@.len() && v@[i as int].0@ == key@ && forall|k: int| 0 <= k < i ==> v@[k].0@ != key@,
            None => forall|k: int| 0 <= k < v@.len() ==> v@[k].0@ != key@,
        },
{
    let mut i: usize = 0;
    while i < v.len()
        invariant
            i <= v@.len(),
            forall|k: int| 0 <= k < i ==> v@[k].0@ != key@,
        decreases v@.len() - i,
    {
        if str_equals(v[i].0.as_str(), key) {
            return Some(i);
        }
        i = i + 1;
    }
    None
}

} // verus!
