//! The order of strings (`Ord for str`): lexicographic by character code,
//! a proper prefix before the longer string; and sorting names by it.
use vstd::prelude::*;
use crate::text::{chars_of, views};

verus! {

/// `a` comes strictly before `b` in the order of `str`.
pub open spec fn str_lt(a: Seq<char>, b: Seq<char>) -> bool
    decreases a.len(),
{
    if a.len() == 0 {
        b.len() > 0
    } else if b.len() == 0 {
        false
    } else if a[0] != b[0] {
        (a[0] as u32) < (b[0] as u32)
    } else {
        str_lt(a.drop_first(), b.drop_first())
    }
}

/// No string comes before itself.
pub proof fn lemma_str_lt_irreflexive(a: Seq<char>)
    ensures
        !str_lt(a, a),
    decreases a.len(),
{
    if a.len() > 0 {
        lemma_str_lt_irreflexive(a.drop_first());
    }
}

/// Of two different strings, one comes before the other, and not both
/// ways.
pub proof fn lemma_str_lt_total(a: Seq<char>, b: Seq<char>)
    ensures
        a != b ==> (str_lt(a, b) || str_lt(b, a)),
        !(str_lt(a, b) && str_lt(b, a)),
    decreases a.len(),
{
    if a.len() > 0 && b.len() > 0 && a[0] == b[0] {
        lemma_str_lt_total(a.drop_first(), b.drop_first());
        if a.drop_first() == b.drop_first() {
            assert(a =~= seq![a[0]] + a.drop_first());
            assert(b =~= seq![b[0]] + b.drop_first());
        }
    } else if a.len() == 0 && b.len() == 0 {
        assert(a =~= b);
    } else if a.len() > 0 && b.len() > 0 {
        let x = a[0] as u32;
        let y = b[0] as u32;
        vstd::utf8::char_u32_cast(a[0], x);
        vstd::utf8::char_u32_cast(b[0], y);
        assert(x != y);
    }
}

/// The order is transitive.
pub proof fn lemma_str_lt_transitive(a: Seq<char>, b: Seq<char>, c: Seq<char>)
    requires
        str_lt(a, b),
        str_lt(b, c),
    ensures
        str_lt(a, c),
    decreases a.len(),
{
    if a.len() > 0 && b.len() > 0 && c.len() > 0 {
        if a[0] == b[0] && b[0] == c[0] {
            lemma_str_lt_transitive(a.drop_first(), b.drop_first(), c.drop_first());
        }
    }
}

/// Compares two strings in the order of `str`.
pub fn str_less(a: &str, b: &str) -> (r: bool)
    ensures
        r == str_lt(a@, b@),
{
    let ca = chars_of(a);
    let cb = chars_of(b);
    let mut i: usize = 0;
    proof {
        assert(ca@.skip(0) =~= ca@);
        assert(cb@.skip(0) =~= cb@);
    }
    while i < ca.len() && i < cb.len() && ca[i] == cb[i]
        invariant
            i <= ca.len(),
            i <= cb.len(),
            ca@ == a@,
            cb@ == b@,
            str_lt(a@, b@) == str_lt(ca@.skip(i as int), cb@.skip(i as int)),
        decreases ca.len() - i,
    {
        proof {
            assert(ca@.skip(i as int).drop_first() =~= ca@.skip(i + 1));
            assert(cb@.skip(i as int).drop_first() =~= cb@.skip(i + 1));
        }
        i = i + 1;
    }
    if i == ca.len() {
        i < cb.len()
    } else if i == cb.len() {
        false
    } else {
        (ca[i] as u32) < (cb[i] as u32)
    }
}

/// A sequence of names in strictly increasing order.
pub open spec fn strictly_sorted(s: Seq<Seq<char>>) -> bool {
    forall|i: int, j: int| 0 <= i < j < s.len() ==> str_lt(#[trigger] s[i], #[trigger] s[j])
}

/// Where a new name goes in a sorted sequence: before the first name that
/// comes after it.
fn insertion_point(names: &Vec<String>, x: &str) -> (r: usize)
    ensures
        r <= names@.len(),
        forall|k: int| 0 <= k < r ==> !str_lt(x@, #[trigger] names@[k]@),
        r < names@.len() ==> str_lt(x@, names@[r as int]@),
{
    let mut p: usize = 0;
    while p < names.len()
        invariant
            p <= names@.len(),
            forall|k: int| 0 <= k < p ==> !str_lt(x@, #[trigger] names@[k]@),
        decreases names.len() - p,
    {
        if str_less(x, names[p].as_str()) {
            return p;
        }
        p = p + 1;
    }
    p
}

/// Inserts a name that is not there yet into a strictly sorted sequence,
/// keeping it strictly sorted.
pub fn insert_sorted(names: &mut Vec<String>, x: String)
    requires
        strictly_sorted(views(old(names)@)),
        !views(old(names)@).contains(x@),
    ensures
        strictly_sorted(views(final(names)@)),
        views(final(names)@).len() == views(old(names)@).len() + 1,
        forall|n: Seq<char>| views(final(names)@).contains(n) <==> (views(old(names)@).contains(n) || n == x@),
{
    let p = insertion_point(names, x.as_str());
    let ghost old_v = views(names@);
    let ghost xv = x@;
    names.insert(p, x);
    proof {
        let v = views(names@);
        assert(v =~= old_v.insert(p as int, xv));
        assert forall|k: int| 0 <= k < p implies str_lt(#[trigger] old_v[k], xv) by {
            assert(old_v[k] == names@[k]@);
            lemma_str_lt_total(old_v[k], xv);
            assert(old_v[k] != xv) by {
                assert(old_v.contains(old_v[k]));
            }
        }
        assert forall|k: int| p <= k < old_v.len() implies str_lt(xv, #[trigger] old_v[k]) by {
            if k > p {
                lemma_str_lt_transitive(xv, old_v[p as int], old_v[k]);
            }
        }
        assert forall|i: int, j: int| 0 <= i < j < v.len() implies str_lt(#[trigger] v[i], #[trigger] v[j]) by {
            if i < p && j == p {
            } else if i == p {
                assert(old_v[j - 1] == v[j]);
            } else if j < p {
            } else if i < p {
                assert(v[j] == old_v[j - 1]);
                lemma_str_lt_transitive(v[i], xv, v[j]);
            } else {
                assert(v[i] == old_v[i - 1] && v[j] == old_v[j - 1]);
            }
        }
        assert forall|n: Seq<char>| v.contains(n) <==> (old_v.contains(n) || n == xv) by {
            if v.contains(n) {
                let k = choose|k: int| 0 <= k < v.len() && v[k] == n;
                if k < p {
                    assert(old_v[k] == n);
                } else if k > p {
                    assert(old_v[k - 1] == n);
                }
            }
            if old_v.contains(n) {
                let k = choose|k: int| 0 <= k < old_v.len() && old_v[k] == n;
                if k < p {
                    assert(v[k] == n);
                } else {
                    assert(v[k + 1] == n);
                }
            }
            if n == xv {
                assert(v[p as int] == n);
            }
        }
    }
}

} // verus!
