//! Lexicographic order on strings, and sorted, duplicate-free collections of
//! string slices built under it.
//!
//! Character order is code-point order, which for UTF-8 text is the same order
//! the standard library's byte-wise `str` comparison gives.

use vstd::prelude::*;
use crate::text::str_eq;

verus! {

/// `a` sorts strictly before `b`.
pub open spec fn seq_lt(a: Seq<char>, b: Seq<char>) -> bool
    decreases a.len(),
{
    if a.len() == 0 {
        b.len() > 0
    } else if b.len() == 0 {
        false
    } else if a[0] != b[0] {
        (a[0] as int) < (b[0] as int)
    } else {
        seq_lt(a.drop_first(), b.drop_first())
    }
}

/// Exactly one of `a < b`, `a == b`, `b < a` holds.
pub proof fn lemma_lt_trichotomy(a: Seq<char>, b: Seq<char>)
    ensures
        seq_lt(a, b) || a == b || seq_lt(b, a),
        !(seq_lt(a, b) && seq_lt(b, a)),
        !(seq_lt(a, b) && a == b),
    decreases a.len(),
{
    if a.len() == 0 || b.len() == 0 {
        if a.len() == 0 && b.len() == 0 {
            assert(a =~= b);
        }
    } else if a[0] != b[0] {
    } else {
        lemma_lt_trichotomy(a.drop_first(), b.drop_first());
        if a.drop_first() == b.drop_first() {
            assert forall|i: int| 0 <= i < a.len() implies a[i] == b[i] by {
                if i > 0 {
                    assert(a[i] == a.drop_first()[i - 1]);
                    assert(b[i] == b.drop_first()[i - 1]);
                }
            }
            assert(a =~= b);
        }
    }
}

/// The order is transitive.
pub proof fn lemma_lt_transitive(a: Seq<char>, b: Seq<char>, c: Seq<char>)
    requires
        seq_lt(a, b),
        seq_lt(b, c),
    ensures
        seq_lt(a, c),
    decreases a.len(),
{
    if a.len() > 0 && b.len() > 0 && c.len() > 0 && a[0] == b[0] && b[0] == c[0] {
        lemma_lt_transitive(a.drop_first(), b.drop_first(), c.drop_first());
    }
}

/// Whether `a` sorts strictly before `b`.
pub fn str_lt(a: &str, b: &str) -> (r: bool)
    ensures
        r == seq_lt(a@, b@),
{
    let n = a.unicode_len();
    let m = b.unicode_len();
    let mut i: usize = 0;
    assert(a@.subrange(0, n as int) =~= a@);
    assert(b@.subrange(0, m as int) =~= b@);
    while i < n && i < m
        invariant
            n == a@.len(),
            m == b@.len(),
            i <= n,
            i <= m,
            seq_lt(a@, b@) == seq_lt(a@.subrange(i as int, n as int), b@.subrange(i as int, m as int)),
        decreases n - i,
    {
        let x = a.get_char(i);
        let y = b.get_char(i);
        let ghost sa = a@.subrange(i as int, n as int);
        let ghost sb = b@.subrange(i as int, m as int);
        assert(sa[0] == x && sb[0] == y);
        if x != y {
            return x < y;
        }
        assert(sa.drop_first() =~= a@.subrange(i + 1, n as int));
        assert(sb.drop_first() =~= b@.subrange(i + 1, m as int));
        i += 1;
    }
    i == n && i < m
}

/// `v` is strictly increasing.
pub open spec fn strictly_sorted(v: Seq<Seq<char>>) -> bool {
    forall|i: int, j: int| 0 <= i < j < v.len() ==> seq_lt(v[i], v[j])
}

/// The character views of a sequence of string slices.
pub open spec fn views(v: Seq<&str>) -> Seq<Seq<char>> {
    Seq::new(v.len(), |i: int| v[i]@)
}

/// Insert `s` into the strictly increasing `v`, keeping it so; nothing happens
/// when `s` is already there.
pub fn insert_sorted(v: &mut Vec<&'static str>, s: &'static str)
    requires
        strictly_sorted(views(old(v)@)),
    ensures
        strictly_sorted(views(final(v)@)),
        forall|x: Seq<char>| views(final(v)@).contains(x) <==> (views(old(v)@).contains(x) || x == s@),
{
    let ghost old_v = views(v@);
    let mut p: usize = 0;
    while p < v.len() && str_lt(v[p], s)
        invariant
            p <= v@.len(),
            views(v@) == old_v,
            strictly_sorted(old_v),
            forall|k: int| 0 <= k < p ==> seq_lt(#[trigger] old_v[k], s@),
        decreases v@.len() - p,
    {
        p += 1;
    }
    if p < v.len() && str_eq(v[p], s) {
        assert(old_v[p as int] == s@);
        assert(forall|x: Seq<char>| old_v.contains(x) <==> (old_v.contains(x) || x == s@));
        return;
    }
    proof {
        if p < old_v.len() {
            lemma_lt_trichotomy(old_v[p as int], s@);
            assert(seq_lt(s@, old_v[p as int]));
            assert forall|k: int| p <= k < old_v.len() implies seq_lt(s@, #[trigger] old_v[k]) by {
                if k > p {
                    lemma_lt_transitive(s@, old_v[p as int], old_v[k]);
                }
            }
        }
    }
    v.insert(p, s);
    proof {
        let nv = views(v@);
        assert(nv =~= old_v.insert(p as int, s@));
        assert forall|i: int, j: int| 0 <= i < j < nv.len() implies seq_lt(nv[i], nv[j]) by {
            if j < p {
            } else if j == p {
            } else if i < p {
                lemma_lt_transitive(nv[i], s@, nv[j]);
            } else if i == p {
            } else {
            }
        }
        assert forall|x: Seq<char>| nv.contains(x) <==> (old_v.contains(x) || x == s@) by {
            if nv.contains(x) {
                let k = choose|k: int| 0 <= k < nv.len() && nv[k] == x;
                if k < p {
                    assert(old_v[k] == x);
                } else if k > p {
                    assert(old_v[k - 1] == x);
                }
            }
            if old_v.contains(x) {
                let k = choose|k: int| 0 <= k < old_v.len() && old_v[k] == x;
                if k < p {
                    assert(nv[k] == x);
                } else {
                    assert(nv[k + 1] == x);
                }
            }
            if x == s@ {
                assert(nv[p as int] == x);
            }
        }
    }
}

/// The distinct elements of `items`, in increasing order.
pub fn sorted_distinct(items: &Vec<&'static str>) -> (r: Vec<&'static str>)
    ensures
        strictly_sorted(views(r@)),
        forall|x: Seq<char>| views(r@).contains(x) <==> views(items@).contains(x),
{
    let mut out: Vec<&'static str> = Vec::new();
    let mut i: usize = 0;
    while i < items.len()
        invariant
            i <= items@.len(),
            strictly_sorted(views(out@)),
            forall|x: Seq<char>| views(out@).contains(x) <==> views(items@.subrange(0, i as int)).contains(x),
        decreases items@.len() - i,
    {
        insert_sorted(&mut out, items[i]);
        proof {
            let a = views(items@.subrange(0, i as int));
            let b = views(items@.subrange(0, i + 1));
            assert(b =~= a.push(items@[i as int]@));
            assert forall|x: Seq<char>| b.contains(x) <==> (a.contains(x) || x == items@[i as int]@) by {
                if b.contains(x) {
                    let k = choose|k: int| 0 <= k < b.len() && b[k] == x;
                    if k < a.len() {
                        assert(a[k] == x);
                    }
                }
                if a.contains(x) {
                    let k = choose|k: int| 0 <= k < a.len() && a[k] == x;
                    assert(b[k] == x);
                }
                if x == items@[i as int]@ {
                    assert(b[i as int] == x);
                }
            }
        }
        i += 1;
    }
    assert(items@.subrange(0, items@.len() as int) =~= items@);
    out
}

/// `a` sorts strictly before `b`: by first component, then by second.
pub open spec fn pair_lt(a: (Seq<char>, Seq<char>), b: (Seq<char>, Seq<char>)) -> bool {
    seq_lt(a.0, b.0) || (a.0 == b.0 && seq_lt(a.1, b.1))
}

/// Exactly one of `a < b`, `a == b`, `b < a` holds for pairs.
pub proof fn lemma_pair_lt_trichotomy(a: (Seq<char>, Seq<char>), b: (Seq<char>, Seq<char>))
    ensures
        pair_lt(a, b) || a == b || pair_lt(b, a),
        !(pair_lt(a, b) && pair_lt(b, a)),
        !(pair_lt(a, b) && a == b),
{
    lemma_lt_trichotomy(a.0, b.0);
    lemma_lt_trichotomy(a.1, b.1);
}

/// The pair order is transitive.
pub proof fn lemma_pair_lt_transitive(a: (Seq<char>, Seq<char>), b: (Seq<char>, Seq<char>), c: (Seq<char>, Seq<char>))
    requires
        pair_lt(a, b),
        pair_lt(b, c),
    ensures
        pair_lt(a, c),
{
    if seq_lt(a.0, b.0) && seq_lt(b.0, c.0) {
        lemma_lt_transitive(a.0, b.0, c.0);
    } else if seq_lt(a.1, b.1) && seq_lt(b.1, c.1) && a.0 == b.0 && b.0 == c.0 {
        lemma_lt_transitive(a.1, b.1, c.1);
    }
}

/// Whether pair `a` sorts strictly before pair `b`.
pub fn pair_str_lt(a: (&str, &str), b: (&str, &str)) -> (r: bool)
    ensures
        r == pair_lt((a.0@, a.1@), (b.0@, b.1@)),
{
    if str_lt(a.0, b.0) {
        true
    } else if str_eq(a.0, b.0) {
        str_lt(a.1, b.1)
    } else {
        false
    }
}

/// `v` is strictly increasing in the pair order.
pub open spec fn pairs_sorted(v: Seq<(Seq<char>, Seq<char>)>) -> bool {
    forall|i: int, j: int| 0 <= i < j < v.len() ==> pair_lt(v[i], v[j])
}

/// The character views of a sequence of string-slice pairs.
pub open spec fn pair_views(v: Seq<(&str, &str)>) -> Seq<(Seq<char>, Seq<char>)> {
    Seq::new(v.len(), |i: int| (v[i].0@, v[i].1@))
}

/// Insert `s` into the strictly increasing `v`, keeping it so; nothing happens
/// when `s` is already there.
pub fn insert_sorted_pair(v: &mut Vec<(&'static str, &'static str)>, s: (&'static str, &'static str))
    requires
        pairs_sorted(pair_views(old(v)@)),
    ensures
        pairs_sorted(pair_views(final(v)@)),
        forall|x: (Seq<char>, Seq<char>)| pair_views(final(v)@).contains(x)
            <==> (pair_views(old(v)@).contains(x) || x == (s.0@, s.1@)),
{
    let ghost sv = (s.0@, s.1@);
    let ghost old_v = pair_views(v@);
    let mut p: usize = 0;
    while p < v.len() && pair_str_lt(v[p], s)
        invariant
            p <= v@.len(),
            pair_views(v@) == old_v,
            pairs_sorted(old_v),
            sv == (s.0@, s.1@),
            forall|k: int| 0 <= k < p ==> pair_lt(#[trigger] old_v[k], sv),
        decreases v@.len() - p,
    {
        p += 1;
    }
    if p < v.len() && str_eq(v[p].0, s.0) && str_eq(v[p].1, s.1) {
        assert(old_v[p as int] == sv);
        assert(forall|x: (Seq<char>, Seq<char>)| old_v.contains(x) <==> (old_v.contains(x) || x == sv));
        return;
    }
    proof {
        if p < old_v.len() {
            lemma_pair_lt_trichotomy(old_v[p as int], sv);
            assert(pair_lt(sv, old_v[p as int]));
            assert forall|k: int| p <= k < old_v.len() implies pair_lt(sv, #[trigger] old_v[k]) by {
                if k > p {
                    lemma_pair_lt_transitive(sv, old_v[p as int], old_v[k]);
                }
            }
        }
    }
    v.insert(p, s);
    proof {
        let nv = pair_views(v@);
        assert(nv =~= old_v.insert(p as int, sv));
        assert forall|i: int, j: int| 0 <= i < j < nv.len() implies pair_lt(nv[i], nv[j]) by {
            if j < p {
            } else if j == p {
            } else if i < p {
                lemma_pair_lt_transitive(nv[i], sv, nv[j]);
            } else if i == p {
            } else {
            }
        }
        assert forall|x: (Seq<char>, Seq<char>)| nv.contains(x) <==> (old_v.contains(x) || x == sv) by {
            if nv.contains(x) {
                let k = choose|k: int| 0 <= k < nv.len() && nv[k] == x;
                if k < p {
                    assert(old_v[k] == x);
                } else if k > p {
                    assert(old_v[k - 1] == x);
                }
            }
            if old_v.contains(x) {
                let k = choose|k: int| 0 <= k < old_v.len() && old_v[k] == x;
                if k < p {
                    assert(nv[k] == x);
                } else {
                    assert(nv[k + 1] == x);
                }
            }
            if x == sv {
                assert(nv[p as int] == x);
            }
        }
    }
}

/// The distinct pairs of `items`, in increasing order.
pub fn sorted_distinct_pairs(items: &Vec<(&'static str, &'static str)>) -> (r: Vec<(&'static str, &'static str)>)
    ensures
        pairs_sorted(pair_views(r@)),
        forall|x: (Seq<char>, Seq<char>)| pair_views(r@).contains(x) <==> pair_views(items@).contains(x),
{
    let mut out: Vec<(&'static str, &'static str)> = Vec::new();
    let mut i: usize = 0;
    while i < items.len()
        invariant
            i <= items@.len(),
            pairs_sorted(pair_views(out@)),
            forall|x: (Seq<char>, Seq<char>)| pair_views(out@).contains(x)
                <==> pair_views(items@.subrange(0, i as int)).contains(x),
        decreases items@.len() - i,
    {
        insert_sorted_pair(&mut out, items[i]);
        proof {
            let a = pair_views(items@.subrange(0, i as int));
            let b = pair_views(items@.subrange(0, i + 1));
            let it = (items@[i as int].0@, items@[i as int].1@);
            assert(b =~= a.push(it));
            assert forall|x: (Seq<char>, Seq<char>)| b.contains(x) <==> (a.contains(x) || x == it) by {
                if b.contains(x) {
                    let k = choose|k: int| 0 <= k < b.len() && b[k] == x;
                    if k < a.len() {
                        assert(a[k] == x);
                    }
                }
                if a.contains(x) {
                    let k = choose|k: int| 0 <= k < a.len() && a[k] == x;
                    assert(b[k] == x);
                }
                if x == it {
                    assert(b[i as int] == x);
                }
            }
        }
        i += 1;
    }
    assert(items@.subrange(0, items@.len() as int) =~= items@);
    out
}

/// Two strictly increasing sequences with the same elements are the same
/// sequence.
pub proof fn lemma_sorted_unique(a: Seq<Seq<char>>, b: Seq<Seq<char>>)
    requires
        strictly_sorted(a),
        strictly_sorted(b),
        forall|x: Seq<char>| a.contains(x) <==> b.contains(x),
    ensures
        a == b,
    decreases a.len() + b.len(),
{
    if a.len() == 0 {
        if b.len() > 0 {
            assert(b.contains(b[0]));
        }
        assert(a =~= b);
    } else if b.len() == 0 {
        assert(a.contains(a[0]));
    } else {
        assert(a.contains(a[0]));
        let k = choose|k: int| 0 <= k < b.len() && b[k] == a[0];
        assert(b.contains(b[0]));
        let j = choose|j: int| 0 <= j < a.len() && a[j] == b[0];
        if k > 0 {
            if j == 0 {
                lemma_lt_trichotomy(b[0], b[k]);
            } else {
                lemma_lt_transitive(a[0], a[j], b[k]);
                lemma_lt_trichotomy(a[0], a[0]);
            }
        }
        assert(a[0] == b[0]);
        let a1 = a.drop_first();
        let b1 = b.drop_first();
        assert forall|x: Seq<char>| a1.contains(x) <==> b1.contains(x) by {
            if a1.contains(x) {
                let i = choose|i: int| 0 <= i < a1.len() && a1[i] == x;
                assert(a.contains(x));
                let m = choose|m: int| 0 <= m < b.len() && b[m] == x;
                if m == 0 {
                    lemma_lt_trichotomy(a[0], a[i + 1]);
                }
                assert(b1[m - 1] == x);
            }
            if b1.contains(x) {
                let i = choose|i: int| 0 <= i < b1.len() && b1[i] == x;
                assert(b.contains(x));
                let m = choose|m: int| 0 <= m < a.len() && a[m] == x;
                if m == 0 {
                    lemma_lt_trichotomy(b[0], b[i + 1]);
                }
                assert(a1[m - 1] == x);
            }
        }
        lemma_sorted_unique(a1, b1);
        assert(a.len() == b.len());
        assert forall|i: int| 0 <= i < a.len() implies a[i] == b[i] by {
            if i > 0 {
                assert(a[i] == a1[i - 1]);
                assert(b[i] == b1[i - 1]);
            }
        }
        assert(a =~= b);
    }
}

} // verus!
