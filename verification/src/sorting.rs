//! Sorted lists of strings, in the order that `str` has.

use vstd::prelude::*;
use vstd::seq_lib::*;
use crate::text::{
    lemma_text_lt_irreflexive, lemma_text_lt_total, lemma_text_lt_transitive, str_eq, str_lt,
    text_lt, texts, Text,
};

verus! {

/// No element comes before an earlier one.
pub open spec fn sorted(s: Seq<Text>) -> bool {
    forall|i: int, j: int| 0 <= i < j < s.len() ==> !text_lt(s[j], s[i])
}

/// Every element comes before every later one: sorted, and nothing twice.
pub open spec fn strictly_sorted(s: Seq<Text>) -> bool {
    forall|i: int, j: int| 0 <= i < j < s.len() ==> text_lt(s[i], s[j])
}

/// The order is asymmetric.
pub proof fn lemma_text_lt_asymmetric(a: Text, b: Text)
    requires
        text_lt(a, b),
    ensures
        !text_lt(b, a),
{
    if text_lt(b, a) {
        lemma_text_lt_transitive(a, b, a);
        lemma_text_lt_irreflexive(a);
    }
}

/// A strictly sorted list is sorted.
pub proof fn lemma_strictly_sorted_is_sorted(s: Seq<Text>)
    requires
        strictly_sorted(s),
    ensures
        sorted(s),
{
    assert forall|i: int, j: int| 0 <= i < j < s.len() implies !text_lt(s[j], s[i]) by {
        lemma_text_lt_asymmetric(s[i], s[j]);
    }
}

/// The first position of a sorted list whose element does not come before
/// `item`.
pub fn lower_bound(v: &Vec<String>, item: &str) -> (p: usize)
    requires
        sorted(texts(v@)),
    ensures
        p <= v.len(),
        forall|i: int| 0 <= i < p ==> text_lt(#[trigger] texts(v@)[i], item@),
        forall|i: int| p <= i < v.len() ==> !text_lt(#[trigger] texts(v@)[i], item@),
{
    let ghost s = texts(v@);
    let mut p: usize = 0;
    while p < v.len() && str_lt(v[p].as_str(), item)
        invariant
            p <= v.len(),
            s == texts(v@),
            forall|i: int| 0 <= i < p ==> text_lt(#[trigger] s[i], item@),
        decreases v.len() - p,
    {
        p += 1;
    }
    proof {
        assert forall|i: int| p <= i < v.len() implies !text_lt(#[trigger] s[i], item@) by {
            assert(!text_lt(s[p as int], item@));
            if i > p {
                assert(!text_lt(s[i], s[p as int]));
            }
            lemma_text_lt_total(s[p as int], item@);
            if text_lt(s[i], item@) {
                if s[p as int] == item@ {
                } else {
                    lemma_text_lt_transitive(s[i], item@, s[p as int]);
                    lemma_text_lt_irreflexive(s[i]);
                }
            }
        }
    }
    p
}

/// Putting `item` where the elements stop coming before it keeps a sorted
/// list sorted.
proof fn lemma_insert_keeps_sorted(s: Seq<Text>, p: int, item: Text)
    requires
        sorted(s),
        0 <= p <= s.len(),
        forall|i: int| 0 <= i < p ==> text_lt(#[trigger] s[i], item),
        forall|i: int| p <= i < s.len() ==> !text_lt(#[trigger] s[i], item),
    ensures
        sorted(s.insert(p, item)),
{
    let t = s.insert(p, item);
    assert forall|i: int, j: int| 0 <= i < j < t.len() implies !text_lt(t[j], t[i]) by {
        if j < p {
            assert(t[i] == s[i] && t[j] == s[j]);
        } else if j == p {
            assert(t[i] == s[i]);
            lemma_text_lt_asymmetric(s[i], item);
        } else if i < p {
            assert(t[i] == s[i] && t[j] == s[j - 1]);
        } else if i == p {
            assert(t[j] == s[j - 1]);
        } else {
            assert(t[i] == s[i - 1] && t[j] == s[j - 1]);
        }
    }
}

/// Puts `item` into a sorted list, at its place.
pub fn insert_sorted(v: &mut Vec<String>, item: String)
    requires
        sorted(texts(old(v)@)),
    ensures
        sorted(texts(final(v)@)),
        texts(final(v)@).to_multiset() == texts(old(v)@).to_multiset().insert(item@),
{
    let p = lower_bound(v, item.as_str());
    let ghost s = texts(v@);
    proof {
        lemma_insert_keeps_sorted(s, p as int, item@);
    }
    v.insert(p, item);
    proof {
        let t = texts(v@);
        assert(t =~= s.insert(p as int, item@));
        to_multiset_remove(t, p as int);
        t.to_multiset_ensures();
        assert(t.remove(p as int) =~= s);
        assert(t[p as int] == item@);
        assert(t.contains(item@));
        assert(t.to_multiset() =~= s.to_multiset().insert(item@));
    }
}

/// The strings of `v`, sorted.
pub fn sort_strings(v: &Vec<String>) -> (out: Vec<String>)
    ensures
        sorted(texts(out@)),
        texts(out@).to_multiset() == texts(v@).to_multiset(),
{
    let mut out: Vec<String> = Vec::new();
    let mut i: usize = 0;
    assert(texts(out@) =~= texts(v@).take(0));
    while i < v.len()
        invariant
            i <= v.len(),
            sorted(texts(out@)),
            texts(out@).to_multiset() == texts(v@).take(i as int).to_multiset(),
        decreases v.len() - i,
    {
        insert_sorted(&mut out, v[i].clone());
        proof {
            let all = texts(v@);
            assert(all.take(i + 1) =~= all.take(i as int).push(all[i as int]));
            to_multiset_build(all.take(i as int), all[i as int]);
        }
        i += 1;
    }
    assert(texts(v@).take(i as int) =~= texts(v@));
    out
}

/// Puts `item` into a strictly sorted list, at its place, unless the list
/// holds it already.
pub fn insert_unique(v: &mut Vec<String>, item: String)
    requires
        strictly_sorted(texts(old(v)@)),
    ensures
        strictly_sorted(texts(final(v)@)),
        forall|t: Text|
            texts(final(v)@).contains(t) <==> texts(old(v)@).contains(t) || t == item@,
{
    let ghost s = texts(v@);
    proof {
        lemma_strictly_sorted_is_sorted(s);
    }
    let p = lower_bound(v, item.as_str());
    if p < v.len() && str_eq(v[p].as_str(), item.as_str()) {
        assert(s[p as int] == item@);
        assert(s.contains(item@));
    } else {
        v.insert(p, item);
        proof {
            let t = texts(v@);
            assert(t =~= s.insert(p as int, item@));
            assert forall|i: int, j: int| 0 <= i < j < t.len() implies text_lt(t[i], t[j]) by {
                if j < p {
                    assert(t[i] == s[i] && t[j] == s[j]);
                } else if j == p {
                    assert(t[i] == s[i]);
                } else if i < p {
                    assert(t[i] == s[i] && t[j] == s[j - 1]);
                } else if i == p {
                    assert(t[j] == s[j - 1]);
                    lemma_text_lt_total(item@, s[j - 1]);
                    if j - 1 > p {
                        assert(text_lt(s[p as int], s[j - 1]));
                        lemma_text_lt_total(item@, s[p as int]);
                        if item@ != s[p as int] {
                            lemma_text_lt_transitive(item@, s[p as int], s[j - 1]);
                        }
                    }
                } else {
                    assert(t[i] == s[i - 1] && t[j] == s[j - 1]);
                }
            }
            assert forall|x: Text| t.contains(x) <==> s.contains(x) || x == item@ by {
                if t.contains(x) {
                    let k = choose|k: int| 0 <= k < t.len() && t[k] == x;
                    if k < p {
                        assert(s[k] == x);
                    } else if k > p {
                        assert(s[k - 1] == x);
                    }
                }
                if s.contains(x) {
                    let k = choose|k: int| 0 <= k < s.len() && s[k] == x;
                    if k < p {
                        assert(t[k] == x);
                    } else {
                        assert(t[k + 1] == x);
                    }
                }
                if x == item@ {
                    assert(t[p as int] == x);
                }
            }
        }
    }
}

/// A sorted list is fixed by what it holds and how often: two sorted lists
/// with the same elements, each as often in the one as in the other, are the
/// same list.
pub proof fn law_sorted_unique(a: Seq<Text>, b: Seq<Text>)
    requires
        sorted(a),
        sorted(b),
        a.to_multiset() == b.to_multiset(),
    ensures
        a == b,
    decreases a.len(),
{
    a.to_multiset_ensures();
    b.to_multiset_ensures();
    assert(a.len() == b.len());
    if a.len() > 0 {
        let x = a.last();
        let y = b.last();
        assert(a.contains(x));
        assert(b.contains(y));
        assert(b.to_multiset().count(x) > 0);
        assert(a.to_multiset().count(y) > 0);
        assert(b.contains(x));
        assert(a.contains(y));
        let i = choose|i: int| 0 <= i < b.len() && b[i] == x;
        let j = choose|j: int| 0 <= j < a.len() && a[j] == y;
        if i < b.len() - 1 {
            assert(!text_lt(b[b.len() - 1], b[i]));
        } else {
            lemma_text_lt_irreflexive(x);
        }
        if j < a.len() - 1 {
            assert(!text_lt(a[a.len() - 1], a[j]));
        } else {
            lemma_text_lt_irreflexive(y);
        }
        lemma_text_lt_total(x, y);
        assert(x == y);
        assert(a.drop_last() =~= a.remove(a.len() - 1));
        assert(b.drop_last() =~= b.remove(b.len() - 1));
        to_multiset_remove(a, a.len() - 1);
        to_multiset_remove(b, b.len() - 1);
        law_sorted_unique(a.drop_last(), b.drop_last());
        assert(a =~= a.drop_last().push(x));
        assert(b =~= b.drop_last().push(y));
    } else {
        assert(a =~= b);
    }
}

/// A strictly sorted list is fixed by what it holds: two strictly sorted
/// lists with the same elements are the same list.
pub proof fn law_listing_unique(a: Seq<Text>, b: Seq<Text>)
    requires
        strictly_sorted(a),
        strictly_sorted(b),
        forall|t: Text| a.contains(t) <==> b.contains(t),
    ensures
        a == b,
    decreases a.len(),
{
    if a.len() == 0 {
        if b.len() > 0 {
            assert(b.contains(b[0]));
        }
        assert(a =~= b);
    } else {
        let x = a.last();
        assert(a.contains(x));
        assert(b.contains(x));
        let y = b.last();
        assert(b.contains(y));
        assert(a.contains(y));
        let i = choose|i: int| 0 <= i < b.len() && b[i] == x;
        let j = choose|j: int| 0 <= j < a.len() && a[j] == y;
        if i < b.len() - 1 {
            assert(text_lt(b[i], b[b.len() - 1]));
            if j < a.len() - 1 {
                assert(text_lt(a[j], a[a.len() - 1]));
                lemma_text_lt_asymmetric(x, y);
            }
        }
        assert(x == y);
        let a0 = a.drop_last();
        let b0 = b.drop_last();
        assert forall|t: Text| a0.contains(t) <==> b0.contains(t) by {
            if a0.contains(t) {
                let k = choose|k: int| 0 <= k < a0.len() && a0[k] == t;
                assert(a[k] == t);
                assert(a.contains(t));
                assert(text_lt(a[k], a[a.len() - 1]));
                let m = choose|m: int| 0 <= m < b.len() && b[m] == t;
                if m == b.len() - 1 {
                    lemma_text_lt_irreflexive(x);
                }
                assert(b0[m] == t);
            }
            if b0.contains(t) {
                let k = choose|k: int| 0 <= k < b0.len() && b0[k] == t;
                assert(b[k] == t);
                assert(b.contains(t));
                assert(text_lt(b[k], b[b.len() - 1]));
                let m = choose|m: int| 0 <= m < a.len() && a[m] == t;
                if m == a.len() - 1 {
                    lemma_text_lt_irreflexive(x);
                }
                assert(a0[m] == t);
            }
        }
        law_listing_unique(a0, b0);
        assert(a =~= a0.push(x));
        assert(b =~= b0.push(y));
    }
}

} // verus!
