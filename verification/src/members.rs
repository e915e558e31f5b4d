//! Member-list normalization: the colon-separated member list is split on
//! `:`, sorted in code-point order, and rejoined with `:` before signing.

use vstd::prelude::*;
use vstd::multiset::Multiset;
use crate::views_of;
use crate::lex::{lex_le, lemma_lex_le_total, lemma_lex_le_transitive, str_le};
use crate::segments::{
    spec_split_colon, spec_join_colon, split_colon, join_colon, lemma_split_colon_len,
    lemma_split_colon_free, lemma_join_then_split,
};

verus! {

/// The strings stand in (weakly) increasing code-point order.
pub open spec fn sorted_strs(s: Seq<Seq<char>>) -> bool {
    forall|i: int, j: int| 0 <= i < j < s.len() ==> lex_le(#[trigger] s[i], #[trigger] s[j])
}

/// `x` inserted before the first element of `s` that is not below it.
pub open spec fn spec_insert_sorted(x: Seq<char>, s: Seq<Seq<char>>) -> Seq<Seq<char>>
    decreases s.len(),
{
    if s.len() == 0 {
        seq![x]
    } else if lex_le(x, s[0]) {
        seq![x] + s
    } else {
        seq![s[0]] + spec_insert_sorted(x, s.drop_first())
    }
}

/// `s` sorted by insertion in code-point order.
pub open spec fn spec_sort_strs(s: Seq<Seq<char>>) -> Seq<Seq<char>>
    decreases s.len(),
{
    if s.len() == 0 {
        Seq::empty()
    } else {
        spec_insert_sorted(s[0], spec_sort_strs(s.drop_first()))
    }
}

pub proof fn lemma_insert_sorted_props(x: Seq<char>, s: Seq<Seq<char>>)
    ensures
        spec_insert_sorted(x, s).len() == s.len() + 1,
        forall|e: Seq<char>|
            #![trigger spec_insert_sorted(x, s).contains(e)]
            #![trigger s.contains(e)]
            spec_insert_sorted(x, s).contains(e) <==> (e == x || s.contains(e)),
        sorted_strs(s) ==> sorted_strs(spec_insert_sorted(x, s)),
    decreases s.len(),
{
    let r = spec_insert_sorted(x, s);
    if s.len() == 0 {
        assert(r =~= seq![x]);
        assert(r[0] == x);
        assert forall|e: Seq<char>| r.contains(e) implies (e == x || s.contains(e)) by {
            let i = choose|i: int| 0 <= i < r.len() && r[i] == e;
            assert(i == 0);
        }
        assert(r.contains(x));
    } else if lex_le(x, s[0]) {
        assert(r =~= seq![x] + s);
        assert forall|e: Seq<char>| r.contains(e) implies (e == x || s.contains(e)) by {
            let i = choose|i: int| 0 <= i < r.len() && r[i] == e;
            if i > 0 {
                assert(s[i - 1] == e);
                assert(s.contains(e));
            }
        }
        assert(r[0] == x);
        assert(r.contains(x));
        assert forall|e: Seq<char>| s.contains(e) implies r.contains(e) by {
            let i = choose|i: int| 0 <= i < s.len() && s[i] == e;
            assert(r[i + 1] == e);
        }
        if sorted_strs(s) {
            assert forall|i: int, j: int| 0 <= i < j < r.len() implies lex_le(
                #[trigger] r[i],
                #[trigger] r[j],
            ) by {
                if i == 0 {
                    if j == 1 {
                        assert(lex_le(x, s[0]));
                    } else {
                        assert(lex_le(s[0], s[j - 1]));
                        lemma_lex_le_transitive(x, s[0], s[j - 1]);
                    }
                } else {
                    assert(lex_le(s[i - 1], s[j - 1]));
                }
            }
        }
    } else {
        let d = s.drop_first();
        let r2 = spec_insert_sorted(x, d);
        lemma_insert_sorted_props(x, d);
        assert(r =~= seq![s[0]] + r2);
        assert forall|e: Seq<char>| r.contains(e) implies (e == x || s.contains(e)) by {
            let i = choose|i: int| 0 <= i < r.len() && r[i] == e;
            if i == 0 {
                assert(s[0] == e);
                assert(s.contains(e));
            } else {
                assert(r2[i - 1] == e);
                assert(r2.contains(e));
                if e != x {
                    assert(d.contains(e));
                    let k = choose|k: int| 0 <= k < d.len() && d[k] == e;
                    assert(s[k + 1] == e);
                    assert(s.contains(e));
                }
            }
        }
        assert(r2.contains(x));
        assert forall|e: Seq<char>| (e == x || s.contains(e)) implies r.contains(e) by {
            if e == x {
                let k = choose|k: int| 0 <= k < r2.len() && r2[k] == x;
                assert(r[k + 1] == x);
            } else {
                let i = choose|i: int| 0 <= i < s.len() && s[i] == e;
                if i == 0 {
                    assert(r[0] == e);
                } else {
                    assert(d[i - 1] == e);
                    assert(d.contains(e));
                    assert(r2.contains(e));
                    let k = choose|k: int| 0 <= k < r2.len() && r2[k] == e;
                    assert(r[k + 1] == e);
                }
            }
        }
        if sorted_strs(s) {
            assert forall|i: int, j: int| 0 <= i < j < d.len() implies lex_le(
                #[trigger] d[i],
                #[trigger] d[j],
            ) by {
                assert(d[i] == s[i + 1]);
                assert(d[j] == s[j + 1]);
            }
            assert(sorted_strs(d));
            assert(sorted_strs(r2));
            lemma_lex_le_total(x, s[0]);
            assert(lex_le(s[0], x));
            assert forall|i: int, j: int| 0 <= i < j < r.len() implies lex_le(
                #[trigger] r[i],
                #[trigger] r[j],
            ) by {
                if i == 0 {
                    let e = r2[j - 1];
                    assert(r2.contains(e));
                    if e == x {
                        assert(lex_le(s[0], x));
                    } else {
                        assert(d.contains(e));
                        let k = choose|k: int| 0 <= k < d.len() && d[k] == e;
                        assert(d[k] == s[k + 1]);
                        assert(lex_le(s[0], s[k + 1]));
                    }
                } else {
                    assert(lex_le(r2[i - 1], r2[j - 1]));
                }
            }
        }
    }
}

pub proof fn lemma_insert_sorted_multiset(x: Seq<char>, s: Seq<Seq<char>>)
    ensures
        spec_insert_sorted(x, s).to_multiset() == s.to_multiset().insert(x),
    decreases s.len(),
{
    broadcast use vstd::seq_lib::group_to_multiset_ensures;
    broadcast use vstd::multiset::group_multiset_axioms;

    let r = spec_insert_sorted(x, s);
    if s.len() == 0 {
        assert(r =~= Seq::<Seq<char>>::empty().push(x));
        assert(s.to_multiset().len() == 0);
        assert(s.to_multiset() =~= Multiset::<Seq<char>>::empty());
        assert(Seq::<Seq<char>>::empty().to_multiset().len() == 0);
        assert(Seq::<Seq<char>>::empty().to_multiset() =~= Multiset::<Seq<char>>::empty());
        assert(r.to_multiset() =~= s.to_multiset().insert(x));
    } else if lex_le(x, s[0]) {
        assert(r =~= seq![x] + s);
        vstd::seq_lib::lemma_multiset_commutative(seq![x], s);
        assert(seq![x] =~= Seq::<Seq<char>>::empty().push(x));
        assert(Seq::<Seq<char>>::empty().to_multiset() =~= Multiset::<Seq<char>>::empty());
        assert(r.to_multiset() =~= s.to_multiset().insert(x));
    } else {
        let d = s.drop_first();
        lemma_insert_sorted_multiset(x, d);
        let r2 = spec_insert_sorted(x, d);
        assert(r =~= seq![s[0]] + r2);
        vstd::seq_lib::lemma_multiset_commutative(seq![s[0]], r2);
        assert(s =~= seq![s[0]] + d);
        vstd::seq_lib::lemma_multiset_commutative(seq![s[0]], d);
        assert(seq![s[0]] =~= Seq::<Seq<char>>::empty().push(s[0]));
        assert(Seq::<Seq<char>>::empty().to_multiset() =~= Multiset::<Seq<char>>::empty());
        assert(r.to_multiset() =~= s.to_multiset().insert(x));
    }
}

/// Law: sorting yields a sorted permutation of the segments.
pub proof fn lemma_sort_strs_props(s: Seq<Seq<char>>)
    ensures
        spec_sort_strs(s).len() == s.len(),
        sorted_strs(spec_sort_strs(s)),
        spec_sort_strs(s).to_multiset() == s.to_multiset(),
        forall|e: Seq<char>|
            #![trigger spec_sort_strs(s).contains(e)]
            #![trigger s.contains(e)]
            spec_sort_strs(s).contains(e) <==> s.contains(e),
    decreases s.len(),
{
    broadcast use vstd::seq_lib::group_to_multiset_ensures;
    broadcast use vstd::multiset::group_multiset_axioms;

    if s.len() == 0 {
        assert(spec_sort_strs(s) =~= s);
    } else {
        let d = s.drop_first();
        lemma_sort_strs_props(d);
        let sd = spec_sort_strs(d);
        lemma_insert_sorted_props(s[0], sd);
        lemma_insert_sorted_multiset(s[0], sd);
        assert(s =~= seq![s[0]] + d);
        vstd::seq_lib::lemma_multiset_commutative(seq![s[0]], d);
        assert(seq![s[0]] =~= Seq::<Seq<char>>::empty().push(s[0]));
        assert(Seq::<Seq<char>>::empty().to_multiset() =~= Multiset::<Seq<char>>::empty());
        assert(spec_sort_strs(s).to_multiset() =~= s.to_multiset());
        assert(spec_sort_strs(s) == spec_insert_sorted(s[0], sd));
        assert forall|e: Seq<char>| s.contains(e) implies spec_sort_strs(s).contains(e) by {
            let i = choose|i: int| 0 <= i < s.len() && s[i] == e;
            if i == 0 {
                assert(spec_insert_sorted(s[0], sd).contains(e));
            } else {
                assert(d[i - 1] == e);
                assert(d.contains(e));
                assert(sd.contains(e));
                assert(spec_insert_sorted(s[0], sd).contains(e));
            }
        }
        assert forall|e: Seq<char>| spec_sort_strs(s).contains(e) implies s.contains(e) by {
            assert(spec_insert_sorted(s[0], sd).contains(e));
            if e != s[0] {
                assert(sd.contains(e));
                assert(d.contains(e));
                let i = choose|i: int| 0 <= i < d.len() && d[i] == e;
                assert(s[i + 1] == e);
            } else {
                assert(s[0] == e);
            }
        }
    }
}

/// Law: sorting an already-sorted segment list leaves it unchanged.
pub proof fn lemma_sort_strs_of_sorted(s: Seq<Seq<char>>)
    requires
        sorted_strs(s),
    ensures
        spec_sort_strs(s) == s,
    decreases s.len(),
{
    if s.len() == 0 {
        assert(spec_sort_strs(s) =~= s);
    } else {
        let d = s.drop_first();
        assert forall|i: int, j: int| 0 <= i < j < d.len() implies lex_le(
            #[trigger] d[i],
            #[trigger] d[j],
        ) by {
            assert(d[i] == s[i + 1]);
            assert(d[j] == s[j + 1]);
        }
        lemma_sort_strs_of_sorted(d);
        if d.len() == 0 {
            assert(spec_sort_strs(s) =~= s);
        } else {
            assert(d[0] == s[1]);
            assert(lex_le(s[0], s[1]));
            assert(spec_sort_strs(s) == seq![s[0]] + d);
            assert(seq![s[0]] + d =~= s);
        }
    }
}

fn find_insert_pos(x: &String, v: &Vec<String>) -> (idx: usize)
    ensures
        idx <= v@.len(),
        forall|j: int| 0 <= j < idx ==> !lex_le(x@, #[trigger] v@[j]@),
        idx < v@.len() ==> lex_le(x@, v@[idx as int]@),
{
    let mut idx: usize = 0;
    while idx < v.len()
        invariant
            idx <= v@.len(),
            forall|j: int| 0 <= j < idx ==> !lex_le(x@, #[trigger] v@[j]@),
        decreases v@.len() - idx,
    {
        if str_le(x.as_str(), v[idx].as_str()) {
            return idx;
        }
        idx += 1;
    }
    idx
}

/// Places `x` before the first element that is not below it, as
/// `spec_insert_sorted` does.
pub proof fn lemma_insert_sorted_at(x: Seq<char>, s: Seq<Seq<char>>, i: int)
    requires
        0 <= i <= s.len(),
        forall|j: int| 0 <= j < i ==> !lex_le(x, #[trigger] s[j]),
        i < s.len() ==> lex_le(x, s[i]),
    ensures
        spec_insert_sorted(x, s) == s.take(i) + seq![x] + s.skip(i),
    decreases i,
{
    if i == 0 {
        if s.len() == 0 {
            assert(spec_insert_sorted(x, s) =~= s.take(0) + seq![x] + s.skip(0));
        } else {
            assert(lex_le(x, s[0]));
            assert(spec_insert_sorted(x, s) =~= s.take(0) + seq![x] + s.skip(0));
        }
    } else {
        assert(!lex_le(x, s[0]));
        let d = s.drop_first();
        assert forall|j: int| 0 <= j < i - 1 implies !lex_le(x, #[trigger] d[j]) by {
            assert(d[j] == s[j + 1]);
        }
        if i - 1 < d.len() {
            assert(d[i - 1] == s[i]);
        }
        lemma_insert_sorted_at(x, d, i - 1);
        assert(spec_insert_sorted(x, s) == seq![s[0]] + (d.take(i - 1) + seq![x] + d.skip(i - 1)));
        assert forall|k: int| 0 <= k < s.len() + 1 implies (seq![s[0]] + (d.take(i - 1) + seq![x]
            + d.skip(i - 1)))[k] == (s.take(i) + seq![x] + s.skip(i))[k] by {
            if k > 0 {
                if k - 1 < i - 1 {
                    assert(d.take(i - 1)[k - 1] == d[k - 1]);
                    assert(d[k - 1] == s[k]);
                    assert(s.take(i)[k] == s[k]);
                } else if k - 1 > i - 1 {
                    assert(d.skip(i - 1)[k - 1 - i] == d[k - 2]);
                    assert(d[k - 2] == s[k - 1]);
                    assert(s.skip(i)[k - i - 1] == s[k - 1]);
                }
            }
        }
        assert(spec_insert_sorted(x, s) =~= s.take(i) + seq![x] + s.skip(i));
    }
}

fn insert_sorted_vec(x: String, v: Vec<String>) -> (r: Vec<String>)
    ensures
        views_of(r@) == spec_insert_sorted(x@, views_of(v@)),
{
    let mut v = v;
    let idx = find_insert_pos(&x, &v);
    let ghost vs = views_of(v@);
    proof {
        assert forall|j: int| 0 <= j < idx implies !lex_le(x@, #[trigger] vs[j]) by {
            assert(vs[j] == v@[j]@);
        }
    }
    v.insert(idx, x);
    proof {
        lemma_insert_sorted_at(x@, vs, idx as int);
        assert(views_of(v@) =~= vs.take(idx as int) + seq![x@] + vs.skip(idx as int));
    }
    v
}

fn sort_vec(v: Vec<String>) -> (r: Vec<String>)
    ensures
        views_of(r@) == spec_sort_strs(views_of(v@)),
    decreases v@.len(),
{
    let ghost vs0 = views_of(v@);
    if v.len() == 0 {
        proof {
            assert(views_of(v@) =~= spec_sort_strs(views_of(v@)));
        }
        v
    } else {
        let mut v = v;
        let first = v.remove(0);
        proof {
            assert(views_of(v@) =~= vs0.drop_first());
        }
        let sorted = sort_vec(v);
        let r = insert_sorted_vec(first, sorted);
        proof {
            assert(views_of(r@) == spec_sort_strs(vs0));
        }
        r
    }
}

/// The member list, split on `:`, sorted in code-point order, and rejoined.
pub open spec fn spec_sorted_members(m: Seq<char>) -> Seq<char> {
    spec_join_colon(spec_sort_strs(spec_split_colon(m)))
}

/// Normalizes a colon-separated member list: split on `:`, sort the member
/// strings in code-point order, rejoin with `:`.
pub fn sort_members(members: String) -> (r: String)
    ensures
        r@ == spec_sorted_members(members@),
{
    let pieces = split_colon(members.as_str());
    let sorted = sort_vec(pieces);
    join_colon(&sorted)
}

/// Law: member-list normalization is idempotent — normalizing an already
/// normalized colon-joined member list yields the same string.
pub proof fn lemma_sort_members_idempotent(m: Seq<char>)
    ensures
        spec_sorted_members(spec_sorted_members(m)) == spec_sorted_members(m),
{
    let p = spec_split_colon(m);
    let sp = spec_sort_strs(p);
    lemma_split_colon_len(m);
    lemma_split_colon_free(m);
    lemma_sort_strs_props(p);
    assert forall|k: int, j: int|
        0 <= k < sp.len() && 0 <= j < sp[k].len() implies sp[k][j] != ':' by {
        assert(sp.contains(sp[k]));
        assert(p.contains(sp[k]));
        let i = choose|i: int| 0 <= i < p.len() && p[i] == sp[k];
        assert(p[i][j] != ':');
    }
    lemma_join_then_split(sp);
    lemma_sort_strs_of_sorted(sp);
}

} // verus!
