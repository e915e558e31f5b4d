//! Splitting a string on `:` and joining segments back with `:`.
//!
//! Splitting an empty string yields one empty segment, not an empty list:
//! the canonical message keeps positional structure even for empty fields.

use vstd::prelude::*;
use crate::views_of;

verus! {

/// The segments of `s`, split on `:`. Always at least one segment.
pub open spec fn spec_split_colon(s: Seq<char>) -> Seq<Seq<char>>
    decreases s.len(),
{
    if s.len() == 0 {
        seq![Seq::<char>::empty()]
    } else if s[0] == ':' {
        seq![Seq::<char>::empty()] + spec_split_colon(s.drop_first())
    } else {
        let rest = spec_split_colon(s.drop_first());
        seq![seq![s[0]] + rest[0]] + rest.drop_first()
    }
}

/// The segments joined with `:` between them.
pub open spec fn spec_join_colon(pieces: Seq<Seq<char>>) -> Seq<char>
    decreases pieces.len(),
{
    if pieces.len() == 0 {
        Seq::empty()
    } else if pieces.len() == 1 {
        pieces[0]
    } else {
        pieces[0] + seq![':'] + spec_join_colon(pieces.drop_first())
    }
}

pub proof fn lemma_split_colon_len(s: Seq<char>)
    ensures
        spec_split_colon(s).len() >= 1,
    decreases s.len(),
{
    if s.len() != 0 {
        lemma_split_colon_len(s.drop_first());
    }
}

/// No segment of a split contains a `:`.
pub proof fn lemma_split_colon_free(s: Seq<char>)
    ensures
        forall|k: int, j: int|
            0 <= k < spec_split_colon(s).len() && 0 <= j < spec_split_colon(s)[k].len()
                ==> spec_split_colon(s)[k][j] != ':',
    decreases s.len(),
{
    if s.len() != 0 {
        lemma_split_colon_free(s.drop_first());
        lemma_split_colon_len(s.drop_first());
    }
}

/// A string without `:` splits into itself as its only segment.
pub proof fn lemma_split_colon_free_id(p: Seq<char>)
    requires
        forall|j: int| 0 <= j < p.len() ==> p[j] != ':',
    ensures
        spec_split_colon(p) == seq![p],
    decreases p.len(),
{
    if p.len() == 0 {
        assert(spec_split_colon(p) =~~= seq![p]);
    } else {
        assert forall|j: int| 0 <= j < p.drop_first().len() implies p.drop_first()[j] != ':' by {
            assert(p.drop_first()[j] == p[j + 1]);
        }
        lemma_split_colon_free_id(p.drop_first());
        assert(seq![p[0]] + p.drop_first() =~= p);
        assert(spec_split_colon(p) =~~= seq![p]);
    }
}

/// Splitting after a colon-free prefix and a `:` yields that prefix as the
/// first segment, followed by the split of the remainder.
pub proof fn lemma_split_prepend(p: Seq<char>, t: Seq<char>)
    requires
        forall|j: int| 0 <= j < p.len() ==> p[j] != ':',
    ensures
        spec_split_colon(p + seq![':'] + t) == seq![p] + spec_split_colon(t),
    decreases p.len(),
{
    let s = p + seq![':'] + t;
    if p.len() == 0 {
        assert(s[0] == ':');
        assert(s.drop_first() =~= t);
        assert(p =~= Seq::<char>::empty());
        assert(spec_split_colon(s) =~~= seq![p] + spec_split_colon(t));
    } else {
        assert(s[0] == p[0]);
        assert(s.drop_first() =~= p.drop_first() + seq![':'] + t);
        assert forall|j: int| 0 <= j < p.drop_first().len() implies p.drop_first()[j] != ':' by {
            assert(p.drop_first()[j] == p[j + 1]);
        }
        lemma_split_prepend(p.drop_first(), t);
        lemma_split_colon_len(t);
        let rest = spec_split_colon(s.drop_first());
        assert(rest[0] == p.drop_first());
        assert(rest.drop_first() =~= spec_split_colon(t));
        assert(seq![s[0]] + rest[0] =~= p);
        assert(spec_split_colon(s) =~~= seq![p] + spec_split_colon(t));
    }
}

/// Joining colon-free segments and splitting again returns the segments.
pub proof fn lemma_join_then_split(pieces: Seq<Seq<char>>)
    requires
        pieces.len() >= 1,
        forall|k: int, j: int|
            0 <= k < pieces.len() && 0 <= j < pieces[k].len() ==> pieces[k][j] != ':',
    ensures
        spec_split_colon(spec_join_colon(pieces)) == pieces,
    decreases pieces.len(),
{
    if pieces.len() == 1 {
        lemma_split_colon_free_id(pieces[0]);
        assert(spec_join_colon(pieces) == pieces[0]);
        assert(spec_split_colon(spec_join_colon(pieces)) =~= pieces);
    } else {
        let d = pieces.drop_first();
        assert forall|k: int, j: int|
            0 <= k < d.len() && 0 <= j < d[k].len() implies d[k][j] != ':' by {
            assert(d[k] == pieces[k + 1]);
        }
        lemma_join_then_split(d);
        lemma_split_prepend(pieces[0], spec_join_colon(d));
        assert(spec_join_colon(pieces) == pieces[0] + seq![':'] + spec_join_colon(d));
        assert(spec_split_colon(spec_join_colon(pieces)) =~= pieces);
    }
}

/// Splits `s` on `:` into owned segments.
pub fn split_colon(s: &str) -> (r: Vec<String>)
    ensures
        views_of(r@) == spec_split_colon(s@),
        r@.len() >= 1,
    decreases s@.len(),
{
    let n = s.unicode_len();
    if n == 0 {
        let mut r: Vec<String> = Vec::new();
        r.push(String::new());
        proof {
            assert(views_of(r@) =~= spec_split_colon(s@));
        }
        r
    } else {
        let c = s.get_char(0);
        let rest = s.substring_char(1, n);
        proof {
            assert(rest@ =~= s@.drop_first());
        }
        let mut r = split_colon(rest);
        if c == ':' {
            r.insert(0, String::new());
            proof {
                assert(views_of(r@) =~= spec_split_colon(s@));
            }
            r
        } else {
            let head = s.substring_char(0, 1);
            let tail0 = r.remove(0);
            let mut first = String::from_str(head);
            first.append(tail0.as_str());
            r.insert(0, first);
            proof {
                lemma_split_colon_len(s@.drop_first());
                assert(head@ =~= seq![s@[0]]);
                assert(views_of(r@) =~= spec_split_colon(s@));
            }
            r
        }
    }
}

/// Joins the segments with `:` between them.
pub fn join_colon(v: &Vec<String>) -> (r: String)
    ensures
        r@ == spec_join_colon(views_of(v@)),
{
    let len = v.len();
    if len == 0 {
        return String::new();
    }
    let mut res: String = v[len - 1].clone();
    proof {
        assert(views_of(v@).skip(len - 1) =~= seq![v@[len - 1]@]);
    }
    let mut i: usize = len - 1;
    while i > 0
        invariant
            i < len,
            len == v@.len(),
            res@ == spec_join_colon(views_of(v@).skip(i as int)),
        decreases i,
    {
        let mut t = v[i - 1].clone();
        t.append(":");
        t.append(res.as_str());
        proof {
            reveal_strlit(":");
            assert(":"@ =~= seq![':']);
            let vs = views_of(v@);
            assert(vs.skip(i - 1).drop_first() =~= vs.skip(i as int));
            assert(vs.skip(i - 1)[0] == v@[i - 1]@);
            assert(vs.skip(i - 1).len() == len - i + 1);
        }
        res = t;
        i -= 1;
    }
    proof {
        assert(views_of(v@).skip(0) =~= views_of(v@));
    }
    res
}

} // verus!
