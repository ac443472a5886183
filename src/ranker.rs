//! Fuzzy ranking of catalog entries against a query.
use crate::catalog::{names_of, Session};
use vstd::prelude::*;
use vstd::string::*;

verus! {

/// The score that the skim fuzzy matcher gives `pattern` against `choice`, or
/// `None` where `pattern` does not match.
pub uninterp spec fn skim_score(choice: Seq<char>, pattern: Seq<char>) -> Option<i64>;

/// Relies on fuzzy_matcher's `SkimMatcherV2::fuzzy_match`, with the default
/// (smart case) matcher: its result depends on the two strings alone.
#[verifier::external_body]
fn fuzzy_score(choice: &str, pattern: &str) -> (r: Option<i64>)
    ensures
        r == skim_score(choice@, pattern@),
{
    let matcher = fuzzy_matcher::skim::SkimMatcherV2::default();
    fuzzy_matcher::FuzzyMatcher::fuzzy_match(&matcher, choice, pattern)
}

/// The score of each name against `query`, in catalog order.
pub open spec fn scores_of(names: Seq<Seq<char>>, query: Seq<char>) -> Seq<Option<i64>> {
    Seq::new(names.len(), |i: int| skim_score(names[i], query))
}

/// Entry `a` goes before entry `b`: a higher score, or the same score and an
/// earlier place in the catalog.
pub open spec fn ranks_before(scores: Seq<Option<i64>>, a: int, b: int) -> bool {
    let sa = scores[a].unwrap();
    let sb = scores[b].unwrap();
    sa > sb || (sa == sb && a < b)
}

/// `r` lists exactly the entries that have a score, by descending score, ties
/// in catalog order.
pub open spec fn is_ranking(scores: Seq<Option<i64>>, r: Seq<usize>) -> bool {
    &&& forall|k: int| 0 <= k < r.len() ==> #[trigger] r[k] < scores.len() && scores[r[k] as int] is Some
    &&& forall|i: int|
        0 <= i < scores.len() && #[trigger] scores[i] is Some ==> exists|k: int|
            0 <= k < r.len() && r[k] == i
    &&& forall|j: int, k: int|
        0 <= j < k < r.len() ==> ranks_before(scores, #[trigger] r[j] as int, #[trigger] r[k] as int)
}

/// The identity order `0, 1, ..., n - 1`.
pub open spec fn identity(n: nat) -> Seq<usize> {
    Seq::new(n, |i: int| i as usize)
}

/// What the ranker returns for `query` over a catalog with these names.
pub open spec fn ranked(names: Seq<Seq<char>>, query: Seq<char>, r: Seq<usize>) -> bool {
    if query.len() == 0 {
        r == identity(names.len())
    } else {
        is_ranking(scores_of(names, query), r)
    }
}

/// The indices `0..n` in order.
pub fn identity_order(n: usize) -> (r: Vec<usize>)
    ensures
        r@ == identity(n as nat),
{
    let mut r: Vec<usize> = Vec::new();
    for i in 0..n
        invariant
            r@ == identity(i as nat),
    {
        r.push(i);
        assert(r@ =~= identity((i + 1) as nat));
    }
    r
}

/// Entry `i` has a score of at least `s`.
fn scored_at_least(scores: &Vec<Option<i64>>, i: usize, s: i64) -> (r: bool)
    requires
        i < scores@.len(),
    ensures
        r == (scores@[i as int] is Some && scores@[i as int].unwrap() >= s),
{
    match scores[i] {
        Some(v) => v >= s,
        None => false,
    }
}

/// Orders the indices that have a score by descending score; equal scores keep
/// their relative order.
pub fn order_by_score(scores: &Vec<Option<i64>>) -> (r: Vec<usize>)
    ensures
        is_ranking(scores@, r@),
{
    let ghost sc = scores@;
    let mut r: Vec<usize> = Vec::new();
    for i in 0..scores.len()
        invariant
            sc == scores@,
            forall|k: int| 0 <= k < r.len() ==> #[trigger] r@[k] < i && sc[r@[k] as int] is Some,
            forall|t: int|
                0 <= t < i && #[trigger] sc[t] is Some ==> exists|k: int|
                    0 <= k < r.len() && r@[k] == t,
            forall|j: int, k: int|
                0 <= j < k < r.len() ==> ranks_before(sc, #[trigger] r@[j] as int, #[trigger] r@[k] as int),
    {
        if let Some(s) = scores[i] {
            let mut p: usize = 0;
            while p < r.len() && scored_at_least(scores, r[p], s)
                invariant
                    sc == scores@,
                    i < sc.len(),
                    p <= r.len(),
                    forall|k: int| 0 <= k < r.len() ==> #[trigger] r@[k] < i && sc[r@[k] as int] is Some,
                    forall|t: int| 0 <= t < p ==> sc[#[trigger] r@[t] as int].unwrap() >= s,
                decreases r.len() - p,
            {
                p = p + 1;
            }
            proof {
                if p < r.len() {
                    assert forall|t: int| p <= t < r.len() implies sc[#[trigger] r@[t] as int].unwrap() < s by {
                        if t > p {
                            assert(ranks_before(sc, r@[p as int] as int, r@[t] as int));
                        }
                    }
                }
            }
            let ghost old_r = r@;
            r.insert(p, i);
            assert(r@ == old_r.insert(p as int, i));
            assert forall|t: int| 0 <= t <= i && #[trigger] sc[t] is Some implies exists|k: int|
                0 <= k < r.len() && r@[k] == t by {
                if t == i {
                    assert(r@[p as int] == t);
                } else {
                    let k0 = choose|k: int| 0 <= k < old_r.len() && old_r[k] == t;
                    if k0 < p {
                        assert(r@[k0] == t);
                    } else {
                        assert(r@[k0 + 1] == t);
                    }
                }
            }
            assert forall|j: int, k: int| 0 <= j < k < r.len() implies ranks_before(
                sc,
                #[trigger] r@[j] as int,
                #[trigger] r@[k] as int,
            ) by {
                if j < p && k < p {
                    assert(ranks_before(sc, old_r[j] as int, old_r[k] as int));
                } else if j < p && k > p {
                    assert(ranks_before(sc, old_r[j] as int, old_r[k - 1] as int));
                } else if j > p {
                    assert(ranks_before(sc, old_r[j - 1] as int, old_r[k - 1] as int));
                } else if j == p {
                    assert(sc[old_r[k - 1] as int].unwrap() < s);
                } else {
                    assert(sc[old_r[j] as int].unwrap() >= s);
                }
            }
        }
    }
    r
}

/// Ranks a catalog against `query`: the whole catalog in order for an empty
/// query, else the entries whose names match, best score first.
pub fn rank(catalog: &Vec<Session>, query: &str) -> (r: Vec<usize>)
    ensures
        ranked(names_of(catalog@), query@, r@),
{
    if query.unicode_len() == 0 {
        return identity_order(catalog.len());
    }
    let mut scores: Vec<Option<i64>> = Vec::new();
    for i in 0..catalog.len()
        invariant
            scores@ == scores_of(names_of(catalog@), query@).take(i as int),
    {
        let s = fuzzy_score(catalog[i].name.as_str(), query);
        scores.push(s);
        assert(scores@ =~= scores_of(names_of(catalog@), query@).take(i + 1));
    }
    assert(scores@ =~= scores_of(names_of(catalog@), query@));
    order_by_score(&scores)
}

} // verus!
