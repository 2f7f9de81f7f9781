use vstd::prelude::*;

use fuzzy_matcher::skim::SkimMatcherV2;
use fuzzy_matcher::FuzzyMatcher;

verus! {

/// `pos` places each character of `p`, in order, on an equal character of `s`.
pub open spec fn embeds(p: Seq<char>, s: Seq<char>, pos: Seq<int>) -> bool {
    &&& pos.len() == p.len()
    &&& forall|k: int| 0 <= k < pos.len() ==> 0 <= #[trigger] pos[k] < s.len() && s[pos[k]] == p[k]
    &&& forall|k: int, l: int| 0 <= k < l < pos.len() ==> #[trigger] pos[k] < #[trigger] pos[l]
}

/// Every character of `p` appears in `s`, in order, not necessarily contiguously.
pub open spec fn is_subsequence(p: Seq<char>, s: Seq<char>) -> bool {
    exists|pos: Seq<int>| embeds(p, s, pos)
}

/// The skim score of `pattern` against `choice`, matched case-sensitively.
pub uninterp spec fn skim_score(choice: Seq<char>, pattern: Seq<char>) -> Option<i64>;

/// Relies on fuzzy_matcher's `SkimMatcherV2::fuzzy_match`, with case respected:
/// it scores a match exactly when the pattern is a subsequence of the choice
/// (its `cheap_matches` pre-check), and gives `Some(0)` to an empty pattern.
#[verifier::external_body]
fn skim_match(choice: &str, pattern: &str) -> (r: Option<i64>)
    ensures
        r == skim_score(choice@, pattern@),
        r is Some <==> is_subsequence(pattern@, choice@),
        pattern@.len() == 0 ==> r == Some(0i64),
{
    SkimMatcherV2::default().respect_case().fuzzy_match(choice, pattern)
}

/// Candidate `i` matches the query.
pub open spec fn is_match(labels: Seq<String>, q: Seq<char>, i: int) -> bool {
    skim_score(labels[i]@, q) is Some
}

/// The score of candidate `i` against the query.
pub open spec fn score_of(labels: Seq<String>, q: Seq<char>, i: int) -> int {
    skim_score(labels[i]@, q)->0 as int
}

/// Candidate `a` is listed before candidate `b`: a higher score first, and
/// on equal scores the order in which the candidates were given.
pub open spec fn ranks_before(labels: Seq<String>, q: Seq<char>, a: int, b: int) -> bool {
    score_of(labels, q, a) > score_of(labels, q, b) || (score_of(labels, q, a) == score_of(
        labels,
        q,
        b,
    ) && a < b)
}

/// `r` lists the indices of exactly the candidates that match `q`, each
/// once, in ranking order; a candidate matches when its label holds `q` as a
/// subsequence.
pub open spec fn is_filter_result(labels: Seq<String>, q: Seq<char>, r: Seq<usize>) -> bool {
    &&& forall|k: int|
        0 <= k < r.len() ==> is_subsequence(q, #[trigger] labels[r[k] as int]@)
    &&& forall|i: int|
        0 <= i < labels.len() && is_subsequence(q, #[trigger] labels[i]@) ==> exists|k: int|
            0 <= k < r.len() && r[k] == i
    &&& forall|k: int| 0 <= k < r.len() ==> #[trigger] r[k] < labels.len() && is_match(labels, q, r[k] as int)
    &&& forall|i: int|
        0 <= i < labels.len() && #[trigger] is_match(labels, q, i) ==> exists|k: int|
            0 <= k < r.len() && r[k] == i
    &&& forall|k: int, l: int|
        0 <= k < l < r.len() ==> ranks_before(labels, q, #[trigger] r[k] as int, #[trigger] r[l] as int)
}

/// The indices `0 .. n` in order.
pub open spec fn all_indices(n: nat) -> Seq<usize> {
    Seq::new(n, |i: int| i as usize)
}

/// The candidates whose label contains `query` as a subsequence, as indices
/// into `labels`, best score first and otherwise in the order given.
pub fn fuzzy_filter(labels: &Vec<String>, query: &str) -> (r: Vec<usize>)
    ensures
        is_filter_result(labels@, query@, r@),
        query@.len() == 0 ==> r@ == all_indices(labels@.len()),
{
    let ghost q = query@;
    let ghost ls = labels@;
    let mut r: Vec<usize> = Vec::new();
    let mut scores: Vec<i64> = Vec::new();
    let mut i: usize = 0;
    while i < labels.len()
        invariant
            ls == labels@,
            q == query@,
            i <= labels.len(),
            r.len() == scores.len(),
            forall|k: int|
                0 <= k < r@.len() ==> #[trigger] r@[k] < i && is_match(ls, q, r@[k] as int)
                    && scores@[k] == score_of(ls, q, r@[k] as int) && is_subsequence(
                    q,
                    ls[r@[k] as int]@,
                ),
            forall|j: int|
                0 <= j < i && #[trigger] is_match(ls, q, j) ==> exists|k: int|
                    0 <= k < r@.len() && r@[k] == j,
            forall|j: int|
                0 <= j < i ==> (is_match(ls, q, j) <==> is_subsequence(q, #[trigger] ls[j]@)),
            forall|k: int, l: int|
                0 <= k < l < r@.len() ==> ranks_before(ls, q, #[trigger] r@[k] as int, #[trigger] r@[l] as int),
            q.len() == 0 ==> r@ == all_indices(i as nat) && forall|k: int|
                0 <= k < scores@.len() ==> #[trigger] scores@[k] == 0,
        decreases labels.len() - i,
    {
        let scored = skim_match(labels[i].as_str(), query);
        match scored {
            Some(s) => {
                let mut p: usize = 0;
                while p < scores.len() && scores[p] >= s
                    invariant
                        p <= scores.len(),
                        forall|k: int| 0 <= k < p ==> #[trigger] scores@[k] >= s,
                    decreases scores.len() - p,
                {
                    p = p + 1;
                }
                let ghost r0 = r@;
                let ghost s0 = scores@;
                proof {
                    r0.insert_ensures(p as int, i);
                    s0.insert_ensures(p as int, s);
                }
                r.insert(p, i);
                scores.insert(p, s);
                assert forall|k: int, l: int| 0 <= k < l < r@.len() implies ranks_before(
                    ls,
                    q,
                    #[trigger] r@[k] as int,
                    #[trigger] r@[l] as int,
                ) by {
                    if l == p {
                        assert(s0[k] >= s);
                    } else if k == p {
                        assert(s0[l - 1] < s) by {
                            if l - 1 > p {
                                assert(ranks_before(ls, q, r0[p as int] as int, r0[l - 1] as int));
                            }
                        }
                    } else if k < p && l > p {
                        assert(ranks_before(ls, q, r0[k] as int, r0[l - 1] as int));
                    } else if l < p {
                        assert(ranks_before(ls, q, r0[k] as int, r0[l] as int));
                    } else {
                        assert(ranks_before(ls, q, r0[k - 1] as int, r0[l - 1] as int));
                    }
                }
                assert forall|j: int|
                    0 <= j < i + 1 && #[trigger] is_match(ls, q, j) implies exists|k: int|
                    0 <= k < r@.len() && r@[k] == j by {
                    if j == i {
                        assert(r@[p as int] == j);
                    } else {
                        let k0 = choose|k: int| 0 <= k < r0.len() && r0[k] == j;
                        if k0 < p {
                            assert(r@[k0] == j);
                        } else {
                            assert(r@[k0 + 1] == j);
                        }
                    }
                }
                proof {
                    if q.len() == 0 {
                        assert(p == s0.len()) by {
                            if p < s0.len() {
                                assert(s0[p as int] == 0);
                            }
                        }
                        assert(r@ =~= all_indices((i + 1) as nat));
                    }
                }
            },
            None => {
                assert forall|j: int|
                    0 <= j < i + 1 && #[trigger] is_match(ls, q, j) implies exists|k: int|
                    0 <= k < r@.len() && r@[k] == j by {
                    if j == i {
                        assert(!is_match(ls, q, j));
                    }
                }
            },
        }
        i = i + 1;
    }
    assert forall|j: int|
        0 <= j < ls.len() && is_subsequence(q, #[trigger] ls[j]@) implies exists|k: int|
        0 <= k < r@.len() && r@[k] == j by {
        assert(is_match(ls, q, j));
    }
    r
}

} // verus!
