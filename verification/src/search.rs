//! Fuzzy subsequence matching of a search query against a command.
use vstd::prelude::*;
use crate::text::{chars_of, lower, lower_char, lower_char_exec, lower_chars, trim, trim_chars};

verus! {

/// `idx` picks, in increasing order, a position of `t` for each character of `q`
/// that holds that character.
pub open spec fn embeds(idx: Seq<int>, q: Seq<char>, t: Seq<char>) -> bool {
    &&& idx.len() == q.len()
    &&& forall|i: int| 0 <= i < idx.len() ==> 0 <= #[trigger] idx[i] < t.len() && t[idx[i]] == q[i]
    &&& forall|i: int, j: int| 0 <= i < j < idx.len() ==> idx[i] < idx[j]
}

/// The characters of `q` occur in `t` in order, not necessarily next to each other.
pub open spec fn is_subsequence(q: Seq<char>, t: Seq<char>) -> bool {
    exists|idx: Seq<int>| embeds(idx, q, t)
}

/// The query, trimmed and in ASCII lower case, is a subsequence of the target in ASCII lower case.
pub open spec fn fuzzy_matches(query: Seq<char>, target: Seq<char>) -> bool {
    is_subsequence(lower(trim(query)), lower(target))
}

/// Each position in `idx` is the first one after the previous (from the start for the first)
/// that holds its character of `q`: the positions that matching earliest gives.
pub open spec fn earliest(idx: Seq<int>, q: Seq<char>, t: Seq<char>) -> bool {
    forall|i: int, p: int|
        0 <= i < idx.len() && (if i == 0 {
            0
        } else {
            idx[i - 1] + 1
        }) <= p < idx[i] ==> #[trigger] t[p] != #[trigger] q[i]
}

/// Greedy matching of `q` (already normalised) against `target`, lowering each target character:
/// the positions of the earliest match, or `None` when `q` is not a subsequence.
fn greedy_indices(q: &Vec<char>, target: &Vec<char>) -> (res: Option<Vec<usize>>)
    ensures
        res is Some <==> is_subsequence(q@, lower(target@)),
        res matches Some(v) ==> embeds(v@.map_values(|x: usize| x as int), q@, lower(target@)),
        res matches Some(v) ==> earliest(v@.map_values(|x: usize| x as int), q@, lower(target@)),
{
    let ghost lt = lower(target@);
    let mut found: Vec<usize> = Vec::new();
    let mut qi: usize = 0;
    let mut ti: usize = 0;
    while ti < target.len() && qi < q.len()
        invariant
            lt == lower(target@),
            qi <= q@.len(),
            ti <= target@.len(),
            found@.len() == qi,
            embeds(found@.map_values(|x: usize| x as int), q@.take(qi as int), lt),
            forall|i: int| 0 <= i < qi ==> #[trigger] found@[i] < ti,
            earliest(found@.map_values(|x: usize| x as int), q@.take(qi as int), lt),
            qi < q@.len() ==> forall|p: int|
                (if qi == 0 {
                    0
                } else {
                    found@[qi - 1] + 1
                }) <= p < ti ==> #[trigger] lt[p] != q@[qi as int],
            qi > 0 ==> found@[qi - 1] < ti,
            qi < q@.len() ==> forall|e: Seq<int>|
                #[trigger] embeds(e, q@, lt) ==> e[qi as int] >= ti,
        decreases target@.len() - ti,
    {
        let c = lower_char_exec(target[ti]);
        assert(lt[ti as int] == c);
        if c == q[qi] {
            let ghost old_found = found@;
            found.push(ti);
            proof {
                let f = found@.map_values(|x: usize| x as int);
                let of = old_found.map_values(|x: usize| x as int);
                assert(f == of.push(ti as int));
                assert(q@.take(qi + 1) == q@.take(qi as int).push(q@[qi as int]));
                assert forall|i: int| 0 <= i < f.len() implies 0 <= #[trigger] f[i] < lt.len()
                    && lt[f[i]] == q@.take(qi + 1)[i] by {
                    if i < qi {
                        assert(f[i] == of[i]);
                    }
                }
                assert forall|i: int, j: int| 0 <= i < j < f.len() implies f[i] < f[j] by {
                    if j < qi {
                        assert(f[i] == of[i] && f[j] == of[j]);
                    } else {
                        assert(f[i] == found@[i] as int);
                    }
                }
                if qi + 1 < q@.len() {
                    assert forall|e: Seq<int>| #[trigger] embeds(e, q@, lt) implies e[qi + 1] >= ti
                        + 1 by {
                        assert(e[qi as int] < e[qi + 1]);
                    }
                }
            }
            qi = qi + 1;
        } else {
            proof {
                assert forall|e: Seq<int>| #[trigger] embeds(e, q@, lt) implies e[qi as int] >= ti
                    + 1 by {
                    assert(lt[e[qi as int]] == q@[qi as int]);
                }
            }
        }
        ti = ti + 1;
    }
    if qi == q.len() {
        assert(q@.take(qi as int) == q@);
        Some(found)
    } else {
        proof {
            assert forall|e: Seq<int>| !embeds(e, q@, lt) by {
                if embeds(e, q@, lt) {
                    assert(e[qi as int] < lt.len());
                }
            }
        }
        None
    }
}

/// `query` (trimmed, ASCII case ignored) occurs in `target` as a subsequence: its characters
/// appear there in order, not necessarily next to each other. An empty query matches everything.
pub fn is_fuzzy_subsequence(query: &str, target: &str) -> (res: bool)
    ensures
        res == fuzzy_matches(query@, target@),
{
    let q = lower_chars(&trim_chars(&chars_of(query)));
    let t = chars_of(target);
    greedy_indices(&q, &t).is_some()
}

/// The positions in `target` (counted in characters) that a fuzzy match of `query` uses, taking
/// each query character at its earliest possible place; `None` when `query` does not match.
pub fn fuzzy_match_indices(query: &str, target: &str) -> (res: Option<Vec<usize>>)
    ensures
        res is Some <==> fuzzy_matches(query@, target@),
        res matches Some(v) ==> embeds(
            v@.map_values(|x: usize| x as int),
            lower(trim(query@)),
            lower(target@),
        ),
        res matches Some(v) ==> earliest(
            v@.map_values(|x: usize| x as int),
            lower(trim(query@)),
            lower(target@),
        ),
{
    let q = lower_chars(&trim_chars(&chars_of(query)));
    let t = chars_of(target);
    greedy_indices(&q, &t)
}

} // verus!

verus! {

/// A query that is empty once trimmed matches every command.
pub proof fn lemma_blank_query_matches_all(query: Seq<char>, target: Seq<char>)
    requires
        trim(query).len() == 0,
    ensures
        fuzzy_matches(query, target),
{
    let e = Seq::<int>::empty();
    assert(embeds(e, lower(trim(query)), lower(target)));
}

/// A query that occurs as one contiguous piece of the command (ignoring ASCII case) matches it.
pub proof fn lemma_substring_matches(query: Seq<char>, target: Seq<char>)
    requires
        crate::text::contains(lower(target), lower(trim(query))),
    ensures
        fuzzy_matches(query, target),
{
    let q = lower(trim(query));
    let t = lower(target);
    let i = choose|i: int| crate::text::occurs_at(t, q, i);
    let e = Seq::new(q.len(), |j: int| i + j);
    assert forall|j: int| 0 <= j < e.len() implies 0 <= #[trigger] e[j] < t.len() && t[e[j]] == q[j] by {
        assert(t.subrange(i, i + q.len())[j] == t[i + j]);
    }
    assert(embeds(e, q, t));
}

/// A command that matches keeps matching with text added before and after it.
pub proof fn lemma_match_survives_extension(
    query: Seq<char>,
    target: Seq<char>,
    before: Seq<char>,
    after: Seq<char>,
)
    requires
        fuzzy_matches(query, target),
    ensures
        fuzzy_matches(query, before + target + after),
{
    let q = lower(trim(query));
    let t = lower(target);
    let big = before + target + after;
    let lb = lower(big);
    let e = choose|e: Seq<int>| embeds(e, q, t);
    let f = Seq::new(e.len(), |j: int| e[j] + before.len());
    assert forall|j: int| 0 <= j < f.len() implies 0 <= #[trigger] f[j] < lb.len() && lb[f[j]] == q[j] by {
        assert(big[e[j] + before.len()] == target[e[j]]);
    }
    assert forall|i: int, j: int| 0 <= i < j < f.len() implies f[i] < f[j] by {
        assert(e[i] < e[j]);
    }
    assert(embeds(f, q, lb));
}

pub proof fn lemma_lower_idempotent(s: Seq<char>)
    ensures
        lower(lower(s)) == lower(s),
{
    assert(lower(lower(s)) =~= lower(s));
}

/// ASCII case of the command does not matter.
pub proof fn lemma_target_case_ignored(query: Seq<char>, target: Seq<char>)
    ensures
        fuzzy_matches(query, lower(target)) == fuzzy_matches(query, target),
{
    lemma_lower_idempotent(target);
}

proof fn lemma_lower_ws(c: char)
    ensures
        crate::text::is_ws(crate::text::lower_char(c)) == crate::text::is_ws(c),
        crate::text::lower_char(crate::text::lower_char(c)) == crate::text::lower_char(c),
{
}

proof fn lemma_trim_start_lower(s: Seq<char>)
    ensures
        crate::text::trim_start(lower(s)) == lower(crate::text::trim_start(s)),
    decreases s.len(),
{
    if s.len() > 0 {
        lemma_lower_ws(s[0]);
        if crate::text::is_ws(s[0]) {
            assert(lower(s).drop_first() == lower(s.drop_first()));
            lemma_trim_start_lower(s.drop_first());
        }
    }
}

proof fn lemma_trim_end_lower(s: Seq<char>)
    ensures
        crate::text::trim_end(lower(s)) == lower(crate::text::trim_end(s)),
    decreases s.len(),
{
    if s.len() > 0 {
        lemma_lower_ws(s.last());
        if crate::text::is_ws(s.last()) {
            assert(lower(s).drop_last() == lower(s.drop_last()));
            lemma_trim_end_lower(s.drop_last());
        }
    }
}

/// ASCII case of the query does not matter.
pub proof fn lemma_query_case_ignored(query: Seq<char>, target: Seq<char>)
    ensures
        fuzzy_matches(lower(query), target) == fuzzy_matches(query, target),
{
    lemma_trim_start_lower(query);
    lemma_trim_end_lower(crate::text::trim_start(query));
    lemma_lower_idempotent(trim(query));
}

} // verus!
