//! Fuzzy matching of a query against the catalog's display names.
//!
//! A candidate must hold the query's characters in order, ASCII letters compared
//! without regard to case. The candidates are then scored and ranked by
//! nucleo's pattern matcher: higher scores first, equal scores in catalog order.
use vstd::prelude::*;
use nucleo_matcher::pattern::{CaseMatching, Normalization, Pattern};
use nucleo_matcher::{Config, Matcher};

verus! {

/// The score that nucleo's pattern, parsed from `query` with case ignored and
/// smart normalization, gives to `name` under the default configuration;
/// `None` when the pattern does not match the name.
pub uninterp spec fn pattern_score(query: Seq<char>, name: Seq<char>) -> Option<u32>;

/// The text of each string in a sequence.
pub open spec fn texts(v: Seq<String>) -> Seq<Seq<char>> {
    v.map_values(|s: String| s@)
}

/// A character with ASCII upper-case letters folded to lower case.
pub open spec fn fold_ascii(c: char) -> int {
    let v = c as u32;
    if 65 <= v && v <= 90 {
        v + 32
    } else {
        v as int
    }
}

/// `query`'s characters occur in `name` in order, not necessarily next to each
/// other, comparing folded characters.
pub open spec fn is_ci_subsequence(query: Seq<char>, name: Seq<char>) -> bool
    decreases name.len(),
{
    if query.len() == 0 {
        true
    } else if name.len() == 0 {
        false
    } else if fold_ascii(query[0]) == fold_ascii(name[0]) {
        is_ci_subsequence(query.drop_first(), name.drop_first())
    } else {
        is_ci_subsequence(query, name.drop_first())
    }
}

/// The names of `catalog` that hold `query` as a subsequence, in catalog order.
pub open spec fn candidates(query: Seq<char>, catalog: Seq<Seq<char>>) -> Seq<Seq<char>>
    decreases catalog.len(),
{
    if catalog.len() == 0 {
        seq![]
    } else {
        let rest = candidates(query, catalog.drop_last());
        if is_ci_subsequence(query, catalog.last()) {
            rest.push(catalog.last())
        } else {
            rest
        }
    }
}

/// A scored item: its name, its score and its position in the scored list.
pub type Scored = (Seq<char>, u32, int);

/// The items that the pattern scores, with their scores and positions, in
/// input order.
pub open spec fn scored(query: Seq<char>, items: Seq<Seq<char>>) -> Seq<Scored>
    decreases items.len(),
{
    if items.len() == 0 {
        seq![]
    } else {
        let rest = scored(query, items.drop_last());
        match pattern_score(query, items.last()) {
            Some(s) => rest.push((items.last(), s, items.len() - 1)),
            None => rest,
        }
    }
}

/// Places `x` after every entry of `sorted` whose score is at least its own.
pub open spec fn insert_by_score(sorted: Seq<Scored>, x: Scored) -> Seq<Scored>
    decreases sorted.len(),
{
    if sorted.len() == 0 {
        seq![x]
    } else if sorted.last().1 >= x.1 {
        sorted.push(x)
    } else {
        insert_by_score(sorted.drop_last(), x).push(sorted.last())
    }
}

/// A stable sort by descending score.
pub open spec fn sort_by_score(s: Seq<Scored>) -> Seq<Scored>
    decreases s.len(),
{
    if s.len() == 0 {
        s
    } else {
        insert_by_score(sort_by_score(s.drop_last()), s.last())
    }
}

/// The names that the pattern scores, best first, equal scores in input order.
pub open spec fn ranked(query: Seq<char>, items: Seq<Seq<char>>) -> Seq<Seq<char>> {
    sort_by_score(scored(query, items)).map_values(|e: Scored| e.0)
}

/// What the launcher shows for `query`: nothing for an empty query, else the
/// ranked candidates.
pub open spec fn fuzzy_match_spec(query: Seq<char>, catalog: Seq<Seq<char>>) -> Seq<Seq<char>> {
    if query.len() == 0 {
        seq![]
    } else {
        ranked(query, candidates(query, catalog))
    }
}

/// Every entry of `s` satisfies `p`.
pub open spec fn all_entries(s: Seq<Scored>, p: spec_fn(Scored) -> bool) -> bool {
    forall|k: int| 0 <= k < s.len() ==> #[trigger] p(s[k])
}

/// Entries are ordered by descending score, equal scores by ascending position.
pub open spec fn ordered(s: Seq<Scored>) -> bool {
    forall|a: int, b: int|
        0 <= a < b < s.len() ==> #[trigger] s[a].1 > #[trigger] s[b].1 || (s[a].1 == s[b].1 && s[a].2
            < s[b].2)
}

proof fn lemma_insert_keeps(sorted: Seq<Scored>, x: Scored, p: spec_fn(Scored) -> bool)
    requires
        all_entries(sorted, p),
        p(x),
    ensures
        all_entries(insert_by_score(sorted, x), p),
        insert_by_score(sorted, x).len() == sorted.len() + 1,
    decreases sorted.len(),
{
    if sorted.len() == 0 {
        assert(insert_by_score(sorted, x) =~= seq![x]);
    } else if sorted.last().1 >= x.1 {
    } else {
        let rest = sorted.drop_last();
        lemma_insert_keeps(rest, x, p);
        let r = insert_by_score(rest, x).push(sorted.last());
        assert forall|k: int| 0 <= k < r.len() implies #[trigger] p(r[k]) by {
            if k < r.len() - 1 {
                assert(p(insert_by_score(rest, x)[k]));
            } else {
                assert(p(sorted[sorted.len() - 1]));
            }
        }
    }
}

proof fn lemma_sort_keeps(s: Seq<Scored>, p: spec_fn(Scored) -> bool)
    requires
        all_entries(s, p),
    ensures
        all_entries(sort_by_score(s), p),
        sort_by_score(s).len() == s.len(),
    decreases s.len(),
{
    if s.len() > 0 {
        let rest = s.drop_last();
        assert(all_entries(rest, p)) by {
            assert forall|k: int| 0 <= k < rest.len() implies #[trigger] p(rest[k]) by {
                assert(p(s[k]));
            }
        }
        lemma_sort_keeps(rest, p);
        assert(p(s[s.len() - 1]));
        lemma_insert_keeps(sort_by_score(rest), s.last(), p);
    }
}

proof fn lemma_insert_ordered(sorted: Seq<Scored>, x: Scored)
    requires
        ordered(sorted),
        forall|k: int| 0 <= k < sorted.len() ==> #[trigger] sorted[k].2 < x.2,
    ensures
        ordered(insert_by_score(sorted, x)),
    decreases sorted.len(),
{
    if sorted.len() == 0 {
        assert(insert_by_score(sorted, x) =~= seq![x]);
    } else if sorted.last().1 >= x.1 {
        let r = sorted.push(x);
        let n = sorted.len() - 1;
        assert forall|a: int, b: int| 0 <= a < b < r.len() implies #[trigger] r[a].1 > #[trigger] r[b].1 || (
        r[a].1 == r[b].1 && r[a].2 < r[b].2) by {
            if b < sorted.len() {
                assert(sorted[a].1 > sorted[b].1 || (sorted[a].1 == sorted[b].1 && sorted[a].2 < sorted[b].2));
            } else {
                assert(sorted[a].2 < x.2);
                if a < n {
                    assert(sorted[a].1 > sorted[n].1 || (sorted[a].1 == sorted[n].1 && sorted[a].2 < sorted[n].2));
                }
            }
        }
    } else {
        let rest = sorted.drop_last();
        let last = sorted.last();
        let n = sorted.len() - 1;
        assert(ordered(rest)) by {
            assert forall|a: int, b: int| 0 <= a < b < rest.len() implies #[trigger] rest[a].1 > #[trigger] rest[b].1
                || (rest[a].1 == rest[b].1 && rest[a].2 < rest[b].2) by {
                assert(sorted[a].1 > sorted[b].1 || (sorted[a].1 == sorted[b].1 && sorted[a].2 < sorted[b].2));
            }
        }
        assert forall|k: int| 0 <= k < rest.len() implies #[trigger] rest[k].2 < x.2 by {
            assert(sorted[k].2 < x.2);
        }
        lemma_insert_ordered(rest, x);
        let p = |e: Scored| e.1 > last.1 || (e.1 == last.1 && e.2 < last.2);
        assert forall|k: int| 0 <= k < rest.len() implies #[trigger] p(rest[k]) by {
            assert(sorted[k].1 > sorted[n].1 || (sorted[k].1 == sorted[n].1 && sorted[k].2 < sorted[n].2));
        }
        lemma_insert_keeps(rest, x, p);
        let mid = insert_by_score(rest, x);
        let r = mid.push(last);
        assert forall|a: int, b: int| 0 <= a < b < r.len() implies #[trigger] r[a].1 > #[trigger] r[b].1 || (
        r[a].1 == r[b].1 && r[a].2 < r[b].2) by {
            if b < mid.len() {
                assert(mid[a].1 > mid[b].1 || (mid[a].1 == mid[b].1 && mid[a].2 < mid[b].2));
            } else {
                assert(p(mid[a]));
            }
        }
    }
}

proof fn lemma_sort_ordered(s: Seq<Scored>)
    requires
        forall|a: int, b: int| 0 <= a < b < s.len() ==> #[trigger] s[a].2 < #[trigger] s[b].2,
    ensures
        ordered(sort_by_score(s)),
    decreases s.len(),
{
    if s.len() > 0 {
        let rest = s.drop_last();
        let x = s.last();
        assert forall|a: int, b: int| 0 <= a < b < rest.len() implies #[trigger] rest[a].2 < #[trigger] rest[b].2 by {
            assert(s[a].2 < s[b].2);
        }
        lemma_sort_ordered(rest);
        let p = |e: Scored| e.2 < x.2;
        assert forall|k: int| 0 <= k < rest.len() implies #[trigger] p(rest[k]) by {
            assert(s[k].2 < s[s.len() - 1].2);
        }
        lemma_sort_keeps(rest, p);
        let sr = sort_by_score(rest);
        assert forall|k: int| 0 <= k < sr.len() implies #[trigger] sr[k].2 < x.2 by {
            assert(p(sr[k]));
        }
        lemma_insert_ordered(sr, x);
    }
}

/// What each scored entry records: its name at its position, with the
/// pattern's score for it.
pub open spec fn entry_of(query: Seq<char>, items: Seq<Seq<char>>, e: Scored) -> bool {
    0 <= e.2 < items.len() && items[e.2] == e.0 && pattern_score(query, e.0) == Some(e.1)
}

proof fn lemma_scored(query: Seq<char>, items: Seq<Seq<char>>)
    ensures
        forall|k: int|
            0 <= k < scored(query, items).len() ==> entry_of(query, items, #[trigger] scored(query, items)[k]),
        forall|a: int, b: int|
            0 <= a < b < scored(query, items).len() ==> #[trigger] scored(query, items)[a].2
                < #[trigger] scored(query, items)[b].2,
    decreases items.len(),
{
    if items.len() > 0 {
        let rest = items.drop_last();
        lemma_scored(query, rest);
        let sr = scored(query, rest);
        let s = scored(query, items);
        assert forall|k: int| 0 <= k < s.len() implies entry_of(query, items, #[trigger] s[k]) by {
            if k < sr.len() {
                assert(entry_of(query, rest, sr[k]));
                assert(s[k] == sr[k]);
            }
        }
        assert forall|a: int, b: int| 0 <= a < b < s.len() implies #[trigger] s[a].2 < #[trigger] s[b].2 by {
            assert(entry_of(query, rest, sr[a]));
            if b < sr.len() {
                assert(sr[a].2 < sr[b].2);
            }
        }
    }
}

proof fn lemma_candidates_hold(query: Seq<char>, catalog: Seq<Seq<char>>)
    ensures
        forall|k: int|
            0 <= k < candidates(query, catalog).len() ==> is_ci_subsequence(
                query,
                #[trigger] candidates(query, catalog)[k],
            ),
    decreases catalog.len(),
{
    if catalog.len() > 0 {
        let rest = catalog.drop_last();
        lemma_candidates_hold(query, rest);
        let c = candidates(query, catalog);
        let cr = candidates(query, rest);
        assert forall|k: int| 0 <= k < c.len() implies is_ci_subsequence(query, #[trigger] c[k]) by {
            if k < cr.len() {
                assert(c[k] == cr[k]);
            }
        }
    }
}

proof fn lemma_candidate_in_catalog(query: Seq<char>, catalog: Seq<Seq<char>>, k: int)
    requires
        0 <= k < candidates(query, catalog).len(),
    ensures
        exists|i: int| 0 <= i < catalog.len() && catalog[i] == candidates(query, catalog)[k],
    decreases catalog.len(),
{
    let rest = catalog.drop_last();
    if k < candidates(query, rest).len() {
        lemma_candidate_in_catalog(query, rest, k);
        let i = choose|i: int| 0 <= i < rest.len() && rest[i] == candidates(query, rest)[k];
        assert(catalog[i] == candidates(query, catalog)[k]);
    } else {
        assert(catalog[catalog.len() - 1] == candidates(query, catalog)[k]);
    }
}

proof fn lemma_candidates_order(query: Seq<char>, catalog: Seq<Seq<char>>, a: int, b: int)
    requires
        0 <= a < b < candidates(query, catalog).len(),
    ensures
        exists|i: int, j: int|
            0 <= i < j < catalog.len() && catalog[i] == candidates(query, catalog)[a] && catalog[j]
                == candidates(query, catalog)[b],
    decreases catalog.len(),
{
    let rest = catalog.drop_last();
    let cr = candidates(query, rest);
    if b < cr.len() {
        lemma_candidates_order(query, rest, a, b);
        let (i, j) = choose|i: int, j: int|
            0 <= i < j < rest.len() && rest[i] == cr[a] && rest[j] == cr[b];
        assert(catalog[i] == candidates(query, catalog)[a] && catalog[j] == candidates(query, catalog)[b]);
    } else {
        lemma_candidate_in_catalog(query, rest, a);
        let i = choose|i: int| 0 <= i < rest.len() && rest[i] == cr[a];
        let j = catalog.len() - 1;
        assert(catalog[i] == candidates(query, catalog)[a] && catalog[j] == candidates(query, catalog)[b]);
    }
}

/// Every name that a non-empty query returns holds the query's characters in
/// order, ignoring ASCII case; a name that does not hold them is never returned.
pub proof fn lemma_matches_hold_query(query: Seq<char>, catalog: Seq<Seq<char>>)
    ensures
        forall|k: int|
            0 <= k < fuzzy_match_spec(query, catalog).len() ==> is_ci_subsequence(
                query,
                #[trigger] fuzzy_match_spec(query, catalog)[k],
            ),
        forall|n: Seq<char>|
            !is_ci_subsequence(query, n) ==> !(#[trigger] fuzzy_match_spec(query, catalog).contains(n)),
{
    if query.len() > 0 {
        let cand = candidates(query, catalog);
        let sc = scored(query, cand);
        lemma_scored(query, cand);
        lemma_candidates_hold(query, catalog);
        let p = |e: Scored| is_ci_subsequence(query, e.0);
        assert forall|k: int| 0 <= k < sc.len() implies #[trigger] p(sc[k]) by {
            assert(entry_of(query, cand, sc[k]));
            assert(is_ci_subsequence(query, cand[sc[k].2]));
        }
        lemma_sort_keeps(sc, p);
        let sorted = sort_by_score(sc);
        let r = fuzzy_match_spec(query, catalog);
        assert forall|k: int| 0 <= k < r.len() implies is_ci_subsequence(query, #[trigger] r[k]) by {
            assert(p(sorted[k]));
        }
    }
}

/// An empty query matches nothing, whatever the catalog.
pub proof fn lemma_empty_query_matches_nothing(catalog: Seq<Seq<char>>)
    ensures
        fuzzy_match_spec(seq![], catalog) == Seq::<Seq<char>>::empty(),
{
}

/// Matching the same query against the same catalog twice gives the same
/// names in the same order.
pub proof fn lemma_match_deterministic(
    query: Seq<char>,
    catalog: Seq<Seq<char>>,
    first: Seq<Seq<char>>,
    second: Seq<Seq<char>>,
)
    requires
        first == fuzzy_match_spec(query, catalog),
        second == fuzzy_match_spec(query, catalog),
    ensures
        first == second,
{
}

/// Every returned name has a score and stands in the catalog; scores descend
/// along the result; and a catalog without repeats gives a result without
/// repeats.
pub proof fn lemma_matches_ranked(query: Seq<char>, catalog: Seq<Seq<char>>)
    ensures
        forall|k: int|
            0 <= k < fuzzy_match_spec(query, catalog).len() ==> {
                &&& pattern_score(query, #[trigger] fuzzy_match_spec(query, catalog)[k]) is Some
                &&& catalog.contains(fuzzy_match_spec(query, catalog)[k])
            },
        forall|a: int, b: int|
            0 <= a < b < fuzzy_match_spec(query, catalog).len() ==> pattern_score(
                query,
                #[trigger] fuzzy_match_spec(query, catalog)[a],
            )->0 >= pattern_score(query, #[trigger] fuzzy_match_spec(query, catalog)[b])->0,
        catalog.no_duplicates() ==> fuzzy_match_spec(query, catalog).no_duplicates(),
{
    if query.len() > 0 {
        let cand = candidates(query, catalog);
        let sc = scored(query, cand);
        let r = fuzzy_match_spec(query, catalog);
        lemma_scored(query, cand);
        let p = |e: Scored| entry_of(query, cand, e);
        assert forall|k: int| 0 <= k < sc.len() implies #[trigger] p(sc[k]) by {
            assert(entry_of(query, cand, sc[k]));
        }
        lemma_sort_keeps(sc, p);
        lemma_sort_ordered(sc);
        let sorted = sort_by_score(sc);
        assert forall|k: int| 0 <= k < r.len() implies {
            &&& pattern_score(query, #[trigger] r[k]) is Some
            &&& catalog.contains(r[k])
        } by {
            assert(p(sorted[k]));
            lemma_candidate_in_catalog(query, catalog, sorted[k].2);
        }
        assert forall|a: int, b: int| 0 <= a < b < r.len() implies pattern_score(query, #[trigger] r[a])->0
            >= pattern_score(query, #[trigger] r[b])->0 by {
            assert(p(sorted[a]) && p(sorted[b]));
            assert(sorted[a].1 > sorted[b].1 || (sorted[a].1 == sorted[b].1 && sorted[a].2 < sorted[b].2));
        }
        if catalog.no_duplicates() {
            assert forall|a: int, b: int| 0 <= a < r.len() && 0 <= b < r.len() && a != b implies r[a]
                != r[b] by {
                let (x, y) = if a < b {
                    (a, b)
                } else {
                    (b, a)
                };
                assert(p(sorted[x]) && p(sorted[y]));
                assert(sorted[x].1 > sorted[y].1 || (sorted[x].1 == sorted[y].1 && sorted[x].2 < sorted[y].2));
                if sorted[x].2 == sorted[y].2 {
                    assert(sorted[x].0 == sorted[y].0);
                } else {
                    let (lo, hi) = if sorted[x].2 < sorted[y].2 {
                        (sorted[x].2, sorted[y].2)
                    } else {
                        (sorted[y].2, sorted[x].2)
                    };
                    lemma_candidates_order(query, catalog, lo, hi);
                    let (i, j) = choose|i: int, j: int|
                        0 <= i < j < catalog.len() && catalog[i] == cand[lo] && catalog[j] == cand[hi];
                    assert(catalog[i] != catalog[j]);
                }
            }
        }
    }
}

/// Of two returned names with equal scores, the one returned first stands
/// earlier in the catalog.
pub proof fn lemma_equal_scores_keep_catalog_order(
    query: Seq<char>,
    catalog: Seq<Seq<char>>,
    a: int,
    b: int,
)
    requires
        0 <= a < b < fuzzy_match_spec(query, catalog).len(),
        pattern_score(query, fuzzy_match_spec(query, catalog)[a]) == pattern_score(
            query,
            fuzzy_match_spec(query, catalog)[b],
        ),
    ensures
        exists|i: int, j: int|
            0 <= i < j < catalog.len() && catalog[i] == fuzzy_match_spec(query, catalog)[a]
                && catalog[j] == fuzzy_match_spec(query, catalog)[b],
{
    let cand = candidates(query, catalog);
    let sc = scored(query, cand);
    lemma_scored(query, cand);
    let p = |e: Scored| entry_of(query, cand, e);
    assert forall|k: int| 0 <= k < sc.len() implies #[trigger] p(sc[k]) by {
        assert(entry_of(query, cand, sc[k]));
    }
    lemma_sort_keeps(sc, p);
    lemma_sort_ordered(sc);
    let sorted = sort_by_score(sc);
    assert(p(sorted[a]) && p(sorted[b]));
    assert(sorted[a].1 > sorted[b].1 || (sorted[a].1 == sorted[b].1 && sorted[a].2 < sorted[b].2));
    lemma_candidates_order(query, catalog, sorted[a].2, sorted[b].2);
}

/// Relies on nucleo_matcher's `Pattern::parse` (case ignored, smart
/// normalization) and `Pattern::match_list` under `Config::DEFAULT`: the items
/// that the pattern scores, sorted stably by descending score.
#[verifier::external_body]
fn match_list(query: &str, items: &Vec<String>) -> (r: Vec<String>)
    ensures
        texts(r@) == ranked(query@, texts(items@)),
        forall|k: int| 0 <= k < r@.len() ==> pattern_score(query@, #[trigger] r@[k]@) is Some,
{
    let mut matcher = Matcher::new(Config::DEFAULT);
    Pattern::parse(query, CaseMatching::Ignore, Normalization::Smart)
        .match_list(items.iter(), &mut matcher)
        .into_iter()
        .map(|m| m.0.clone())
        .collect()
}

fn fold_ascii_exec(c: char) -> (r: u32)
    ensures
        r as int == fold_ascii(c),
{
    let v = c as u32;
    if 65 <= v && v <= 90 {
        v + 32
    } else {
        v
    }
}

/// Whether `query`'s characters occur in `name` in order, ASCII letters
/// compared without regard to case.
pub fn is_subsequence_ignoring_case(query: &str, name: &str) -> (r: bool)
    ensures
        r == is_ci_subsequence(query@, name@),
{
    let qn = query.unicode_len();
    let nn = name.unicode_len();
    let mut i: usize = 0;
    let mut j: usize = 0;
    assert(query@.subrange(0, qn as int) =~= query@);
    assert(name@.subrange(0, nn as int) =~= name@);
    while i < qn && j < nn
        invariant
            qn == query@.len(),
            nn == name@.len(),
            i <= qn,
            j <= nn,
            is_ci_subsequence(query@, name@) == is_ci_subsequence(
                query@.subrange(i as int, qn as int),
                name@.subrange(j as int, nn as int),
            ),
        decreases nn - j,
    {
        let ghost qs = query@.subrange(i as int, qn as int);
        let ghost ns = name@.subrange(j as int, nn as int);
        assert(qs.drop_first() =~= query@.subrange(i + 1, qn as int));
        assert(ns.drop_first() =~= name@.subrange(j + 1, nn as int));
        if fold_ascii_exec(query.get_char(i)) == fold_ascii_exec(name.get_char(j)) {
            i = i + 1;
        }
        j = j + 1;
    }
    if i < qn {
        assert(name@.subrange(j as int, nn as int).len() == 0);
    } else {
        assert(query@.subrange(i as int, qn as int).len() == 0);
    }
    i == qn
}

/// Matches `query` against `catalog`: an empty query gives no result; otherwise
/// the names holding the query as a subsequence, ranked by nucleo's score,
/// ties in catalog order.
pub fn fuzzy_match(query: &str, catalog: &Vec<String>) -> (r: Vec<String>)
    ensures
        texts(r@) == fuzzy_match_spec(query@, texts(catalog@)),
{
    if query.unicode_len() == 0 {
        let r: Vec<String> = Vec::new();
        assert(texts(r@) =~= seq![]);
        return r;
    }
    let ghost names = texts(catalog@);
    let mut cand: Vec<String> = Vec::new();
    let mut i: usize = 0;
    while i < catalog.len()
        invariant
            i <= catalog.len(),
            names == texts(catalog@),
            texts(cand@) == candidates(query@, names.subrange(0, i as int)),
        decreases catalog.len() - i,
    {
        assert(names.subrange(0, i + 1).drop_last() =~= names.subrange(0, i as int));
        let ok = is_subsequence_ignoring_case(query, catalog[i].as_str());
        if ok {
            cand.push(catalog[i].clone());
            assert(texts(cand@) =~= candidates(query@, names.subrange(0, i as int)).push(names[i as int]));
        }
        i = i + 1;
    }
    assert(names.subrange(0, catalog.len() as int) =~= names);
    match_list(query, &cand)
}

} // verus!
