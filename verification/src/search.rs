//! Fuzzy search over the listing.

use crate::entry::{Entry, EntryModel, views};
use crate::path::{file_name_of, path_file_name};
use fuzzy_matcher::skim::SkimMatcherV2;
use fuzzy_matcher::FuzzyMatcher;
use vstd::prelude::*;

verus! {

/// The longest name and the longest query, in characters, that are handed
/// to the fuzzy matcher; a longer one matches nothing. No file name comes
/// near it.
pub const MATCH_LIMIT: usize = 4096;

/// The score that the skim matcher, as it is configured by default, gives
/// to `choice` for `pattern`; `None` where the pattern does not match.
pub uninterp spec fn skim_score(choice: Seq<char>, pattern: Seq<char>) -> Option<i64>;

/// `SkimMatcherV2::default().fuzzy_match`: the score of `choice` against
/// `pattern`. The score is taken on trust as a function of the two texts;
/// nothing is claimed of its value. Texts beyond the limit are kept away
/// from the matcher, whose scores are 32-bit sums over the characters.
#[verifier::external_body]
pub(crate) fn fuzzy_score(choice: &str, pattern: &str) -> (r: Option<i64>)
    requires
        choice@.len() <= MATCH_LIMIT,
        pattern@.len() <= MATCH_LIMIT,
    ensures
        r == skim_score(choice@, pattern@),
{
    SkimMatcherV2::default().fuzzy_match(choice, pattern)
}

/// The score of an entry against a query: that of its file name, where
/// it has one and both are short enough to be matched.
pub open spec fn entry_score(path: Seq<char>, query: Seq<char>) -> Option<i64> {
    match file_name_of(path) {
        Some(name) => if name.len() <= MATCH_LIMIT && query.len() <= MATCH_LIMIT {
            skim_score(name, query)
        } else {
            None
        },
        None => None,
    }
}

/// The scores of all entries against a query, in listing order.
pub open spec fn entry_scores(files: Seq<EntryModel>, query: Seq<char>) -> Seq<Option<i64>> {
    Seq::new(files.len(), |i: int| entry_score(files[i].path, query))
}

/// `hit` is the first of the first `limit` places of `scores` that holds
/// a score, or `None` where none of them does.
pub open spec fn is_first_hit(scores: Seq<Option<i64>>, limit: nat, hit: Option<nat>) -> bool {
    match hit {
        Some(i) => {
            &&& i < scores.len()
            &&& i < limit
            &&& scores[i as int].is_some()
            &&& forall|j: int| 0 <= j < i ==> scores[j].is_none()
        },
        None => forall|j: int| 0 <= j < scores.len() && j < limit ==> scores[j].is_none(),
    }
}

/// The first of the first `limit` places of `scores` that holds a score.
pub open spec fn first_hit(scores: Seq<Option<i64>>, limit: nat) -> Option<nat> {
    if exists|i: nat| is_first_hit(scores, limit, Some(i)) {
        Some(choose|i: nat| is_first_hit(scores, limit, Some(i)))
    } else {
        None
    }
}

/// Scores the file name of `path` against `query`.
pub fn score_entry(path: &str, query: &str) -> (r: Option<i64>)
    ensures
        r == entry_score(path@, query@),
{
    match path_file_name(path) {
        Some(name) => {
            if name.as_str().unicode_len() <= MATCH_LIMIT && query.unicode_len() <= MATCH_LIMIT {
                fuzzy_score(name.as_str(), query)
            } else {
                None
            }
        },
        None => None,
    }
}

/// Scores every entry of a listing against `query`.
pub fn score_entries(files: &Vec<Entry>, query: &str) -> (r: Vec<Option<i64>>)
    ensures
        r@ == entry_scores(views(files@), query@),
{
    let mut r: Vec<Option<i64>> = Vec::new();
    let mut i: usize = 0;
    while i < files.len()
        invariant
            i <= files@.len(),
            r@ == entry_scores(views(files@), query@).take(i as int),
        decreases files@.len() - i,
    {
        let score = score_entry(files[i].path.as_str(), query);
        r.push(score);
        proof {
            assert(views(files@)[i as int] == files@[i as int]@);
            assert(r@ =~= entry_scores(views(files@), query@).take(i + 1));
        }
        i += 1;
    }
    proof {
        assert(r@ =~= entry_scores(views(files@), query@));
    }
    r
}

/// There is at most one first hit.
pub proof fn lemma_first_hit_unique(scores: Seq<Option<i64>>, limit: nat, a: Option<nat>, b: Option<nat>)
    requires
        is_first_hit(scores, limit, a),
        is_first_hit(scores, limit, b),
    ensures
        a == b,
{
    match (a, b) {
        (Some(i), Some(j)) => {
            if i < j {
                assert(scores[i as int].is_none());
            } else if j < i {
                assert(scores[j as int].is_none());
            }
        },
        (Some(i), None) => {
            assert(scores[i as int].is_none());
        },
        (None, Some(j)) => {
            assert(scores[j as int].is_none());
        },
        (None, None) => {},
    }
}

/// The first hit lies below the limit, inside the scores, on a score.
pub proof fn lemma_first_hit_in_range(scores: Seq<Option<i64>>, limit: nat)
    ensures
        is_first_hit(scores, limit, first_hit(scores, limit)),
        first_hit(scores, limit) matches Some(i) ==> i < limit && i < scores.len(),
{
    if exists|i: nat| is_first_hit(scores, limit, Some(i)) {
    } else {
        assert forall|j: int| 0 <= j < scores.len() && j < limit implies scores[j].is_none() by {
            if scores[j].is_some() {
                lemma_some_has_first(scores, limit, j as nat);
            }
        }
    }
}

/// Where some place below the limit holds a score, there is a first one.
proof fn lemma_some_has_first(scores: Seq<Option<i64>>, limit: nat, k: nat)
    requires
        k < scores.len(),
        k < limit,
        scores[k as int].is_some(),
    ensures
        exists|i: nat| is_first_hit(scores, limit, Some(i)),
    decreases k,
{
    if exists|j: int| 0 <= j < k && scores[j].is_some() {
        let j = choose|j: int| 0 <= j < k && scores[j].is_some();
        lemma_some_has_first(scores, limit, j as nat);
    } else {
        assert(is_first_hit(scores, limit, Some(k)));
    }
}

/// What meets the description of the first hit is the first hit.
pub proof fn lemma_first_hit_is(scores: Seq<Option<i64>>, limit: nat, hit: Option<nat>)
    requires
        is_first_hit(scores, limit, hit),
    ensures
        first_hit(scores, limit) == hit,
{
    match hit {
        Some(i) => {
            let j = choose|j: nat| is_first_hit(scores, limit, Some(j));
            lemma_first_hit_unique(scores, limit, Some(j), hit);
        },
        None => {
            if exists|i: nat| is_first_hit(scores, limit, Some(i)) {
                let i = choose|i: nat| is_first_hit(scores, limit, Some(i));
                lemma_first_hit_unique(scores, limit, Some(i), hit);
            }
        },
    }
}

/// The first of the first `limit` places of `scores` that holds a score.
pub fn find_first_hit(scores: &Vec<Option<i64>>, limit: usize) -> (r: Option<usize>)
    ensures
        match r {
            Some(i) => first_hit(scores@, limit as nat) == Some(i as nat),
            None => first_hit(scores@, limit as nat).is_none(),
        },
{
    let mut i: usize = 0;
    while i < scores.len() && i < limit
        invariant
            i <= scores@.len(),
            i <= limit,
            forall|j: int| 0 <= j < i ==> scores@[j].is_none(),
        decreases scores@.len() - i,
    {
        if scores[i].is_some() {
            proof {
                lemma_first_hit_is(scores@, limit as nat, Some(i as nat));
            }
            return Some(i);
        }
        i += 1;
    }
    proof {
        lemma_first_hit_is(scores@, limit as nat, None);
    }
    None
}

} // verus!
