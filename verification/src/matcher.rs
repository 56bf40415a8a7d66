//! Fuzzy matching of a roster key against the names found in the working
//! directory, tolerating inexact submission naming.

use vstd::prelude::*;

verus! {

/// The similarity score the skim fuzzy-matching algorithm, in its default
/// configuration, assigns a (choice, pattern) pair; nothing when the
/// pattern's characters do not all occur in order within the choice.
pub uninterp spec fn fuzzy_score_of(choice: Seq<char>, pattern: Seq<char>) -> Option<i64>;

/// Relies on fuzzy_matcher's `SkimMatcherV2::fuzzy_match` under the default
/// configuration, whose score depends on the two strings alone (its
/// thread-local state is only a scratch buffer).
#[verifier::external_body]
fn fuzzy_match_score(choice: &str, pattern: &str) -> (r: Option<i64>)
    ensures
        r == fuzzy_score_of(choice@, pattern@),
{
    fuzzy_matcher::FuzzyMatcher::fuzzy_match(
        &fuzzy_matcher::skim::SkimMatcherV2::default(),
        choice,
        pattern,
    )
}

/// The score a candidate competes with during the scan: a positive
/// similarity score counts as itself; no score, or a score at or below the
/// matcher's implicit positive threshold, counts as zero.
pub open spec fn spec_effective_score(choice: Seq<char>, pattern: Seq<char>) -> int {
    match fuzzy_score_of(choice, pattern) {
        Some(score) => if score > 0 {
            score as int
        } else {
            0
        },
        None => 0,
    }
}

/// The index of the candidate with the strictly highest positive similarity
/// score against the pattern, or nothing when no candidate scores above the
/// positive threshold. Ties keep the first-seen candidate: a later
/// candidate replaces an earlier one only with a strictly higher score.
pub fn best_match_index(candidates: &Vec<String>, pattern: &str) -> (r: Option<usize>)
    ensures
        match r {
            Some(i) => i < candidates@.len() && spec_effective_score(
                candidates@[i as int]@,
                pattern@,
            ) > 0 && (forall|j: int|
                0 <= j < candidates@.len() ==> spec_effective_score(candidates@[j]@, pattern@)
                    <= spec_effective_score(candidates@[i as int]@, pattern@)) && (forall|j: int|
                0 <= j < i ==> spec_effective_score(candidates@[j]@, pattern@)
                    < spec_effective_score(candidates@[i as int]@, pattern@)),
            None => forall|j: int|
                0 <= j < candidates@.len() ==> spec_effective_score(candidates@[j]@, pattern@)
                    == 0,
        },
{
    let mut best: Option<usize> = None;
    let mut highest: i64 = 0;
    let mut i: usize = 0;
    while i < candidates.len()
        invariant
            i <= candidates@.len(),
            highest >= 0,
            match best {
                Some(b) => b < i && highest > 0 && highest == spec_effective_score(
                    candidates@[b as int]@,
                    pattern@,
                ) && (forall|j: int|
                    0 <= j < i ==> spec_effective_score(candidates@[j]@, pattern@) <= highest)
                    && (forall|j: int|
                    0 <= j < b ==> spec_effective_score(candidates@[j]@, pattern@) < highest),
                None => highest == 0 && forall|j: int|
                    0 <= j < i ==> spec_effective_score(candidates@[j]@, pattern@) == 0,
            },
        decreases candidates@.len() - i,
    {
        let candidate = &candidates[i];
        if let Some(score) = fuzzy_match_score(candidate.as_str(), pattern) {
            if highest < score {
                highest = score;
                best = Some(i);
            }
        }
        i = i + 1;
    }
    best
}

} // verus!
