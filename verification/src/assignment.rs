//! An ordered set of problems and the per-assignment aggregation: weighted
//! score accumulation with manual-review escalation and an accumulated
//! free-text comment.

use crate::problem::Problem;
use crate::NEEDS_REVIEW;
use vstd::prelude::*;

verus! {

/// The largest value a weighted term `score * percentage` can take.
const MAX_TERM: u128 = 0xFFFF_FFFE_0000_0001;

/// The largest value one percentage can take.
const MAX_WEIGHT: u128 = 0xFFFF_FFFF;

/// `sum over i of (score_i * weight_i)`, where a problem whose score is the
/// review sentinel contributes 0 to this numerator (its weight still counts
/// in the denominator, diluting the average).
pub open spec fn spec_weighted_sum(problems: Seq<Problem>, scores: Seq<u32>) -> int
    decreases problems.len(),
{
    if problems.len() == 0 {
        0
    } else {
        spec_weighted_sum(problems.drop_last(), scores.drop_last()) + (
        if scores.last() == NEEDS_REVIEW {
            0
        } else {
            scores.last() * problems.last().percentage
        })
    }
}

/// `sum over i of weight_i`: the denominator of the final average.
pub open spec fn spec_total_weight(problems: Seq<Problem>) -> int
    decreases problems.len(),
{
    if problems.len() == 0 {
        0
    } else {
        spec_total_weight(problems.drop_last()) + problems.last().percentage
    }
}

/// One problem's contribution to the accumulated comment:
/// `"{problemName}: {text}."`, or nothing when the text is empty.
pub open spec fn spec_comment_unit(name: Seq<char>, comment: Seq<char>) -> Seq<char> {
    if comment.len() == 0 {
        Seq::<char>::empty()
    } else {
        name + ": "@ + comment + "."@
    }
}

/// The comment lines of all problems concatenated in declaration order.
pub open spec fn spec_comments(problems: Seq<Problem>, comments: Seq<Seq<char>>) -> Seq<char>
    decreases problems.len(),
{
    if problems.len() == 0 {
        Seq::<char>::empty()
    } else {
        spec_comments(problems.drop_last(), comments.drop_last()) + spec_comment_unit(
            problems.last().problem_name@,
            comments.last(),
        )
    }
}

/// Whether any problem scored the review sentinel.
pub open spec fn spec_needs_review(scores: Seq<u32>) -> bool {
    exists|i: int| 0 <= i < scores.len() && scores[i] == NEEDS_REVIEW
}

/// The whole accumulated comment: the per-problem lines, with the manual
/// review marker appended when any deliverable was missing.
pub open spec fn spec_full_comment(
    problems: Seq<Problem>,
    comments: Seq<Seq<char>>,
    scores: Seq<u32>,
) -> Seq<char> {
    spec_comments(problems, comments) + if spec_needs_review(scores) {
        "Need manual review"@
    } else {
        Seq::<char>::empty()
    }
}

/// The weighted sum stays within `len * MAX_TERM`, so a 128-bit accumulator
/// never overflows.
proof fn lemma_weighted_sum_bound(problems: Seq<Problem>, scores: Seq<u32>)
    ensures
        0 <= spec_weighted_sum(problems, scores) <= problems.len() * MAX_TERM,
    decreases problems.len(),
{
    if problems.len() == 0 {
    } else {
        lemma_weighted_sum_bound(problems.drop_last(), scores.drop_last());
        let s = scores.last();
        let w = problems.last().percentage;
        assert(s * w <= MAX_TERM) by (nonlinear_arith)
            requires
                s <= 0xFFFF_FFFFu32,
                w <= 0xFFFF_FFFFu32,
        ;
        assert((problems.len() - 1) * MAX_TERM + MAX_TERM == problems.len() * MAX_TERM)
            by (nonlinear_arith);
    }
}

/// The total weight stays within `len * MAX_WEIGHT`.
proof fn lemma_total_weight_bound(problems: Seq<Problem>)
    ensures
        0 <= spec_total_weight(problems) <= problems.len() * MAX_WEIGHT,
    decreases problems.len(),
{
    if problems.len() == 0 {
    } else {
        lemma_total_weight_bound(problems.drop_last());
        assert((problems.len() - 1) * MAX_WEIGHT + MAX_WEIGHT == problems.len() * MAX_WEIGHT)
            by (nonlinear_arith);
    }
}

/// Grading one more problem adds `score * weight` to the numerator — or
/// nothing when the score is the review sentinel — and always adds the
/// weight to the denominator.
pub proof fn lemma_aggregation_step(
    problems: Seq<Problem>,
    scores: Seq<u32>,
    problem: Problem,
    score: u32,
)
    ensures
        spec_weighted_sum(problems.push(problem), scores.push(score)) == spec_weighted_sum(
            problems,
            scores,
        ) + if score == NEEDS_REVIEW {
            0
        } else {
            score * problem.percentage
        },
        spec_total_weight(problems.push(problem)) == spec_total_weight(problems)
            + problem.percentage,
{
    assert(problems.push(problem).drop_last() =~= problems);
    assert(scores.push(score).drop_last() =~= scores);
}

/// When any deliverable was missing, the accumulated comment ends with the
/// manual review marker.
pub proof fn lemma_review_flag_in_comment(
    problems: Seq<Problem>,
    comments: Seq<Seq<char>>,
    scores: Seq<u32>,
)
    requires
        spec_needs_review(scores),
    ensures
        spec_full_comment(problems, comments, scores) == spec_comments(problems, comments)
            + "Need manual review"@,
{
}

/// What one student's grading session aggregates to: the exact numerator
/// and denominator of the weighted average, the review flag, and the
/// accumulated comment. The final score is the quotient
/// `weighted_sum / total_weight`, taken by the caller, who must refuse a
/// zero total weight as a configuration error.
pub struct GradeTotals {
    pub weighted_sum: u128,
    pub total_weight: u128,
    pub need_review: bool,
    pub comment: String,
}

/// An ordered sequence of problems, created once at startup and read-only
/// during grading; the order defines grading and comment order.
pub struct Assignment {
    pub problems: Vec<Problem>,
}

impl Assignment {
    pub fn new() -> (r: Self)
        ensures
            r.problems@ == Seq::<Problem>::empty(),
    {
        Self { problems: Vec::new() }
    }

    pub fn new_with_problems(problems: &[Problem]) -> (r: Self)
        ensures
            r.problems@ == problems@,
    {
        let mut res = Self { problems: Vec::new() };
        let mut i: usize = 0;
        while i < problems.len()
            invariant
                i <= problems@.len(),
                res.problems@ == problems@.subrange(0, i as int),
            decreases problems@.len() - i,
        {
            res.problems.push(problems[i]);
            proof {
                assert(problems@.subrange(0, i as int).push(problems@[i as int])
                    =~= problems@.subrange(0, i + 1 as int));
            }
            i = i + 1;
        }
        proof {
            assert(problems@.subrange(0, problems@.len() as int) =~= problems@);
        }
        res
    }

    pub fn add_entry(&mut self, problem: Problem)
        ensures
            final(self).problems@ == old(self).problems@.push(problem),
    {
        self.problems.push(problem);
    }

    /// The denominator of the final average. A caller that is about to
    /// divide must treat 0 — an empty assignment or all-zero weights — as a
    /// configuration error and fail fast instead of dividing.
    pub fn total_weight(&self) -> (r: u128)
        ensures
            r == spec_total_weight(self.problems@),
    {
        let n = self.problems.len();
        let mut total: u128 = 0;
        let mut i: usize = 0;
        while i < n
            invariant
                i <= n,
                n == self.problems@.len(),
                total == spec_total_weight(self.problems@.subrange(0, i as int)),
            decreases n - i,
        {
            proof {
                lemma_total_weight_bound(self.problems@.subrange(0, i as int));
                assert(i * MAX_WEIGHT + MAX_WEIGHT <= u128::MAX) by (nonlinear_arith)
                    requires
                        i <= usize::MAX,
                ;
                assert(self.problems@.subrange(0, i + 1 as int).drop_last() =~= self.problems@
                    .subrange(0, i as int));
            }
            total = total + (self.problems[i].percentage as u128);
            i = i + 1;
        }
        proof {
            assert(self.problems@.subrange(0, n as int) =~= self.problems@);
        }
        total
    }

    /// Aggregate one student's per-problem scores and comments: the weighted
    /// sum dilutes missing deliverables (they add weight but no score), the
    /// review flag records them, and the comment concatenates the nonempty
    /// per-problem texts in declaration order, with the manual review marker
    /// at the end when the flag is set.
    pub fn grade_totals(&self, scores: &Vec<u32>, comments: &Vec<String>) -> (r: GradeTotals)
        requires
            scores@.len() == self.problems@.len(),
            comments@.len() == self.problems@.len(),
        ensures
            r.weighted_sum == spec_weighted_sum(self.problems@, scores@),
            r.total_weight == spec_total_weight(self.problems@),
            r.need_review == spec_needs_review(scores@),
            r.comment@ == spec_full_comment(self.problems@, comments.deep_view(), scores@),
    {
        let n = self.problems.len();
        let mut weighted_sum: u128 = 0;
        let mut total_weight: u128 = 0;
        let mut need_review = false;
        let mut comment = String::new();
        let mut i: usize = 0;
        while i < n
            invariant
                i <= n,
                n == self.problems@.len(),
                scores@.len() == n,
                comments@.len() == n,
                comments.deep_view().len() == n,
                forall|k: int|
                    0 <= k < n ==> comments.deep_view()[k] == #[trigger] comments@[k]@,
                weighted_sum == spec_weighted_sum(
                    self.problems@.subrange(0, i as int),
                    scores@.subrange(0, i as int),
                ),
                total_weight == spec_total_weight(self.problems@.subrange(0, i as int)),
                need_review == spec_needs_review(scores@.subrange(0, i as int)),
                comment@ == spec_comments(
                    self.problems@.subrange(0, i as int),
                    comments.deep_view().subrange(0, i as int),
                ),
            decreases n - i,
        {
            let ghost prev_problems = self.problems@.subrange(0, i as int);
            let ghost prev_scores = scores@.subrange(0, i as int);
            let ghost prev_comments = comments.deep_view().subrange(0, i as int);
            proof {
                assert(self.problems@.subrange(0, i + 1 as int).drop_last() =~= prev_problems);
                assert(scores@.subrange(0, i + 1 as int).drop_last() =~= prev_scores);
                assert(comments.deep_view().subrange(0, i + 1 as int).drop_last()
                    =~= prev_comments);
                lemma_weighted_sum_bound(prev_problems, prev_scores);
                lemma_total_weight_bound(prev_problems);
                assert(i * MAX_TERM + MAX_TERM <= u128::MAX) by (nonlinear_arith)
                    requires
                        i <= usize::MAX,
                ;
                assert(i * MAX_WEIGHT + MAX_WEIGHT <= u128::MAX) by (nonlinear_arith)
                    requires
                        i <= usize::MAX,
                ;
            }
            let problem = self.problems[i];
            let score = scores[i];
            if score != NEEDS_REVIEW {
                proof {
                    assert(score * problem.percentage <= MAX_TERM) by (nonlinear_arith)
                        requires
                            score <= 0xFFFF_FFFFu32,
                            problem.percentage <= 0xFFFF_FFFFu32,
                    ;
                }
                let term: u64 = (score as u64) * (problem.percentage as u64);
                weighted_sum = weighted_sum + (term as u128);
            } else {
                need_review = true;
            }
            total_weight = total_weight + (problem.percentage as u128);
            let text = &comments[i];
            if !text.as_str().is_empty() {
                comment.append(problem.problem_name);
                comment.append(": ");
                comment.append(text.as_str());
                comment.append(".");
            }
            proof {
                assert(spec_needs_review(scores@.subrange(0, i + 1 as int)) == (spec_needs_review(
                    prev_scores,
                ) || scores@[i as int] == NEEDS_REVIEW)) by {
                    if spec_needs_review(prev_scores) {
                        let k = choose|k: int|
                            0 <= k < prev_scores.len() && prev_scores[k] == NEEDS_REVIEW;
                        assert(scores@.subrange(0, i + 1 as int)[k] == NEEDS_REVIEW);
                    }
                    if scores@[i as int] == NEEDS_REVIEW {
                        assert(scores@.subrange(0, i + 1 as int)[i as int] == NEEDS_REVIEW);
                    }
                    if spec_needs_review(scores@.subrange(0, i + 1 as int)) {
                        let k = choose|k: int|
                            0 <= k < i + 1 && #[trigger] scores@.subrange(0, i + 1 as int)[k]
                                == NEEDS_REVIEW;
                        if k < i {
                            assert(prev_scores[k] == NEEDS_REVIEW);
                        }
                    }
                }
            }
            i = i + 1;
        }
        proof {
            assert(self.problems@.subrange(0, n as int) =~= self.problems@);
            assert(scores@.subrange(0, n as int) =~= scores@);
            assert(comments.deep_view().subrange(0, n as int) =~= comments.deep_view());
        }
        let comment = if need_review {
            comment.concat("Need manual review")
        } else {
            comment
        };
        GradeTotals { weighted_sum, total_weight, need_review, comment }
    }
}

/// The marker recorded for a student who needs manual follow-up.
pub fn manual_review_text() -> (r: &'static str)
    ensures
        r@ == "Need manual review"@,
{
    "Need manual review"
}

} // verus!
