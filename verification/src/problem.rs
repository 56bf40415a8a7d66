//! One expected deliverable: its record, the prioritized candidate file
//! names it may resolve to, and the per-problem grading outcome.

use crate::kinds::FileType;
use crate::text::{ascii_lower, ascii_upper, spec_to_lower, spec_to_upper};
use crate::NEEDS_REVIEW;
use vstd::prelude::*;

verus! {

/// One expected deliverable within a student's submission.
///
/// The name must be a trusted literal, never untrusted input: it is spliced
/// into the file names that external review commands receive.
#[derive(Clone, Copy)]
pub struct Problem {
    pub problem_name: &'static str,
    pub file_type: FileType,
    pub percentage: u32,
}

/// The full path of one candidate deliverable:
/// `{dir}/{name}.{suffix}`.
pub open spec fn spec_candidate(dir: Seq<char>, name: Seq<char>, suffix: Seq<char>) -> Seq<char> {
    dir + "/"@ + name + "."@ + suffix
}

impl Problem {
    pub fn new(problem_name: &'static str, file_type: FileType, percentage: u32) -> (r: Self)
        ensures
            r.problem_name == problem_name,
            r.file_type == file_type,
            r.percentage == percentage,
    {
        Self { problem_name, file_type, percentage }
    }

    /// The prioritized (candidate file name, review command) list for this
    /// problem under a submission directory: earlier-declared suffix pairs
    /// come before later ones, and for each suffix the uppercase variant
    /// comes before the lowercase one.
    pub open spec fn spec_candidates(self, dir: Seq<char>) -> Seq<(Seq<char>, Seq<char>)> {
        Seq::new(
            2 * self.file_type.spec_suffixes().len(),
            |i: int|
                {
                    let pair = self.file_type.spec_suffixes()[i / 2];
                    let suffix = if i % 2 == 0 {
                        spec_to_upper(pair.0)
                    } else {
                        spec_to_lower(pair.0)
                    };
                    (spec_candidate(dir, self.problem_name@, suffix), pair.1)
                },
        )
    }

    /// Enumerate the candidate (file name, review command) pairs for this
    /// problem under a submission directory, in resolution priority order.
    pub fn candidate_files(&self, dir: &str) -> (r: Vec<(String, String)>)
        ensures
            r@.len() == self.spec_candidates(dir@).len(),
            forall|i: int|
                0 <= i < r@.len() ==> r@[i].0@ == self.spec_candidates(dir@)[i].0 && r@[i].1@
                    == self.spec_candidates(dir@)[i].1,
    {
        let suffixes = self.file_type.get_suffixes();
        let mut r: Vec<(String, String)> = Vec::new();
        let mut j: usize = 0;
        proof {
            reveal_strlit("/");
            reveal_strlit(".");
        }
        while j < suffixes.len()
            invariant
                j <= suffixes@.len(),
                suffixes@.len() == self.file_type.spec_suffixes().len(),
                forall|k: int|
                    0 <= k < suffixes@.len() ==> suffixes@[k].0@
                        == self.file_type.spec_suffixes()[k].0 && suffixes@[k].1@
                        == self.file_type.spec_suffixes()[k].1,
                r@.len() == 2 * j,
                forall|i: int|
                    0 <= i < r@.len() ==> r@[i].0@ == self.spec_candidates(dir@)[i].0 && r@[i].1@
                        == self.spec_candidates(dir@)[i].1,
            decreases suffixes@.len() - j,
        {
            let suffix = suffixes[j].0;
            let command = suffixes[j].1;
            let upper = ascii_upper(suffix);
            let lower = ascii_lower(suffix);
            let upper_name = String::from_str(dir).concat("/").concat(self.problem_name).concat(
                ".",
            ).concat(upper.as_str());
            let lower_name = String::from_str(dir).concat("/").concat(self.problem_name).concat(
                ".",
            ).concat(lower.as_str());
            r.push((upper_name, String::from_str(command)));
            r.push((lower_name, String::from_str(command)));
            j = j + 1;
        }
        r
    }

    /// The score this problem contributes: the operator-entered score when a
    /// candidate deliverable resolved, the review sentinel when none did.
    pub fn grade_outcome(resolved_score: Option<u32>) -> (r: u32)
        ensures
            match resolved_score {
                Some(score) => r == score,
                None => r == NEEDS_REVIEW,
            },
    {
        match resolved_score {
            Some(score) => score,
            None => NEEDS_REVIEW,
        }
    }
}

/// The index of the first candidate that exists on disk, given one
/// existence bit per candidate in priority order.
pub fn first_existing(exists: &Vec<bool>) -> (r: Option<usize>)
    ensures
        match r {
            Some(i) => i < exists@.len() && exists@[i as int] && forall|j: int|
                0 <= j < i ==> !exists@[j],
            None => forall|j: int| 0 <= j < exists@.len() ==> !exists@[j],
        },
{
    let mut i: usize = 0;
    while i < exists.len()
        invariant
            i <= exists@.len(),
            forall|j: int| 0 <= j < i ==> !exists@[j],
        decreases exists@.len() - i,
    {
        if exists[i] {
            return Some(i);
        }
        i = i + 1;
    }
    None
}

} // verus!
