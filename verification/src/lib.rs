//! A verified core for an interactive batch grader of student submissions.
//!
//! The library holds the decision logic: which candidate file names a
//! deliverable may have and in what priority order, how a fuzzy name match
//! selects a submission directory, how per-problem scores and weights
//! aggregate into a final grade, and how an append-only result log supports
//! resuming an interrupted session. All I/O (spawning viewers, reading the
//! roster, prompting the operator) lives outside the library and hands plain
//! values in and out.

use vstd::prelude::*;

pub mod assignment;
pub mod kinds;
pub mod locate;
pub mod matcher;
pub mod problem;
pub mod score;
pub mod session;
pub mod text;

verus! {

/// Sentinel score marking a deliverable that could not be located and needs
/// manual follow-up; distinguishable from any legal 0..=100 score.
pub const NEEDS_REVIEW: u32 = 101;

} // verus!
