//! The append-only result log and the resume rule built on it: the number
//! of lines already present is the resume offset, and only roster rows at
//! or past that offset are processed.

use vstd::prelude::*;

verus! {

/// A roster row is processed exactly when its index is at or past the
/// resume offset (the count of result lines already in the output log).
pub open spec fn spec_should_process(row: int, resume_offset: int) -> bool {
    row >= resume_offset
}

/// Decide whether a roster row still needs grading in this run.
pub fn should_process(row: usize, resume_offset: usize) -> (r: bool)
    ensures
        r == spec_should_process(row as int, resume_offset as int),
{
    row >= resume_offset
}

/// One output-log record: `{score}\t{comment}\n`. The score text renders
/// the final score, or `-1` for a submission that was never found.
pub open spec fn spec_result_line(score_text: Seq<char>, comment: Seq<char>) -> Seq<char> {
    score_text + "\t"@ + comment + "\n"@
}

/// Format one output-log record.
pub fn result_line(score_text: &str, comment: &str) -> (r: String)
    ensures
        r@ == spec_result_line(score_text@, comment@),
{
    String::from_str(score_text).concat("\t").concat(comment).concat("\n")
}

/// Resuming only appends: with `log.len()` lines already present, every row
/// below that offset is skipped, every row at or past it is processed, and
/// the first `log.len()` lines of the grown log are exactly the old ones.
pub proof fn lemma_resume_appends(log: Seq<Seq<char>>, appended: Seq<Seq<char>>)
    ensures
        (log + appended).subrange(0, log.len() as int) == log,
        (log + appended).len() == log.len() + appended.len(),
        forall|row: int| 0 <= row < log.len() ==> !spec_should_process(row, log.len() as int),
        forall|row: int| row >= log.len() ==> spec_should_process(row, log.len() as int),
{
    assert((log + appended).subrange(0, log.len() as int) =~= log);
}

} // verus!
