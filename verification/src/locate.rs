//! Resolving a roster entry to physical submission paths: the student's
//! directory under the working tree, and the archive probed inside a
//! fuzzy-matched directory.

use crate::text::{
    ascii_lower, ascii_upper, path_join, spec_path_join, spec_to_lower, spec_to_upper,
};
use vstd::prelude::*;

verus! {

/// The on-disk directory holding one student's deliverables: the uppercased
/// student id under the submission directory when that exists, else the
/// lowercased one when that exists, else the submission directory itself.
pub open spec fn spec_student_dir(
    base: Seq<char>,
    student_id: Seq<char>,
    upper_exists: bool,
    lower_exists: bool,
) -> Seq<char> {
    if upper_exists {
        spec_path_join(base, spec_to_upper(student_id))
    } else if lower_exists {
        spec_path_join(base, spec_to_lower(student_id))
    } else {
        base
    }
}

/// Pick the student's directory from the case-variant probes. The two flags
/// say whether `{base}/{UPPER(id)}` and `{base}/{lower(id)}` exist on disk.
pub fn resolve_student_dir(
    base: &str,
    student_id: &str,
    upper_exists: bool,
    lower_exists: bool,
) -> (r: String)
    ensures
        r@ == spec_student_dir(base@, student_id@, upper_exists, lower_exists),
{
    if upper_exists {
        let upper = ascii_upper(student_id);
        path_join(base, upper.as_str())
    } else if lower_exists {
        let lower = ascii_lower(student_id);
        path_join(base, lower.as_str())
    } else {
        String::from_str(base)
    }
}

/// The archive path probed inside a matched directory: the uppercased
/// student id with a `.zip` extension when that file exists, else the
/// lowercased one (whether or not it exists; the caller re-checks).
pub open spec fn spec_zip_candidate(
    dir: Seq<char>,
    student_id: Seq<char>,
    upper_exists: bool,
) -> Seq<char> {
    if upper_exists {
        spec_path_join(dir, spec_to_upper(student_id) + ".zip"@)
    } else {
        spec_path_join(dir, spec_to_lower(student_id) + ".zip"@)
    }
}

/// Pick the archive to unpack inside a matched directory. The flag says
/// whether `{dir}/{UPPER(id)}.zip` exists on disk.
pub fn zip_candidate(dir: &str, student_id: &str, upper_exists: bool) -> (r: String)
    ensures
        r@ == spec_zip_candidate(dir@, student_id@, upper_exists),
{
    let name = if upper_exists {
        ascii_upper(student_id)
    } else {
        ascii_lower(student_id)
    };
    let file = name.concat(".zip");
    path_join(dir, file.as_str())
}

} // verus!
