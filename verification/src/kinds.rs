//! The deliverable-kind model: which file-type variants exist, which ordered
//! (file-extension, review-command) pairs each variant owns, and which
//! reviewing action each variant calls for.

use vstd::prelude::*;

verus! {

/// A supported executable-submission language.
#[derive(Clone, Copy, Debug)]
pub enum ProgramType {
    C,
}

impl ProgramType {
    /// The ordered (source-extension, toolchain-command) pairs of this
    /// language.
    pub open spec fn spec_suffixes(self) -> Seq<(Seq<char>, Seq<char>)> {
        match self {
            ProgramType::C => seq![("c"@, "cc"@)],
        }
    }

    /// The ordered (source-extension, toolchain-command) pairs of this
    /// language.
    pub fn get_suffixes(self) -> (r: Vec<(&'static str, &'static str)>)
        ensures
            r@.len() == self.spec_suffixes().len(),
            forall|i: int|
                0 <= i < r@.len() ==> r@[i].0@ == self.spec_suffixes()[i].0 && r@[i].1@
                    == self.spec_suffixes()[i].1,
    {
        match self {
            ProgramType::C => vec![("c", "cc")],
        }
    }
}

/// The kind of one expected deliverable; the tag selects the resolution and
/// review policy.
#[derive(Clone, Copy, Debug)]
pub enum FileType {
    /// A text document.
    Doc,
    /// An executable submission; the flag asks for a raw code review in an
    /// editor instead of compiling and running.
    Program(ProgramType, bool),
    /// A picture.
    Pic,
    /// A patch, optionally applied into the given external project directory.
    Patch(Option<&'static str>),
}

impl FileType {
    /// The ordered (file-extension, review-command) pairs of this kind,
    /// searched front to back during resolution.
    pub open spec fn spec_suffixes(self) -> Seq<(Seq<char>, Seq<char>)> {
        match self {
            FileType::Doc => seq![("txt"@, "kate"@), ("pdf"@, "evince"@)],
            FileType::Pic => seq![("jpg"@, "feh"@), ("png"@, "feh"@)],
            FileType::Program(program, _) => program.spec_suffixes(),
            FileType::Patch(_) => seq![("patch"@, ""@)],
        }
    }

    /// The ordered (file-extension, review-command) pairs of this kind.
    pub fn get_suffixes(self) -> (r: Vec<(&'static str, &'static str)>)
        ensures
            r@.len() == self.spec_suffixes().len(),
            forall|i: int|
                0 <= i < r@.len() ==> r@[i].0@ == self.spec_suffixes()[i].0 && r@[i].1@
                    == self.spec_suffixes()[i].1,
    {
        match self {
            FileType::Doc => vec![("txt", "kate"), ("pdf", "evince")],
            FileType::Pic => vec![("jpg", "feh"), ("png", "feh")],
            FileType::Program(program, _) => program.get_suffixes(),
            FileType::Patch(_) => vec![("patch", "")],
        }
    }

    /// The reviewing action this kind calls for, once its deliverable has
    /// been resolved.
    pub open spec fn spec_review_action(self) -> ReviewAction {
        match self {
            FileType::Doc => ReviewAction::Viewer,
            FileType::Pic => ReviewAction::Viewer,
            FileType::Program(_, is_raw) => if is_raw {
                ReviewAction::RawEditor
            } else {
                ReviewAction::CompileAndRun
            },
            FileType::Patch(project) => match project {
                Some(project_dir) => ReviewAction::ApplyPatch(project_dir),
                None => ReviewAction::RawEditor,
            },
        }
    }

    /// Decide the reviewing action for this kind: a single exhaustive
    /// dispatch over the tag, with no retries.
    pub fn review_action(self) -> (r: ReviewAction)
        ensures
            r == self.spec_review_action(),
    {
        match self {
            FileType::Doc => ReviewAction::Viewer,
            FileType::Pic => ReviewAction::Viewer,
            FileType::Program(_, is_raw) => if is_raw {
                ReviewAction::RawEditor
            } else {
                ReviewAction::CompileAndRun
            },
            FileType::Patch(project) => match project {
                Some(project_dir) => ReviewAction::ApplyPatch(project_dir),
                None => ReviewAction::RawEditor,
            },
        }
    }
}

/// The kind-specific reviewing step to perform on a resolved deliverable.
/// Performing it is outside work; deciding it is this library's.
#[derive(Clone, Copy, Debug)]
pub enum ReviewAction {
    /// Launch the paired external viewer on the file, detached from the
    /// grading process's input and output streams.
    Viewer,
    /// Open a plain editor on the file so the code is inspected without
    /// being executed.
    RawEditor,
    /// Build the source with the paired toolchain command into the
    /// submission directory's `output` binary, then launch that binary.
    CompileAndRun,
    /// Copy the patch into the named external project directory, reset that
    /// project's working tree, and apply the patch there.
    ApplyPatch(&'static str),
}

} // verus!
