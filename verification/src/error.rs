//! The kinds of failure that a run can end in.

use vstd::prelude::*;

verus! {

/// Why an operation failed.
#[derive(Clone, Copy, Debug, PartialEq, Eq, Structural)]
pub enum ErrorKind {
    /// The repository, its index, its configuration or its branch tip could
    /// not be opened or read.
    RepositoryAccess,
    /// The change to the staging index could not be made or written.
    IndexWrite,
    /// The working tree shows no difference at all.
    NothingToCommit,
    /// The author's name or email address is not configured.
    IdentityMissing,
    /// The current branch has no commit yet that could be the parent.
    NoParentCommit,
    /// The tree or the commit could not be written.
    CommitCreation,
    /// The operator's text did not pass a prompt's validation.
    Validation,
    /// The body could not be written in the editor: the editor could not be
    /// started, or its temporary file could not be made or read.
    EditorInvocation,
}

/// The line that reports a failure of the given kind.
pub open spec fn error_text(kind: ErrorKind) -> Seq<char> {
    match kind {
        ErrorKind::RepositoryAccess => "Could not open the repository"@,
        ErrorKind::IndexWrite => "Could not write the staging index"@,
        ErrorKind::NothingToCommit => "Nothing to commit, working directory clean"@,
        ErrorKind::IdentityMissing => "Author name or email is not configured"@,
        ErrorKind::NoParentCommit => "Failed to find HEAD target"@,
        ErrorKind::CommitCreation => "Could not create the commit"@,
        ErrorKind::Validation => "Input is not valid"@,
        ErrorKind::EditorInvocation => "Could not write the body in the editor"@,
    }
}

impl ErrorKind {
    /// The line that reports this failure.
    pub fn message(self) -> (text: &'static str)
        ensures
            text@ == error_text(self),
    {
        match self {
            ErrorKind::RepositoryAccess => "Could not open the repository",
            ErrorKind::IndexWrite => "Could not write the staging index",
            ErrorKind::NothingToCommit => "Nothing to commit, working directory clean",
            ErrorKind::IdentityMissing => "Author name or email is not configured",
            ErrorKind::NoParentCommit => "Failed to find HEAD target",
            ErrorKind::CommitCreation => "Could not create the commit",
            ErrorKind::Validation => "Input is not valid",
            ErrorKind::EditorInvocation => "Could not write the body in the editor",
        }
    }
}

} // verus!
