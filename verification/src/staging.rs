//! Staging of every tracked change: which operation on the repository comes
//! next, and which failure ends the run.

use crate::error::ErrorKind;
use vstd::prelude::*;

verus! {

/// The operations of staging, in the order in which they run.
#[derive(Clone, Copy, Debug, PartialEq, Eq, Structural)]
pub enum StagingStage {
    /// Find the repository from a path inside its working tree.
    OpenRepository,
    /// Get the staging index of the repository.
    OpenIndex,
    /// Add every path of the working tree that matches, under the default
    /// rules.
    AddAll,
    /// Write the index, which makes the change visible.
    WriteIndex,
}

/// What follows one operation of staging.
#[derive(Clone, Copy, Debug, PartialEq, Eq, Structural)]
pub enum StagingStep {
    /// Run this operation next.
    Next(StagingStage),
    /// The index is written: every tracked change is staged.
    Staged,
    /// Stop; nothing more is run.
    Abort(ErrorKind),
}

/// The operation that follows `stage`, if one does.
pub open spec fn staging_successor(stage: StagingStage) -> Option<StagingStage> {
    match stage {
        StagingStage::OpenRepository => Some(StagingStage::OpenIndex),
        StagingStage::OpenIndex => Some(StagingStage::AddAll),
        StagingStage::AddAll => Some(StagingStage::WriteIndex),
        StagingStage::WriteIndex => None,
    }
}

/// The failure that a failed operation is reported as: the repository and its
/// index are a matter of access, adding and writing a matter of the index.
pub open spec fn staging_failure(stage: StagingStage) -> ErrorKind {
    match stage {
        StagingStage::OpenRepository => ErrorKind::RepositoryAccess,
        StagingStage::OpenIndex => ErrorKind::RepositoryAccess,
        StagingStage::AddAll => ErrorKind::IndexWrite,
        StagingStage::WriteIndex => ErrorKind::IndexWrite,
    }
}

/// What follows the operation `stage`, which succeeded or did not.
pub open spec fn staging_after(stage: StagingStage, succeeded: bool) -> StagingStep {
    if !succeeded {
        StagingStep::Abort(staging_failure(stage))
    } else {
        match staging_successor(stage) {
            Some(next) => StagingStep::Next(next),
            None => StagingStep::Staged,
        }
    }
}

/// The place of an operation in the run, counted from 0.
pub open spec fn staging_position(stage: StagingStage) -> nat {
    match stage {
        StagingStage::OpenRepository => 0,
        StagingStage::OpenIndex => 1,
        StagingStage::AddAll => 2,
        StagingStage::WriteIndex => 3,
    }
}

/// The operation that staging begins with.
pub fn first_staging_stage() -> (stage: StagingStage)
    ensures
        stage == StagingStage::OpenRepository,
{
    StagingStage::OpenRepository
}

/// Decides how staging goes on after the operation `stage`. A failure stops the
/// run at once, so that an index that could not be changed is never written.
pub fn staging_step(stage: StagingStage, succeeded: bool) -> (step: StagingStep)
    ensures
        step == staging_after(stage, succeeded),
{
    if !succeeded {
        match stage {
            StagingStage::OpenRepository => StagingStep::Abort(ErrorKind::RepositoryAccess),
            StagingStage::OpenIndex => StagingStep::Abort(ErrorKind::RepositoryAccess),
            StagingStage::AddAll => StagingStep::Abort(ErrorKind::IndexWrite),
            StagingStage::WriteIndex => StagingStep::Abort(ErrorKind::IndexWrite),
        }
    } else {
        match stage {
            StagingStage::OpenRepository => StagingStep::Next(StagingStage::OpenIndex),
            StagingStage::OpenIndex => StagingStep::Next(StagingStage::AddAll),
            StagingStage::AddAll => StagingStep::Next(StagingStage::WriteIndex),
            StagingStage::WriteIndex => StagingStep::Staged,
        }
    }
}

/// Staging runs its operations one after the other and reports success only
/// when the last one, the write of the index, succeeded; it fails with one of
/// two kinds only.
pub proof fn law_staging_order(stage: StagingStage, succeeded: bool)
    ensures
        match staging_after(stage, succeeded) {
            StagingStep::Next(next) => succeeded && staging_position(next) == staging_position(
                stage,
            ) + 1,
            StagingStep::Staged => succeeded && stage == StagingStage::WriteIndex,
            StagingStep::Abort(kind) => !succeeded && (kind == ErrorKind::RepositoryAccess || kind
                == ErrorKind::IndexWrite),
        },
{
}

} // verus!
