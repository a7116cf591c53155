//! Creation of the commit: which operation on the repository comes next, and
//! which failure ends the run.
//!
//! The guard against an empty commit looks at the status of the working tree
//! alone: a run with any status entry goes on, also where the index holds the
//! same tree as the parent. A branch without a commit is not committed to: the
//! run ends with `ErrorKind::NoParentCommit`.

use crate::error::ErrorKind;
use vstd::prelude::*;

verus! {

/// The operations of a commit, in the order in which they run.
#[derive(Clone, Copy, Debug, PartialEq, Eq, Structural)]
pub enum CommitStage {
    /// Find the repository from a path inside its working tree.
    OpenRepository,
    /// List the status of every path.
    ReadStatus,
    /// Get the staging index of the repository.
    OpenIndex,
    /// Write the index as a tree.
    WriteTree,
    /// Look the written tree up.
    FindTree,
    /// Resolve `HEAD` to the tip of the current branch.
    ResolveHead,
    /// Look up the commit at the tip, the one parent.
    FindParent,
    /// Open the configuration of the repository.
    OpenConfig,
    /// Read `user.name`.
    ReadUserName,
    /// Read `user.email`.
    ReadUserEmail,
    /// Make the signature of author and committer, with the current time.
    MakeSignature,
    /// Write the commit and move the branch to it.
    CreateCommit,
}

/// What an operation came to.
#[derive(Clone, Copy, Debug, PartialEq, Eq, Structural)]
pub enum Outcome {
    /// It returned an error.
    Failed,
    /// It succeeded and found nothing: no status entry, no commit behind
    /// `HEAD`.
    Empty,
    /// It succeeded and gave what it was run for.
    Found,
}

/// What follows one operation of a commit.
#[derive(Clone, Copy, Debug, PartialEq, Eq, Structural)]
pub enum CommitStep {
    /// Run this operation next.
    Next(CommitStage),
    /// The commit is written and the branch points to it.
    Committed,
    /// Stop; nothing more is run.
    Abort(ErrorKind),
}

/// The operation that follows `stage`, if one does.
pub open spec fn commit_successor(stage: CommitStage) -> Option<CommitStage> {
    match stage {
        CommitStage::OpenRepository => Some(CommitStage::ReadStatus),
        CommitStage::ReadStatus => Some(CommitStage::OpenIndex),
        CommitStage::OpenIndex => Some(CommitStage::WriteTree),
        CommitStage::WriteTree => Some(CommitStage::FindTree),
        CommitStage::FindTree => Some(CommitStage::ResolveHead),
        CommitStage::ResolveHead => Some(CommitStage::FindParent),
        CommitStage::FindParent => Some(CommitStage::OpenConfig),
        CommitStage::OpenConfig => Some(CommitStage::ReadUserName),
        CommitStage::ReadUserName => Some(CommitStage::ReadUserEmail),
        CommitStage::ReadUserEmail => Some(CommitStage::MakeSignature),
        CommitStage::MakeSignature => Some(CommitStage::CreateCommit),
        CommitStage::CreateCommit => None,
    }
}

/// The failure that a failed operation is reported as. What is looked up is a
/// matter of access, the author's name and address one of identity, and what
/// is written one of creation.
pub open spec fn commit_failure(stage: CommitStage) -> ErrorKind {
    match stage {
        CommitStage::OpenRepository => ErrorKind::RepositoryAccess,
        CommitStage::ReadStatus => ErrorKind::RepositoryAccess,
        CommitStage::OpenIndex => ErrorKind::RepositoryAccess,
        CommitStage::WriteTree => ErrorKind::CommitCreation,
        CommitStage::FindTree => ErrorKind::RepositoryAccess,
        CommitStage::ResolveHead => ErrorKind::RepositoryAccess,
        CommitStage::FindParent => ErrorKind::RepositoryAccess,
        CommitStage::OpenConfig => ErrorKind::RepositoryAccess,
        CommitStage::ReadUserName => ErrorKind::IdentityMissing,
        CommitStage::ReadUserEmail => ErrorKind::IdentityMissing,
        CommitStage::MakeSignature => ErrorKind::IdentityMissing,
        CommitStage::CreateCommit => ErrorKind::CommitCreation,
    }
}

/// What follows the operation `stage` with the given outcome. An empty status
/// ends the run with `NothingToCommit`, a `HEAD` without a commit with
/// `NoParentCommit`; every other operation that did not fail leads to the next.
pub open spec fn commit_after(stage: CommitStage, outcome: Outcome) -> CommitStep {
    if outcome == Outcome::Failed {
        CommitStep::Abort(commit_failure(stage))
    } else if outcome == Outcome::Empty && stage == CommitStage::ReadStatus {
        CommitStep::Abort(ErrorKind::NothingToCommit)
    } else if outcome == Outcome::Empty && stage == CommitStage::ResolveHead {
        CommitStep::Abort(ErrorKind::NoParentCommit)
    } else {
        match commit_successor(stage) {
            Some(next) => CommitStep::Next(next),
            None => CommitStep::Committed,
        }
    }
}

/// The place of an operation in the run, counted from 0.
pub open spec fn commit_position(stage: CommitStage) -> nat {
    match stage {
        CommitStage::OpenRepository => 0,
        CommitStage::ReadStatus => 1,
        CommitStage::OpenIndex => 2,
        CommitStage::WriteTree => 3,
        CommitStage::FindTree => 4,
        CommitStage::ResolveHead => 5,
        CommitStage::FindParent => 6,
        CommitStage::OpenConfig => 7,
        CommitStage::ReadUserName => 8,
        CommitStage::ReadUserEmail => 9,
        CommitStage::MakeSignature => 10,
        CommitStage::CreateCommit => 11,
    }
}

/// Where a run stands that began at `stage` and whose operations came to
/// `outcomes`, in this order. Outcomes behind the end of the run count for
/// nothing.
pub open spec fn commit_run(stage: CommitStage, outcomes: Seq<Outcome>) -> CommitStep
    decreases outcomes.len(),
{
    if outcomes.len() == 0 {
        CommitStep::Next(stage)
    } else {
        match commit_after(stage, outcomes[0]) {
            CommitStep::Next(next) => commit_run(next, outcomes.drop_first()),
            end => end,
        }
    }
}

/// The operation that a commit begins with.
pub fn first_commit_stage() -> (stage: CommitStage)
    ensures
        stage == CommitStage::OpenRepository,
{
    CommitStage::OpenRepository
}

/// The operation behind `stage`.
fn successor_of(stage: CommitStage) -> (next: Option<CommitStage>)
    ensures
        next == commit_successor(stage),
{
    match stage {
        CommitStage::OpenRepository => Some(CommitStage::ReadStatus),
        CommitStage::ReadStatus => Some(CommitStage::OpenIndex),
        CommitStage::OpenIndex => Some(CommitStage::WriteTree),
        CommitStage::WriteTree => Some(CommitStage::FindTree),
        CommitStage::FindTree => Some(CommitStage::ResolveHead),
        CommitStage::ResolveHead => Some(CommitStage::FindParent),
        CommitStage::FindParent => Some(CommitStage::OpenConfig),
        CommitStage::OpenConfig => Some(CommitStage::ReadUserName),
        CommitStage::ReadUserName => Some(CommitStage::ReadUserEmail),
        CommitStage::ReadUserEmail => Some(CommitStage::MakeSignature),
        CommitStage::MakeSignature => Some(CommitStage::CreateCommit),
        CommitStage::CreateCommit => None,
    }
}

/// The failure that stands for a failed `stage`.
fn failure_of(stage: CommitStage) -> (kind: ErrorKind)
    ensures
        kind == commit_failure(stage),
{
    match stage {
        CommitStage::WriteTree | CommitStage::CreateCommit => ErrorKind::CommitCreation,
        CommitStage::ReadUserName | CommitStage::ReadUserEmail | CommitStage::MakeSignature => {
            ErrorKind::IdentityMissing
        },
        _ => ErrorKind::RepositoryAccess,
    }
}

/// Decides how the commit goes on after the operation `stage`.
pub fn commit_step(stage: CommitStage, outcome: Outcome) -> (step: CommitStep)
    ensures
        step == commit_after(stage, outcome),
{
    match (outcome, stage) {
        (Outcome::Failed, _) => CommitStep::Abort(failure_of(stage)),
        (Outcome::Empty, CommitStage::ReadStatus) => CommitStep::Abort(ErrorKind::NothingToCommit),
        (Outcome::Empty, CommitStage::ResolveHead) => CommitStep::Abort(ErrorKind::NoParentCommit),
        _ => match successor_of(stage) {
            Some(next) => CommitStep::Next(next),
            None => CommitStep::Committed,
        },
    }
}

/// The guard against an empty commit: a run ends with `NothingToCommit` when
/// the status was read and held no entry, and in no other case.
pub proof fn law_nothing_to_commit(stage: CommitStage, outcome: Outcome)
    ensures
        commit_after(stage, outcome) == CommitStep::Abort(ErrorKind::NothingToCommit) <==> stage
            == CommitStage::ReadStatus && outcome == Outcome::Empty,
{
}

/// The operations run one after the other, a failed one ends the run, and the
/// commit is reported only when the last operation, the write of the commit,
/// did not fail.
pub proof fn law_commit_order(stage: CommitStage, outcome: Outcome)
    ensures
        match commit_after(stage, outcome) {
            CommitStep::Next(next) => outcome != Outcome::Failed && commit_position(next)
                == commit_position(stage) + 1,
            CommitStep::Committed => outcome != Outcome::Failed && stage
                == CommitStage::CreateCommit,
            CommitStep::Abort(kind) => kind != ErrorKind::Validation && kind
                != ErrorKind::IndexWrite && kind != ErrorKind::EditorInvocation,
        },
        outcome == Outcome::Failed ==> commit_after(stage, outcome) == CommitStep::Abort(
            commit_failure(stage),
        ),
{
}

/// A whole run: it ends with the commit exactly when all twelve operations ran
/// without a failure, the status held an entry and `HEAD` had a commit. The
/// commit is then written once, by the twelfth operation.
pub proof fn law_commit_run(outcomes: Seq<Outcome>)
    ensures
        commit_run(CommitStage::OpenRepository, outcomes) == CommitStep::Committed <==> {
            &&& outcomes.len() >= 12
            &&& forall|i: int| 0 <= i < 12 ==> outcomes[i] != Outcome::Failed
            &&& outcomes[1] == Outcome::Found
            &&& outcomes[5] == Outcome::Found
        },
{
    reveal_with_fuel(commit_run, 13);
    let o1 = outcomes.drop_first();
    let o2 = o1.drop_first();
    let o3 = o2.drop_first();
    let o4 = o3.drop_first();
    let o5 = o4.drop_first();
    let o6 = o5.drop_first();
    let o7 = o6.drop_first();
    let o8 = o7.drop_first();
    let o9 = o8.drop_first();
    let o10 = o9.drop_first();
    let o11 = o10.drop_first();
    if outcomes.len() >= 12 {
        assert(o1[0] == outcomes[1]);
        assert(o2[0] == outcomes[2]);
        assert(o3[0] == outcomes[3]);
        assert(o4[0] == outcomes[4]);
        assert(o5[0] == outcomes[5]);
        assert(o6[0] == outcomes[6]);
        assert(o7[0] == outcomes[7]);
        assert(o8[0] == outcomes[8]);
        assert(o9[0] == outcomes[9]);
        assert(o10[0] == outcomes[10]);
        assert(o11[0] == outcomes[11]);
    }
}

} // verus!
