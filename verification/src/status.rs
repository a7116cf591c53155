//! The status of the files of a working tree, and whether tracked changes are
//! left to stage.

use crate::error::ErrorKind;
use vstd::prelude::*;

verus! {

/// The status bit of a tracked file whose content in the working tree differs
/// from the index.
pub const WT_MODIFIED: u32 = 0x100;

/// The status bit of a tracked file that is gone from the working tree.
pub const WT_DELETED: u32 = 0x200;

/// The status of one path: the bits of a `git2::Status`, as its method `bits`
/// gives them.
#[derive(Clone, Copy, Debug, PartialEq, Eq)]
pub struct FileStatus {
    pub bits: u32,
}

impl FileStatus {
    /// Whether the file is tracked and modified in the working tree.
    pub open spec fn wt_modified(self) -> bool {
        self.bits & WT_MODIFIED != 0
    }

    /// Whether the file is tracked and deleted from the working tree.
    pub open spec fn wt_deleted(self) -> bool {
        self.bits & WT_DELETED != 0
    }

    /// Whether the file holds a tracked change that is not staged.
    pub open spec fn unstaged(self) -> bool {
        self.wt_modified() || self.wt_deleted()
    }
}

/// Whether some status of the snapshot holds a tracked change that is not
/// staged.
pub open spec fn any_unstaged(statuses: Seq<FileStatus>) -> bool {
    exists|i: int| 0 <= i < statuses.len() && (#[trigger] statuses[i]).unstaged()
}

/// `git2::Status::is_wt_modified`, asked of the status that
/// `git2::Status::from_bits_truncate` makes of `bits`. The method tells whether
/// the flag `WT_MODIFIED` is set, which is the one bit `1 << 8`;
/// `from_bits_truncate` keeps the bits of every flag.
#[verifier::external_body]
fn is_wt_modified(bits: u32) -> (set: bool)
    ensures
        set == (bits & WT_MODIFIED != 0),
{
    git2::Status::from_bits_truncate(bits).is_wt_modified()
}

/// `git2::Status::is_wt_deleted`, asked of the status that
/// `git2::Status::from_bits_truncate` makes of `bits`. The method tells whether
/// the flag `WT_DELETED` is set, which is the one bit `1 << 9`;
/// `from_bits_truncate` keeps the bits of every flag.
#[verifier::external_body]
fn is_wt_deleted(bits: u32) -> (set: bool)
    ensures
        set == (bits & WT_DELETED != 0),
{
    git2::Status::from_bits_truncate(bits).is_wt_deleted()
}

/// Whether tracked files have changes that are not staged. `snapshot` is the
/// status of every path as the repository reported it, or `None` where the
/// repository could not be found or read. Files that are not tracked and
/// changes that are staged already do not count.
pub fn has_unstaged_tracked_files(snapshot: Option<&Vec<FileStatus>>) -> (found: Result<
    bool,
    ErrorKind,
>)
    ensures
        match snapshot {
            Some(statuses) => found == Ok::<bool, ErrorKind>(any_unstaged(statuses@)),
            None => found == Err::<bool, ErrorKind>(ErrorKind::RepositoryAccess),
        },
{
    match snapshot {
        None => Err(ErrorKind::RepositoryAccess),
        Some(statuses) => {
            let mut i: usize = 0;
            while i < statuses.len()
                invariant
                    i <= statuses.len(),
                    snapshot == Some(statuses),
                    forall|k: int| 0 <= k < i ==> !(#[trigger] statuses@[k]).unstaged(),
                decreases statuses.len() - i,
            {
                let bits = statuses[i].bits;
                if is_wt_modified(bits) || is_wt_deleted(bits) {
                    assert(statuses@[i as int].unstaged());
                    return Ok(true);
                }
                i += 1;
            }
            Ok(false)
        },
    }
}

/// Only changes of tracked files in the working tree count: a status without
/// the two bits `WT_MODIFIED` and `WT_DELETED` holds nothing unstaged, whatever
/// else it says of the index or of files that are new or ignored.
pub proof fn law_only_worktree_changes_count(status: FileStatus)
    ensures
        status.unstaged() <==> status.bits & (WT_MODIFIED | WT_DELETED) != 0,
{
    let bits = status.bits;
    assert((bits & 0x100u32 != 0 || bits & 0x200u32 != 0) <==> bits & (0x100u32 | 0x200u32) != 0)
        by (bit_vector);
}

/// A snapshot without entries holds nothing unstaged.
pub proof fn law_empty_snapshot_is_clean(statuses: Seq<FileStatus>)
    requires
        statuses.len() == 0,
    ensures
        !any_unstaged(statuses),
{
}

} // verus!
