//! Which filesystem changes beneath a watched folder call for a rescan.
use vstd::prelude::*;

verus! {

/// The kind of a filesystem change beneath a watched folder.
#[derive(Debug, Clone, Copy, PartialEq, Eq, Structural)]
pub enum FsChange {
    /// An entry was created.
    Create,
    /// An entry was removed.
    Remove,
    /// An entry was renamed or moved.
    Rename,
    /// An entry's content or metadata changed in place.
    Modify,
    /// An entry was read, or the change is of no known kind.
    Other,
}

/// True for changes that add, remove, or rename entries. Plain content
/// edits (writes to an already-indexed file) don't change the track set, so
/// they're ignored to avoid needless rescans.
pub fn is_structural(change: FsChange) -> (r: bool)
    ensures
        r == (change == FsChange::Create || change == FsChange::Remove || change
            == FsChange::Rename),
{
    match change {
        FsChange::Create | FsChange::Remove | FsChange::Rename => true,
        FsChange::Modify | FsChange::Other => false,
    }
}

} // verus!
