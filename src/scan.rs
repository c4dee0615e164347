use vstd::prelude::*;

verus! {

/// What is done with one entry of the scanned directory.
#[derive(Clone, Copy, Debug, PartialEq, Eq, Structural)]
pub enum EntryAction {
    /// Diagnose a symlink and skip it.
    ReportSymlink,
    /// Diagnose a plain file and skip it.
    ReportFile,
    /// Try to open the entry as a repository.
    OpenRepository,
}

/// The action for an entry, from its metadata read without following links.
pub open spec fn action_spec(is_symlink: bool, is_file: bool) -> EntryAction {
    if is_symlink {
        EntryAction::ReportSymlink
    } else if is_file {
        EntryAction::ReportFile
    } else {
        EntryAction::OpenRepository
    }
}

/// Classifies an entry: symlinks and plain files are reported and skipped;
/// anything else is opened as a repository.
pub fn entry_action(is_symlink: bool, is_file: bool) -> (r: EntryAction)
    ensures
        r == action_spec(is_symlink, is_file),
{
    if is_symlink {
        EntryAction::ReportSymlink
    } else if is_file {
        EntryAction::ReportFile
    } else {
        EntryAction::OpenRepository
    }
}

/// A symlinked entry is never opened as a repository.
pub proof fn lemma_symlink_never_opened(is_symlink: bool, is_file: bool)
    requires
        is_symlink,
    ensures
        action_spec(is_symlink, is_file) != EntryAction::OpenRepository,
{
}

} // verus!
