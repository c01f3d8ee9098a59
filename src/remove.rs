use vstd::prelude::*;

use crate::entry::EntryMeta;

verus! {

/// What removing a path asks of the caller next.
#[derive(Clone, Copy, Debug, PartialEq, Eq, Structural)]
pub enum RmAction {
    /// Nothing is left to do: the removal has succeeded.
    Done,
    /// Read the metadata of the path, following symbolic links, and pass it
    /// to `rm_after_metadata`; a failure to read it is the removal's error.
    ReadMetadata,
    /// Remove the directory together with everything beneath it.
    RemoveTree,
    /// Remove the single non-directory object.
    RemoveFile,
}

/// The first step of a removal, once it is known whether the path exists.
pub open spec fn rm_first_step(exists: bool) -> RmAction {
    if exists {
        RmAction::ReadMetadata
    } else {
        RmAction::Done
    }
}

/// The removal that the metadata of an existing path calls for.
pub open spec fn rm_removal(meta: EntryMeta) -> RmAction {
    if meta.is_dir {
        RmAction::RemoveTree
    } else {
        RmAction::RemoveFile
    }
}

/// Starts removing a path: a path that does not exist is already removed.
pub fn rm_after_exists(exists: bool) -> (r: RmAction)
    ensures
        r == rm_first_step(exists),
{
    if exists {
        RmAction::ReadMetadata
    } else {
        RmAction::Done
    }
}

/// Chooses how an existing path is removed: a directory with all that it
/// holds, anything else as a single file.
pub fn rm_after_metadata(meta: &EntryMeta) -> (r: RmAction)
    ensures
        r == rm_removal(*meta),
{
    if meta.is_dir {
        RmAction::RemoveTree
    } else {
        RmAction::RemoveFile
    }
}

/// Removing a missing path succeeds at once, without touching the
/// filesystem; the path stays missing, so every further removal of it
/// succeeds in the same way.
pub proof fn lemma_rm_missing_is_idempotent()
    ensures
        rm_first_step(false) == RmAction::Done,
{
}

/// A path whose metadata says it is a directory is removed together with
/// all of its descendants; any other object is removed on its own.
pub proof fn lemma_rm_directory_is_recursive(meta: EntryMeta)
    ensures
        meta.is_dir ==> rm_removal(meta) == RmAction::RemoveTree,
        !meta.is_dir ==> rm_removal(meta) == RmAction::RemoveFile,
{
}

} // verus!
