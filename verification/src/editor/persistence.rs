//! The session's part of saving a project.

use vstd::prelude::*;

use crate::text::owned;

verus! {

/// Why the editor session refused to complete a save. Failures of writing,
/// reading back and (de)serialising the files belong to the I/O layer that
/// performs them.
#[derive(Debug, Copy, Clone, PartialEq, Eq, Structural)]
pub enum EditorPersistenceError {
    /// No project/scene is open in the editor session.
    NoActiveProject,
    /// Saved snapshots did not match the open session after writing.
    SnapshotMismatch,
}

impl EditorPersistenceError {
    /// The human-readable message of this error.
    pub open spec fn spec_message(self) -> Seq<char> {
        match self {
            EditorPersistenceError::NoActiveProject => "no project is open"@,
            EditorPersistenceError::SnapshotMismatch => "saved project snapshot did not match"@,
        }
    }

    /// Returns the human-readable message of this error.
    pub fn to_string(&self) -> (s: String)
        ensures
            s@ == self.spec_message(),
    {
        match self {
            EditorPersistenceError::NoActiveProject => owned("no project is open"),
            EditorPersistenceError::SnapshotMismatch => owned("saved project snapshot did not match"),
        }
    }
}

} // verus!
