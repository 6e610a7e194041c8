//! Command target modes and execution status.

use vstd::prelude::*;

verus! {

/// Stable command target mode.
#[derive(Debug, Copy, Clone, PartialEq, Eq, Structural, Hash, PartialOrd, Ord)]
pub enum CommandTargetMode {
    /// Command targets editable source/project state.
    Edit,
    /// Command targets sandboxed runtime/play state.
    Play,
}

impl CommandTargetMode {
    /// The stable display name of a mode.
    pub open spec fn name(self) -> Seq<char> {
        match self {
            CommandTargetMode::Edit => "edit"@,
            CommandTargetMode::Play => "play"@,
        }
    }

    /// Returns the stable display name of this mode (`edit` or `play`).
    pub fn as_str(self) -> (s: &'static str)
        ensures
            s@ == self.name(),
    {
        match self {
            CommandTargetMode::Edit => "edit",
            CommandTargetMode::Play => "play",
        }
    }
}

/// Command execution status.
#[derive(Debug, Copy, Clone, PartialEq, Eq, Structural, Hash, PartialOrd, Ord)]
pub enum CommandStatus {
    /// Command validated and completed.
    Succeeded,
    /// Command was rejected before mutation.
    Failed,
}

} // verus!
