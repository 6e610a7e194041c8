//! Errors of command-backed Inspector actions.

use vstd::prelude::*;

use crate::command::error::CommandError;
use crate::text::owned;

verus! {

/// Error returned by command-backed Inspector actions.
#[derive(Debug, PartialEq, Eq)]
pub enum InspectorCommandError {
    /// No project/scene is open in the editor session.
    NoActiveScene,
    /// No scene instance is selected.
    NoSelectedInstance,
    /// Existing command validation rejected the action.
    Command(CommandError),
    /// Scene/reflection inspection failed.
    Scene(String),
}

impl Clone for InspectorCommandError {
    fn clone(&self) -> (r: Self)
        ensures
            r == *self,
    {
        match self {
            InspectorCommandError::NoActiveScene => InspectorCommandError::NoActiveScene,
            InspectorCommandError::NoSelectedInstance => InspectorCommandError::NoSelectedInstance,
            InspectorCommandError::Command(error) => InspectorCommandError::Command(error.clone()),
            InspectorCommandError::Scene(message) => InspectorCommandError::Scene(message.clone()),
        }
    }
}

impl InspectorCommandError {
    /// The human-readable message of this error.
    pub open spec fn spec_message(&self) -> Seq<char> {
        match self {
            InspectorCommandError::NoActiveScene => "no active scene is open"@,
            InspectorCommandError::NoSelectedInstance => "no scene instance is selected"@,
            InspectorCommandError::Command(error) => error@.message(),
            InspectorCommandError::Scene(error) => error@,
        }
    }

    /// Returns the human-readable message of this error.
    pub fn to_string(&self) -> (s: String)
        ensures
            s@ == self.spec_message(),
    {
        match self {
            InspectorCommandError::NoActiveScene => owned("no active scene is open"),
            InspectorCommandError::NoSelectedInstance => owned("no scene instance is selected"),
            InspectorCommandError::Command(error) => error.to_string(),
            InspectorCommandError::Scene(error) => error.clone(),
        }
    }
}

impl From<CommandError> for InspectorCommandError {
    fn from(error: CommandError) -> (e: Self) {
        InspectorCommandError::Command(error)
    }
}

impl vstd::std_specs::convert::FromSpecImpl<CommandError> for InspectorCommandError {
    open spec fn obeys_from_spec() -> bool {
        true
    }

    open spec fn from_spec(v: CommandError) -> InspectorCommandError {
        InspectorCommandError::Command(v)
    }
}

} // verus!
