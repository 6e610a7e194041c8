//! Edit/play target mode requirements for commands.

use vstd::prelude::*;

use crate::command::error::{validate_command_kind, CommandError, CommandErrorView, CommandModelResult};
use crate::command::mode::CommandTargetMode;
use crate::text::is_blank;

verus! {

/// Requires an explicit command target mode.
pub fn require_target_mode(
    command_kind: &str,
    target_mode: Option<CommandTargetMode>,
) -> (r: CommandModelResult<CommandTargetMode>)
    ensures
        is_blank(command_kind@) ==> r is Err && r->Err_0@ is EmptyCommandKind,
        !is_blank(command_kind@) ==> match target_mode {
            None => r is Err && r->Err_0@ == (CommandErrorView::AmbiguousTargetMode {
                command_kind: command_kind@,
            }),
            Some(mode) => r == Ok::<CommandTargetMode, CommandError>(mode),
        },
{
    let command_kind = validate_command_kind(command_kind)?;
    match target_mode {
        None => Err(CommandError::AmbiguousTargetMode { command_kind }),
        Some(mode) => Ok(mode),
    }
}

/// Requires a specific target mode for a command.
pub fn require_specific_target_mode(
    command_kind: &str,
    target_mode: Option<CommandTargetMode>,
    expected: CommandTargetMode,
) -> (r: CommandModelResult<CommandTargetMode>)
    ensures
        is_blank(command_kind@) ==> r is Err && r->Err_0@ is EmptyCommandKind,
        !is_blank(command_kind@) ==> match target_mode {
            None => r is Err && r->Err_0@ == (CommandErrorView::AmbiguousTargetMode {
                command_kind: command_kind@,
            }),
            Some(actual) => if actual == expected {
                r == Ok::<CommandTargetMode, CommandError>(actual)
            } else {
                r is Err && r->Err_0@ == (CommandErrorView::WrongTargetMode {
                    command_kind: command_kind@,
                    expected,
                    actual,
                })
            },
        },
{
    let command_kind = validate_command_kind(command_kind)?;
    let actual = match target_mode {
        None => {
            return Err(CommandError::AmbiguousTargetMode { command_kind });
        },
        Some(actual) => actual,
    };
    if actual == expected {
        Ok(actual)
    } else {
        Err(CommandError::WrongTargetMode { command_kind, expected, actual })
    }
}

} // verus!
