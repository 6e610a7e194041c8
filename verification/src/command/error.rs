//! Command model errors and their diagnostic form.

use vstd::prelude::*;

use crate::command::mode::CommandTargetMode;
use crate::foundation::diagnostics::{
    AgentRepair, Diagnostic, DiagnosticBlockingScope, DiagnosticCode, DiagnosticSeverity,
    DiagnosticSource,
};
use crate::text::{blank, is_blank, join2, join3, owned};

verus! {

/// Result type for command model operations.
pub type CommandModelResult<T> = Result<T, CommandError>;

/// Errors returned while building or validating command model values.
#[derive(Debug, PartialEq, Eq)]
pub enum CommandError {
    /// Command name was empty.
    EmptyCommandKind,
    /// Dirty-state summary text was empty.
    EmptyDirtySummary,
    /// Command needed a target mode but none was provided.
    AmbiguousTargetMode {
        /// Command kind that needed a mode.
        command_kind: String,
    },
    /// Command was invoked against the wrong target mode.
    WrongTargetMode {
        /// Command kind that rejected the mode.
        command_kind: String,
        /// Required command target mode.
        expected: CommandTargetMode,
        /// Actual command target mode.
        actual: CommandTargetMode,
    },
    /// Command validation failed before mutation.
    ValidationFailed {
        /// Command kind that failed validation.
        command_kind: String,
        /// Validation failure reason.
        reason: String,
    },
}

/// The content of a [`CommandError`], with text as character sequences.
pub enum CommandErrorView {
    EmptyCommandKind,
    EmptyDirtySummary,
    AmbiguousTargetMode { command_kind: Seq<char> },
    WrongTargetMode {
        command_kind: Seq<char>,
        expected: CommandTargetMode,
        actual: CommandTargetMode,
    },
    ValidationFailed { command_kind: Seq<char>, reason: Seq<char> },
}

impl View for CommandError {
    type V = CommandErrorView;

    open spec fn view(&self) -> CommandErrorView {
        match self {
            CommandError::EmptyCommandKind => CommandErrorView::EmptyCommandKind,
            CommandError::EmptyDirtySummary => CommandErrorView::EmptyDirtySummary,
            CommandError::AmbiguousTargetMode { command_kind } =>
                CommandErrorView::AmbiguousTargetMode { command_kind: command_kind@ },
            CommandError::WrongTargetMode { command_kind, expected, actual } =>
                CommandErrorView::WrongTargetMode {
                command_kind: command_kind@,
                expected: *expected,
                actual: *actual,
            },
            CommandError::ValidationFailed { command_kind, reason } =>
                CommandErrorView::ValidationFailed {
                command_kind: command_kind@,
                reason: reason@,
            },
        }
    }
}

impl CommandErrorView {
    /// The human-readable message of a command error.
    pub open spec fn message(self) -> Seq<char> {
        match self {
            CommandErrorView::EmptyCommandKind => "command kind must not be empty"@,
            CommandErrorView::EmptyDirtySummary => "dirty-state summary must not be empty"@,
            CommandErrorView::AmbiguousTargetMode { command_kind } =>
                "command target mode is ambiguous for command: "@ + command_kind,
            CommandErrorView::WrongTargetMode { command_kind, expected, actual } => "command "@
                + command_kind + " targets "@ + actual.name() + " mode but requires "@
                + expected.name() + " mode"@,
            CommandErrorView::ValidationFailed { command_kind, reason } => "command "@
                + command_kind + " failed validation: "@ + reason,
        }
    }

    /// The stable diagnostic code text of a command error.
    pub open spec fn code_text(self) -> Seq<char> {
        match self {
            CommandErrorView::EmptyCommandKind => "KT_COMMAND_EMPTY_KIND"@,
            CommandErrorView::EmptyDirtySummary => "KT_COMMAND_EMPTY_DIRTY_SUMMARY"@,
            CommandErrorView::AmbiguousTargetMode { .. } => "KT_COMMAND_AMBIGUOUS_TARGET_MODE"@,
            CommandErrorView::WrongTargetMode { .. } => "KT_COMMAND_WRONG_TARGET_MODE"@,
            CommandErrorView::ValidationFailed { .. } => "KT_COMMAND_VALIDATION_FAILED"@,
        }
    }
}

impl CommandError {
    /// Stable diagnostic code for empty command kinds.
    pub fn empty_command_kind_code() -> (c: DiagnosticCode)
        ensures
            c.text() == "KT_COMMAND_EMPTY_KIND"@,
    {
        DiagnosticCode::new("KT_COMMAND_EMPTY_KIND")
    }

    /// Stable diagnostic code for empty dirty-state summaries.
    pub fn empty_dirty_summary_code() -> (c: DiagnosticCode)
        ensures
            c.text() == "KT_COMMAND_EMPTY_DIRTY_SUMMARY"@,
    {
        DiagnosticCode::new("KT_COMMAND_EMPTY_DIRTY_SUMMARY")
    }

    /// Stable diagnostic code for ambiguous edit/play command target mode.
    pub fn ambiguous_target_mode_code() -> (c: DiagnosticCode)
        ensures
            c.text() == "KT_COMMAND_AMBIGUOUS_TARGET_MODE"@,
    {
        DiagnosticCode::new("KT_COMMAND_AMBIGUOUS_TARGET_MODE")
    }

    /// Stable diagnostic code for commands sent to the wrong target mode.
    pub fn wrong_target_mode_code() -> (c: DiagnosticCode)
        ensures
            c.text() == "KT_COMMAND_WRONG_TARGET_MODE"@,
    {
        DiagnosticCode::new("KT_COMMAND_WRONG_TARGET_MODE")
    }

    /// Stable diagnostic code for command validation failures.
    pub fn validation_failed_code() -> (c: DiagnosticCode)
        ensures
            c.text() == "KT_COMMAND_VALIDATION_FAILED"@,
    {
        DiagnosticCode::new("KT_COMMAND_VALIDATION_FAILED")
    }

    /// Diagnostic source for command-owned validation.
    pub fn command_source() -> (s: DiagnosticSource)
        ensures
            s.text() == "Command"@,
    {
        DiagnosticSource::new("Command")
    }

    /// Returns the stable diagnostic code for this command error.
    pub fn diagnostic_code(&self) -> (c: DiagnosticCode)
        ensures
            c.text() == self@.code_text(),
    {
        match self {
            CommandError::EmptyCommandKind => Self::empty_command_kind_code(),
            CommandError::EmptyDirtySummary => Self::empty_dirty_summary_code(),
            CommandError::AmbiguousTargetMode { .. } => Self::ambiguous_target_mode_code(),
            CommandError::WrongTargetMode { .. } => Self::wrong_target_mode_code(),
            CommandError::ValidationFailed { .. } => Self::validation_failed_code(),
        }
    }

    /// Returns the human-readable message of this error.
    pub fn to_string(&self) -> (s: String)
        ensures
            s@ == self@.message(),
    {
        match self {
            CommandError::EmptyCommandKind => owned("command kind must not be empty"),
            CommandError::EmptyDirtySummary => owned("dirty-state summary must not be empty"),
            CommandError::AmbiguousTargetMode { command_kind } => join2(
                "command target mode is ambiguous for command: ",
                command_kind.as_str(),
            ),
            CommandError::WrongTargetMode { command_kind, expected, actual } => {
                let mut s = join3("command ", command_kind.as_str(), " targets ");
                s.append(actual.as_str());
                s.append(" mode but requires ");
                s.append(expected.as_str());
                s.append(" mode");
                s
            },
            CommandError::ValidationFailed { command_kind, reason } => {
                let mut s = join3("command ", command_kind.as_str(), " failed validation: ");
                s.append(reason.as_str());
                s
            },
        }
    }

    /// Converts this error into a structured diagnostic that blocks editing.
    pub fn to_diagnostic(&self) -> (d: Diagnostic)
        ensures
            d.code.text() == self@.code_text(),
            d.severity == DiagnosticSeverity::Error,
            d.source.text() == "Command"@,
            d.message@ == self@.message(),
            d.blocking == Some(DiagnosticBlockingScope::Edit),
            d.location.is_empty(),
            d.suggested_fix is None,
            d.agent_repair == AgentRepair::NotAllowed,
    {
        let message = self.to_string();
        Diagnostic::new(
            self.diagnostic_code(),
            DiagnosticSeverity::Error,
            Self::command_source(),
            message.as_str(),
        ).with_blocking_scope(DiagnosticBlockingScope::Edit)
    }
}

impl Clone for CommandError {
    fn clone(&self) -> (r: Self)
        ensures
            r == *self,
    {
        match self {
            CommandError::EmptyCommandKind => CommandError::EmptyCommandKind,
            CommandError::EmptyDirtySummary => CommandError::EmptyDirtySummary,
            CommandError::AmbiguousTargetMode { command_kind } =>
                CommandError::AmbiguousTargetMode { command_kind: command_kind.clone() },
            CommandError::WrongTargetMode { command_kind, expected, actual } =>
                CommandError::WrongTargetMode {
                command_kind: command_kind.clone(),
                expected: *expected,
                actual: *actual,
            },
            CommandError::ValidationFailed { command_kind, reason } =>
                CommandError::ValidationFailed {
                command_kind: command_kind.clone(),
                reason: reason.clone(),
            },
        }
    }
}

/// Checks that a command kind is not blank and returns it as owned text.
pub(crate) fn validate_command_kind(command_kind: &str) -> (r: CommandModelResult<String>)
    ensures
        is_blank(command_kind@) ==> r is Err && r->Err_0@ is EmptyCommandKind,
        !is_blank(command_kind@) ==> r is Ok && r->Ok_0@ == command_kind@,
{
    if blank(command_kind) {
        Err(CommandError::EmptyCommandKind)
    } else {
        Ok(owned(command_kind))
    }
}

/// Checks that a dirty-state summary is not blank and returns it as owned text.
pub(crate) fn validate_dirty_summary(dirty_summary: &str) -> (r: CommandModelResult<String>)
    ensures
        is_blank(dirty_summary@) ==> r is Err && r->Err_0@ is EmptyDirtySummary,
        !is_blank(dirty_summary@) ==> r is Ok && r->Ok_0@ == dirty_summary@,
{
    if blank(dirty_summary) {
        Err(CommandError::EmptyDirtySummary)
    } else {
        Ok(owned(dirty_summary))
    }
}

} // verus!
