//! Deterministic command results.

use vstd::prelude::*;

use crate::command::change::{CommandChangeRecord, CommandChangeRecordView};
use crate::command::error::{validate_command_kind, CommandError, CommandModelResult};
use crate::command::mode::{CommandStatus, CommandTargetMode};
use crate::foundation::diagnostics::Diagnostic;
use crate::text::is_blank;

verus! {

/// The views of a list of change records.
pub open spec fn record_views(v: Seq<CommandChangeRecord>) -> Seq<CommandChangeRecordView> {
    v.map_values(|c: CommandChangeRecord| c@)
}

/// The content of a [`CommandResult`].
pub struct CommandResultView {
    pub command_kind: Seq<char>,
    pub target_mode: Option<CommandTargetMode>,
    pub status: CommandStatus,
    pub diagnostics: Seq<Diagnostic>,
    pub changes: Seq<CommandChangeRecordView>,
}

impl CommandResultView {
    /// A successful edit-mode result of `command_kind` with no diagnostics
    /// and exactly one change record.
    pub open spec fn is_single_edit_change(self, command_kind: Seq<char>) -> bool {
        &&& self.command_kind == command_kind
        &&& self.target_mode == Some(CommandTargetMode::Edit)
        &&& self.status == CommandStatus::Succeeded
        &&& self.diagnostics.len() == 0
        &&& self.changes.len() == 1
    }
}

/// Deterministic result returned by command validation or execution.
///
/// The command kind is never blank, and a failed result carries no changes.
#[derive(Debug, PartialEq)]
pub struct CommandResult {
    command_kind: String,
    target_mode: Option<CommandTargetMode>,
    status: CommandStatus,
    diagnostics: Vec<Diagnostic>,
    changes: Vec<CommandChangeRecord>,
}

impl View for CommandResult {
    type V = CommandResultView;

    closed spec fn view(&self) -> CommandResultView {
        CommandResultView {
            command_kind: self.command_kind@,
            target_mode: self.target_mode,
            status: self.status,
            diagnostics: self.diagnostics@,
            changes: record_views(self.changes@),
        }
    }
}

impl CommandResult {
    #[verifier::type_invariant]
    spec fn well_formed(self) -> bool {
        &&& !is_blank(self.command_kind@)
        &&& self.status == CommandStatus::Failed ==> self.changes@.len() == 0
    }

    /// Creates a successful command result.
    pub fn succeeded(command_kind: &str, target_mode: CommandTargetMode) -> (r: CommandModelResult<
        Self,
    >)
        ensures
            is_blank(command_kind@) ==> r is Err && r->Err_0@ is EmptyCommandKind,
            !is_blank(command_kind@) ==> r is Ok && r->Ok_0@ == (CommandResultView {
                command_kind: command_kind@,
                target_mode: Some(target_mode),
                status: CommandStatus::Succeeded,
                diagnostics: Seq::empty(),
                changes: Seq::empty(),
            }),
    {
        let changes: Vec<CommandChangeRecord> = Vec::new();
        assert(record_views(changes@) =~= Seq::<CommandChangeRecordView>::empty());
        Self::succeeded_with_changes(command_kind, target_mode, changes)
    }

    /// Creates a successful command result with semantic change records.
    pub fn succeeded_with_changes(
        command_kind: &str,
        target_mode: CommandTargetMode,
        changes: Vec<CommandChangeRecord>,
    ) -> (r: CommandModelResult<Self>)
        ensures
            is_blank(command_kind@) ==> r is Err && r->Err_0@ is EmptyCommandKind,
            !is_blank(command_kind@) ==> r is Ok && r->Ok_0@ == (CommandResultView {
                command_kind: command_kind@,
                target_mode: Some(target_mode),
                status: CommandStatus::Succeeded,
                diagnostics: Seq::empty(),
                changes: record_views(changes@),
            }),
    {
        let command_kind = validate_command_kind(command_kind)?;
        let r = CommandResult {
            command_kind,
            target_mode: Some(target_mode),
            status: CommandStatus::Succeeded,
            diagnostics: Vec::new(),
            changes,
        };
        assert(r.diagnostics@ =~= Seq::<Diagnostic>::empty());
        Ok(r)
    }

    /// Creates a failed command result from deterministic diagnostics.
    pub fn failed(
        command_kind: &str,
        target_mode: Option<CommandTargetMode>,
        diagnostics: Vec<Diagnostic>,
    ) -> (r: CommandModelResult<Self>)
        ensures
            is_blank(command_kind@) ==> r is Err && r->Err_0@ is EmptyCommandKind,
            !is_blank(command_kind@) ==> r is Ok && r->Ok_0@ == (CommandResultView {
                command_kind: command_kind@,
                target_mode,
                status: CommandStatus::Failed,
                diagnostics: diagnostics@,
                changes: Seq::empty(),
            }),
    {
        let command_kind = validate_command_kind(command_kind)?;
        let r = CommandResult {
            command_kind,
            target_mode,
            status: CommandStatus::Failed,
            diagnostics,
            changes: Vec::new(),
        };
        assert(record_views(r.changes@) =~= Seq::<CommandChangeRecordView>::empty());
        Ok(r)
    }

    /// Creates a failed command result from a command error: its one
    /// diagnostic is the error's diagnostic.
    pub fn rejected(
        command_kind: &str,
        target_mode: Option<CommandTargetMode>,
        error: &CommandError,
    ) -> (r: CommandModelResult<Self>)
        ensures
            is_blank(command_kind@) ==> r is Err && r->Err_0@ is EmptyCommandKind,
            !is_blank(command_kind@) ==> r is Ok && r->Ok_0@.command_kind == command_kind@
                && r->Ok_0@.target_mode == target_mode && r->Ok_0@.status == CommandStatus::Failed
                && r->Ok_0@.changes.len() == 0 && r->Ok_0@.diagnostics.len() == 1
                && r->Ok_0@.diagnostics[0].code.text() == error@.code_text()
                && r->Ok_0@.diagnostics[0].message@ == error@.message(),
    {
        let mut diagnostics = Vec::new();
        diagnostics.push(error.to_diagnostic());
        Self::failed(command_kind, target_mode, diagnostics)
    }

    /// Returns the stable command kind.
    pub fn command_kind(&self) -> (s: &str)
        ensures
            s@ == self@.command_kind,
            !is_blank(s@),
    {
        proof {
            use_type_invariant(self);
        }
        self.command_kind.as_str()
    }

    /// Returns the command target mode when known.
    pub fn target_mode(&self) -> (m: Option<CommandTargetMode>)
        ensures
            m == self@.target_mode,
    {
        self.target_mode
    }

    /// Returns the command status.
    pub fn status(&self) -> (s: CommandStatus)
        ensures
            s == self@.status,
    {
        self.status
    }

    /// Returns whether this result succeeded.
    pub fn is_success(&self) -> (b: bool)
        ensures
            b == (self@.status == CommandStatus::Succeeded),
    {
        match self.status {
            CommandStatus::Succeeded => true,
            CommandStatus::Failed => false,
        }
    }

    /// Returns whether this result failed before mutation.
    pub fn is_failure(&self) -> (b: bool)
        ensures
            b == (self@.status == CommandStatus::Failed),
    {
        match self.status {
            CommandStatus::Succeeded => false,
            CommandStatus::Failed => true,
        }
    }

    /// Returns diagnostics in deterministic command validation order.
    pub fn diagnostics(&self) -> (d: &[Diagnostic])
        ensures
            d@ == self@.diagnostics,
    {
        self.diagnostics.as_slice()
    }

    /// Returns semantic change records in deterministic command execution order.
    pub fn changes(&self) -> (c: &[CommandChangeRecord])
        ensures
            record_views(c@) == self@.changes,
    {
        self.changes.as_slice()
    }
}

/// Wraps one edit-mode change record of `command_kind` in a successful result.
pub(crate) fn single_edit_result(command_kind: &str, change: CommandChangeRecord) -> (r: CommandModelResult<
    CommandResult,
>)
    requires
        !is_blank(command_kind@),
    ensures
        r is Ok,
        r->Ok_0@.is_single_edit_change(command_kind@),
        r->Ok_0@.changes[0] == change@,
{
    let changes = vec![change];
    assert(record_views(changes@) =~= seq![change@]);
    CommandResult::succeeded_with_changes(command_kind, CommandTargetMode::Edit, changes)
}

} // verus!
