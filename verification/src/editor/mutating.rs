//! Agent-facing mutating MCP commands: command names, responses, and the
//! session that commits command results to its own undo history.

use vstd::prelude::*;

use crate::command::change::{texts, CommandChangeRecord, CommandChangeRecordView};
use crate::command::dirty::{explain, DirtyStateExplanation};
use crate::command::error::CommandError;
use crate::command::history::{is_undoable, CommandHistory, CommandHistoryView, UndoRedoRecord};
use crate::command::mode::{CommandStatus, CommandTargetMode};
use crate::command::result::{record_views, CommandResult};
use crate::editor::mcp::{
    diagnostics_list_response, dirty_response_of, dirty_state_response, summary_of, summary_views,
    DiagnosticSummary, DirtyStateResponse,
};
use crate::foundation::diagnostics::Diagnostic;
use crate::text::{is_blank, owned};

verus! {

/// Editor-owned mutating MCP command names.
#[derive(Debug, Copy, Clone, PartialEq, Eq, Structural, Hash, PartialOrd, Ord)]
pub enum McpMutatingCommand {
    /// Create a child instance.
    SceneCreateInstance,
    /// Delete an instance subtree.
    SceneDeleteInstance,
    /// Rename an instance.
    SceneRenameInstance,
    /// Reparent an instance.
    SceneReparentInstance,
    /// Duplicate an instance subtree.
    SceneDuplicateInstance,
    /// Set a reflected property.
    SceneSetProperty,
    /// Move the latest command history record to the redo stack.
    EditorUndo,
    /// Move the latest redo record back to the undo stack.
    EditorRedo,
}

impl McpMutatingCommand {
    /// The stable MCP command name.
    pub open spec fn spec_name(self) -> Seq<char> {
        match self {
            McpMutatingCommand::SceneCreateInstance => "scene.create_instance"@,
            McpMutatingCommand::SceneDeleteInstance => "scene.delete_instance"@,
            McpMutatingCommand::SceneRenameInstance => "scene.rename_instance"@,
            McpMutatingCommand::SceneReparentInstance => "scene.reparent_instance"@,
            McpMutatingCommand::SceneDuplicateInstance => "scene.duplicate_instance"@,
            McpMutatingCommand::SceneSetProperty => "scene.set_property"@,
            McpMutatingCommand::EditorUndo => "editor.undo"@,
            McpMutatingCommand::EditorRedo => "editor.redo"@,
        }
    }

    /// Returns the stable MCP command name.
    pub fn as_str(self) -> (s: &'static str)
        ensures
            s@ == self.spec_name(),
    {
        match self {
            McpMutatingCommand::SceneCreateInstance => "scene.create_instance",
            McpMutatingCommand::SceneDeleteInstance => "scene.delete_instance",
            McpMutatingCommand::SceneRenameInstance => "scene.rename_instance",
            McpMutatingCommand::SceneReparentInstance => "scene.reparent_instance",
            McpMutatingCommand::SceneDuplicateInstance => "scene.duplicate_instance",
            McpMutatingCommand::SceneSetProperty => "scene.set_property",
            McpMutatingCommand::EditorUndo => "editor.undo",
            McpMutatingCommand::EditorRedo => "editor.redo",
        }
    }
}

/// Mutating MCP command response.
#[derive(Debug, PartialEq)]
pub struct McpMutationResponse {
    /// Stable command kind.
    pub command_kind: String,
    /// Command target mode.
    pub target_mode: Option<CommandTargetMode>,
    /// Command status.
    pub status: CommandStatus,
    /// Diagnostics returned by validation or execution.
    pub diagnostics: Vec<DiagnosticSummary>,
    /// Dirty/change summaries produced by the command.
    pub change_summaries: Vec<String>,
    /// Undo group assigned after command history commit.
    pub undo_group: Option<u64>,
    /// Dirty state after command execution.
    pub dirty_state: DirtyStateResponse,
}

/// Undo/redo MCP response.
#[derive(Debug, PartialEq, Eq)]
pub struct McpUndoRedoResponse {
    /// Whether a history record moved.
    pub moved: bool,
    /// Undo group that moved, when any.
    pub undo_group: Option<u64>,
    /// User-facing command summary, when any.
    pub summary: Option<String>,
    /// Dirty state after stack movement.
    pub dirty_state: DirtyStateResponse,
}

/// The dirty summaries of a list of change records.
pub open spec fn change_summaries_of(changes: Seq<CommandChangeRecordView>) -> Seq<Seq<char>> {
    changes.map_values(|c: CommandChangeRecordView| c.dirty_summary)
}

fn collect_change_summaries(changes: &[CommandChangeRecord]) -> (r: Vec<String>)
    ensures
        texts(r@) == change_summaries_of(record_views(changes@)),
{
    let ghost views = record_views(changes@);
    let mut r: Vec<String> = Vec::new();
    let mut i: usize = 0;
    while i < changes.len()
        invariant
            0 <= i <= changes@.len(),
            views == record_views(changes@),
            texts(r@) == change_summaries_of(views.take(i as int)),
        decreases changes@.len() - i,
    {
        let ghost before = r@;
        r.push(owned(changes[i].dirty_summary()));
        proof {
            assert(texts(r@) =~= texts(before).push(views[i as int].dirty_summary));
            assert(views.take(i + 1) =~= views.take(i as int).push(views[i as int]));
            assert(change_summaries_of(views.take(i + 1)) =~= change_summaries_of(
                views.take(i as int),
            ).push(views[i as int].dirty_summary));
        }
        i = i + 1;
    }
    proof {
        assert(views.take(i as int) =~= views);
    }
    r
}

/// The response `r` and the history going from `before` to `after` are
/// what committing the outcome `result` of a `command_kind` command gives:
/// an error becomes a failed result carrying the error's diagnostic, an
/// undoable result is recorded under the next undo group summarized by its
/// command kind, and anything else leaves the history unchanged.
pub open spec fn commits_outcome(
    before: CommandHistoryView,
    after: CommandHistoryView,
    command_kind: Seq<char>,
    target_mode: Option<CommandTargetMode>,
    result: Result<CommandResult, CommandError>,
    r: McpMutationResponse,
) -> bool {
    &&& (r.dirty_state@ == dirty_response_of(explain(after)))
    &&& (match result {
        Ok(c) => {
                    &&& r.command_kind@ == c@.command_kind
                    &&& r.target_mode == c@.target_mode
                    &&& r.status == c@.status
                    &&& summary_views(r.diagnostics@) == c@.diagnostics.map_values(
                        |d: Diagnostic| summary_of(d),
                    )
                    &&& texts(r.change_summaries@) == change_summaries_of(c@.changes)
                    &&& !is_undoable(c@) ==> r.undo_group is None && after == before
                    &&& is_undoable(c@) ==> {
                        &&& r.undo_group == Some(before.next_group)
                        &&& after.undo.len() == before.undo.len() + 1
                        &&& after.undo.drop_last() == before.undo
                        &&& after.undo.last().group_id.value() == before.next_group
                        &&& after.undo.last().summary == c@.command_kind
                        &&& after.undo.last().target_mode == c@.target_mode->0
                        &&& after.redo.len() == 0
                        &&& after.next_group == before.next_group + 1
                    }
                },
                Err(e) => {
                    &&& r.command_kind@ == command_kind
                    &&& r.target_mode == target_mode
                    &&& r.status == CommandStatus::Failed
                    &&& r.diagnostics@.len() == 1
                    &&& r.diagnostics@[0]@.code == e@.code_text()
                    &&& r.diagnostics@[0]@.message == e@.message()
                    &&& r.change_summaries@.len() == 0
                    &&& r.undo_group is None
                    &&& after == before
                },
            })
}

/// Editor-owned mutating MCP session with its own command history.
#[derive(Debug, PartialEq)]
pub struct McpMutationSession {
    history: CommandHistory,
}

impl View for McpMutationSession {
    type V = CommandHistoryView;

    closed spec fn view(&self) -> CommandHistoryView {
        self.history@
    }
}

impl McpMutationSession {
    /// Creates a mutating MCP session with empty history.
    pub fn new() -> (s: Self)
        ensures
            s@.undo.len() == 0,
            s@.redo.len() == 0,
            s@.next_group == 1,
    {
        McpMutationSession { history: CommandHistory::new() }
    }

    /// Returns command history.
    pub fn history(&self) -> (h: &CommandHistory)
        ensures
            h@ == self@,
    {
        &self.history
    }

    /// Commits the outcome of a scene command to the session history and
    /// reports it. An error becomes a failed result for `command_kind` and
    /// `target_mode` carrying the error's diagnostic. An undoable result is
    /// recorded under the next undo group, summarized by its command kind;
    /// anything else leaves the history unchanged.
    pub fn commit_command_result(
        &mut self,
        command_kind: &str,
        target_mode: Option<CommandTargetMode>,
        result: Result<CommandResult, CommandError>,
    ) -> (r: McpMutationResponse)
        requires
            !is_blank(command_kind@),
            old(self)@.next_group < u64::MAX,
        ensures
            commits_outcome(old(self)@, final(self)@, command_kind@, target_mode, result, r),
    {
        commit_to_history(&mut self.history, command_kind, target_mode, result)
    }

    /// Moves the latest undo record to the redo stack and reports it.
    pub fn undo(&mut self) -> (r: McpUndoRedoResponse)
        ensures
            old(self)@.undo.len() == 0 ==> final(self)@ == old(self)@ && !r.moved && r.undo_group is None
                && r.summary is None,
            old(self)@.undo.len() > 0 ==> final(self)@ == (CommandHistoryView {
                undo: old(self)@.undo.drop_last(),
                redo: old(self)@.redo.push(old(self)@.undo.last()),
                next_group: old(self)@.next_group,
            }) && r.moved && r.undo_group == Some(old(self)@.undo.last().group_id.value())
                && r.summary is Some && r.summary->0@ == old(self)@.undo.last().summary,
            r.dirty_state@ == dirty_response_of(explain(final(self)@)),
    {
        let record = self.history.pop_undo();
        undo_redo_response(&self.history, record)
    }

    /// Moves the latest redo record back to the undo stack and reports it.
    pub fn redo(&mut self) -> (r: McpUndoRedoResponse)
        ensures
            old(self)@.redo.len() == 0 ==> final(self)@ == old(self)@ && !r.moved && r.undo_group is None
                && r.summary is None,
            old(self)@.redo.len() > 0 ==> final(self)@ == (CommandHistoryView {
                undo: old(self)@.undo.push(old(self)@.redo.last()),
                redo: old(self)@.redo.drop_last(),
                next_group: old(self)@.next_group,
            }) && r.moved && r.undo_group == Some(old(self)@.redo.last().group_id.value())
                && r.summary is Some && r.summary->0@ == old(self)@.redo.last().summary,
            r.dirty_state@ == dirty_response_of(explain(final(self)@)),
    {
        let record = self.history.pop_redo();
        undo_redo_response(&self.history, record)
    }
}

/// Reports a stack movement of `history`: the moved record, if any, and the
/// dirty state after it.
pub(crate) fn undo_redo_response(history: &CommandHistory, record: Option<UndoRedoRecord>) -> (r:
    McpUndoRedoResponse)
    ensures
        r.moved == record is Some,
        record is None ==> r.undo_group is None && r.summary is None,
        record is Some ==> r.undo_group == Some(record->0@.group_id.value()) && r.summary is Some
            && r.summary->0@ == record->0@.summary,
        r.dirty_state@ == dirty_response_of(explain(history@)),
{
    let explanation = DirtyStateExplanation::from_history(history);
    let dirty_state = dirty_state_response(&explanation);
    match record {
        Some(rec) => McpUndoRedoResponse {
            moved: true,
            undo_group: Some(rec.group_id().raw()),
            summary: Some(owned(rec.summary())),
            dirty_state,
        },
        None => McpUndoRedoResponse {
            moved: false,
            undo_group: None,
            summary: None,
            dirty_state,
        },
    }
}

/// Commits the outcome of a command to `history` and reports it.
pub(crate) fn commit_to_history(
    history: &mut CommandHistory,
    command_kind: &str,
    target_mode: Option<CommandTargetMode>,
    result: Result<CommandResult, CommandError>,
) -> (r: McpMutationResponse)
    requires
        !is_blank(command_kind@),
        old(history)@.next_group < u64::MAX,
    ensures
        commits_outcome(old(history)@, final(history)@, command_kind@, target_mode, result, r),
{
    let command = match result {
        Ok(c) => c,
        Err(e) => CommandResult::rejected(command_kind, target_mode, &e).unwrap(),
    };
    let kind = command.command_kind();
    let record = history.commit_result(kind, &command).unwrap();
    proof {
        if is_undoable(command@) {
            assert(history@.undo.drop_last() =~= old(history)@.undo);
        }
    }
    let undo_group = match &record {
        Some(rec) => Some(rec.group_id().raw()),
        None => None,
    };
    let explanation = DirtyStateExplanation::from_history(history);
    let dirty_state = dirty_state_response(&explanation);
    let diagnostics = diagnostics_list_response(command.diagnostics());
    let change_summaries = collect_change_summaries(command.changes());
    proof {
        assert(summary_views(diagnostics@).len() == diagnostics@.len());
        assert(texts(change_summaries@).len() == change_summaries@.len());
        if result is Err {
            assert(command@.diagnostics.map_values(|d: Diagnostic| summary_of(d))[0] == summary_of(command@.diagnostics[0]));
            assert(summary_views(diagnostics@)[0] == diagnostics@[0]@);
        }
    }
    McpMutationResponse {
        command_kind: owned(kind),
        target_mode: command.target_mode(),
        status: command.status(),
        diagnostics,
        change_summaries,
        undo_group,
        dirty_state,
    }
}

impl Default for McpMutationSession {
    fn default() -> (s: Self)
        ensures
            s@.undo.len() == 0,
            s@.redo.len() == 0,
            s@.next_group == 1,
    {
        Self::new()
    }
}

} // verus!
