//! The open Kinetik Studio editor session: project, active scene, selection,
//! command history, session diagnostics and edit/play ownership.

use vstd::prelude::*;

use crate::command::dirty::{explain, DirtyStateExplanation};
use crate::command::error::{CommandError, CommandErrorView};
use crate::command::history::{redone, undone, CommandHistory, CommandHistoryView};
use crate::command::mode::{CommandStatus, CommandTargetMode};
use crate::command::result::CommandResult;
use crate::command::target_mode::require_specific_target_mode;
use crate::editor::mcp::{
    applies_selection, apply_selection_request, diagnostics_list_response, dirty_response_of,
    dirty_state_response, error_summary, project_status_response, reports_selection, summary_of,
    summary_views, DiagnosticSummary, DiagnosticSummaryView, DirtyStateResponse,
    McpSelectionResponse, ProjectStatusResponse, ResourceManifestResponse, SceneInstanceSummary,
    McpSelectionCommandResponse, McpSelectionRequest, SceneInstanceLookup,
};
use crate::editor::mutating::{
    commit_to_history, commits_outcome, undo_redo_response, McpMutationResponse,
    McpUndoRedoResponse,
};
use crate::editor::play::{
    can_step, is_play_state_diagnostic, is_stepped, play_state_of, EditorPlayError,
    EditorPlaySession, McpPlayCommand, McpPlayCommandResponse, McpPlayStateResponse,
    PlayFrameStep,
};
use crate::editor::session::{
    panel_item_of, panel_item_views, DiagnosticPanelItem, DiagnosticPanelItemView,
    DiagnosticsPanelState, EditorDocumentSelection, EditorModeState, EditorSelection,
    EditorSessionProject,
};
use crate::editor::persistence::EditorPersistenceError;
use crate::editor::shell::EditorPanel;
use crate::foundation::diagnostics::Diagnostic;
use crate::project::project_model::ProjectModel;
use crate::runtime::frame::FrameCounters;
use crate::runtime::world::{
    cloned_records, document_size, first_with_edit_guid, has_edit_guid, runtime_id,
    RuntimeInstanceId, RuntimeWorld, RuntimeWorldId, SceneInstanceDocument,
};
use crate::text::{is_blank, is_white_space, owned};

verus! {

/// The diagnostics the diagnostics panel shows: the open project's
/// diagnostics, then the session's own, then those of the running play
/// sandbox.
pub open spec fn panel_diagnostics(
    project: Option<ProjectModel>,
    session: Seq<Diagnostic>,
    play: Option<EditorPlaySession>,
) -> Seq<Diagnostic> {
    let from_project = match project {
        Some(p) => p.spec_diagnostics(),
        None => Seq::empty(),
    };
    let from_play = match play {
        Some(p) => p.spec_diagnostics(),
        None => Seq::empty(),
    };
    from_project + session + from_play
}

/// Open Kinetik Studio editor session state.
///
/// The active scene is held as its document tree; the session carries it
/// for the scene tools and for play mode, and reads nothing inside it.
#[derive(Debug)]
pub struct EditorSession {
    project: Option<ProjectModel>,
    active_scene: Option<SceneInstanceDocument>,
    selection: EditorSelection,
    command_history: CommandHistory,
    session_diagnostics: Vec<Diagnostic>,
    mode: EditorModeState,
    play: Option<EditorPlaySession>,
}

impl EditorSession {
    /// The open project, if any.
    pub closed spec fn spec_project(self) -> Option<ProjectModel> {
        self.project
    }

    /// The active scene, if any.
    pub closed spec fn spec_active_scene(self) -> Option<SceneInstanceDocument> {
        self.active_scene
    }

    /// The selection and focus state.
    pub closed spec fn spec_selection(self) -> EditorSelection {
        self.selection
    }

    /// The command history.
    pub closed spec fn spec_history(self) -> CommandHistoryView {
        self.command_history@
    }

    /// The editor-session-owned diagnostics.
    pub closed spec fn spec_session_diagnostics(self) -> Seq<Diagnostic> {
        self.session_diagnostics@
    }

    /// The edit/play ownership.
    pub closed spec fn spec_mode(self) -> EditorModeState {
        self.mode
    }

    /// The play-mode sandbox, while play runs.
    pub closed spec fn spec_play(self) -> Option<EditorPlaySession> {
        self.play
    }

    /// No project or scene is open, nothing is selected or focused, the
    /// history and the session diagnostics are empty, and the session edits.
    pub open spec fn is_closed(self) -> bool {
        &&& self.spec_project() is None
        &&& self.spec_active_scene() is None
        &&& self.spec_selection().spec_document() is Empty
        &&& self.spec_selection().spec_focus().spec_panel() is None
        &&& self.spec_history().undo.len() == 0
        &&& self.spec_history().redo.len() == 0
        &&& self.spec_history().next_group == 1
        &&& self.spec_session_diagnostics().len() == 0
        &&& self.spec_mode() == EditorModeState::Edit
        &&& self.spec_play() is None
    }

    /// Creates a closed editor session.
    pub fn new() -> (s: Self)
        ensures
            s.is_closed(),
    {
        let s = EditorSession {
            project: None,
            active_scene: None,
            selection: EditorSelection::new(),
            command_history: CommandHistory::new(),
            session_diagnostics: Vec::new(),
            mode: EditorModeState::Edit,
            play: None,
        };
        assert(s.session_diagnostics@.len() == 0);
        s
    }

    /// Opens project and scene document state into the editor session; all
    /// editor-only state starts afresh.
    pub fn open_project(&mut self, project: ProjectModel, active_scene: SceneInstanceDocument)
        ensures
            final(self).spec_project() == Some(project),
            final(self).spec_active_scene() == Some(active_scene),
            final(self).spec_selection().spec_document() is Empty,
            final(self).spec_selection().spec_focus().spec_panel() is None,
            final(self).spec_history().undo.len() == 0,
            final(self).spec_history().redo.len() == 0,
            final(self).spec_history().next_group == 1,
            final(self).spec_session_diagnostics().len() == 0,
            final(self).spec_mode() == EditorModeState::Edit,
            final(self).spec_play() is None,
    {
        self.project = Some(project);
        self.active_scene = Some(active_scene);
        self.selection.clear();
        self.command_history = CommandHistory::new();
        self.session_diagnostics.clear();
        self.mode = EditorModeState::Edit;
        self.play = None;
    }

    /// Whether a project and its active scene are open, so that there is
    /// something to save.
    pub open spec fn has_saveable_project(self) -> bool {
        self.spec_project() is Some && self.spec_active_scene() is Some
    }

    /// Checks that there is a project to save before its files are written.
    pub fn save_target_ready(&self) -> (r: Result<(), EditorPersistenceError>)
        ensures
            r is Ok <==> self.has_saveable_project(),
            r is Err ==> r == Err::<(), EditorPersistenceError>(EditorPersistenceError::NoActiveProject),
    {
        if self.project.is_none() || self.active_scene.is_none() {
            return Err(EditorPersistenceError::NoActiveProject);
        }
        Ok(())
    }

    /// Completes a save once the written files have been read back and
    /// compared with the session: refused when no project and scene are
    /// open, or when the snapshots read back differ; otherwise the command
    /// history starts afresh, so the project is clean, and all other session
    /// state stays.
    pub fn finish_save(&mut self, snapshots_match: bool) -> (r: Result<(), EditorPersistenceError>)
        ensures
            !old(self).has_saveable_project() ==> r == Err::<(), EditorPersistenceError>(
                EditorPersistenceError::NoActiveProject,
            ),
            old(self).has_saveable_project() && !snapshots_match ==> r == Err::<(), EditorPersistenceError>(
                EditorPersistenceError::SnapshotMismatch,
            ),
            r is Err ==> *final(self) == *old(self),
            old(self).has_saveable_project() && snapshots_match ==> r is Ok,
            r is Ok ==> {
                &&& final(self).spec_history().undo.len() == 0
                &&& final(self).spec_history().redo.len() == 0
                &&& final(self).spec_history().next_group == 1
                &&& final(self).spec_project() == old(self).spec_project()
                &&& final(self).spec_active_scene() == old(self).spec_active_scene()
                &&& final(self).spec_selection() == old(self).spec_selection()
                &&& final(self).spec_session_diagnostics() == old(self).spec_session_diagnostics()
                &&& final(self).spec_mode() == old(self).spec_mode()
                &&& final(self).spec_play() == old(self).spec_play()
            },
    {
        match self.save_target_ready() {
            Ok(()) => {},
            Err(error) => return Err(error),
        }
        if !snapshots_match {
            return Err(EditorPersistenceError::SnapshotMismatch);
        }
        self.command_history = CommandHistory::new();
        Ok(())
    }

    /// Closes the current project and clears editor-only state.
    pub fn close_project(&mut self)
        ensures
            final(self).is_closed(),
    {
        self.project = None;
        self.active_scene = None;
        self.selection.clear();
        self.command_history = CommandHistory::new();
        self.session_diagnostics.clear();
        self.mode = EditorModeState::Edit;
        self.play = None;
    }

    /// Returns whether a project is open.
    pub fn is_open(&self) -> (b: bool)
        ensures
            b == self.spec_project() is Some,
    {
        self.project.is_some()
    }

    /// Returns a lightweight project summary for the open session.
    pub fn project_summary(&self) -> (r: Option<EditorSessionProject>)
        ensures
            r is Some == self.spec_project() is Some,
            r is Some ==> {
                let p = self.spec_project()->0;
                &&& r->0@.project_name == p.spec_settings().spec_identity().spec_name()
                &&& r->0@.engine_compatibility
                    == p.spec_settings().spec_identity().spec_engine_compatibility()
                &&& r->0@.active_scene_path == p.spec_documents().spec_active_scene()
                &&& r->0@.assets_manifest_path == p.spec_documents().spec_assets_manifest()
                &&& r->0@.instances_manifest_path == p.spec_documents().spec_instances_manifest()
            },
    {
        match &self.project {
            Some(project) => Some(EditorSessionProject::from_project(project)),
            None => None,
        }
    }

    /// Returns the open project model.
    pub fn project(&self) -> (r: Option<&ProjectModel>)
        ensures
            r is Some == self.spec_project() is Some,
            r is Some ==> *r->0 == self.spec_project()->0,
    {
        match &self.project {
            Some(project) => Some(project),
            None => None,
        }
    }

    /// Returns the active scene.
    pub fn active_scene(&self) -> (r: Option<&SceneInstanceDocument>)
        ensures
            r is Some == self.spec_active_scene() is Some,
            r is Some ==> *r->0 == self.spec_active_scene()->0,
    {
        match &self.active_scene {
            Some(scene) => Some(scene),
            None => None,
        }
    }

    /// Returns mutable active scene state for scene tools; nothing else of
    /// the session changes through it.
    pub fn active_scene_mut(&mut self) -> (r: Option<&mut SceneInstanceDocument>)
        ensures
            old(self).spec_active_scene() is None ==> r is None && *final(self) == *old(self),
            old(self).spec_active_scene() is Some ==> (r matches Some(a) && *a
                == old(self).spec_active_scene()->0 && final(self).spec_active_scene() == Some(
                *final(a),
            )),
            final(self).spec_project() == old(self).spec_project(),
            final(self).spec_selection() == old(self).spec_selection(),
            final(self).spec_history() == old(self).spec_history(),
            final(self).spec_session_diagnostics() == old(self).spec_session_diagnostics(),
            final(self).spec_mode() == old(self).spec_mode(),
            final(self).spec_play() == old(self).spec_play(),
    {
        match &mut self.active_scene {
            Some(scene) => Some(scene),
            None => None,
        }
    }

    /// Returns current selection and focus state.
    pub fn selection(&self) -> (s: &EditorSelection)
        ensures
            *s == self.spec_selection(),
    {
        &self.selection
    }

    /// Returns mutable selection and focus state; nothing else of the
    /// session changes through it.
    pub fn selection_mut(&mut self) -> (s: &mut EditorSelection)
        ensures
            *s == old(self).spec_selection(),
            final(self).spec_selection() == *final(s),
            final(self).spec_project() == old(self).spec_project(),
            final(self).spec_active_scene() == old(self).spec_active_scene(),
            final(self).spec_history() == old(self).spec_history(),
            final(self).spec_session_diagnostics() == old(self).spec_session_diagnostics(),
            final(self).spec_mode() == old(self).spec_mode(),
            final(self).spec_play() == old(self).spec_play(),
    {
        &mut self.selection
    }

    /// Returns mutable command history for command integration; nothing else
    /// of the session changes through it.
    pub fn command_history_mut(&mut self) -> (h: &mut CommandHistory)
        ensures
            h@ == old(self).spec_history(),
            final(self).spec_history() == final(h)@,
            final(self).spec_project() == old(self).spec_project(),
            final(self).spec_active_scene() == old(self).spec_active_scene(),
            final(self).spec_selection() == old(self).spec_selection(),
            final(self).spec_session_diagnostics() == old(self).spec_session_diagnostics(),
            final(self).spec_mode() == old(self).spec_mode(),
            final(self).spec_play() == old(self).spec_play(),
    {
        &mut self.command_history
    }

    /// Returns command history.
    pub fn command_history(&self) -> (h: &CommandHistory)
        ensures
            h@ == self.spec_history(),
    {
        &self.command_history
    }

    /// Returns the dirty-state explanation derived from command history.
    pub fn dirty_state(&self) -> (e: DirtyStateExplanation)
        ensures
            e@ == explain(self.spec_history()),
    {
        DirtyStateExplanation::from_history(&self.command_history)
    }

    /// Replaces editor-session-owned diagnostics.
    pub fn replace_session_diagnostics(&mut self, diagnostics: Vec<Diagnostic>)
        ensures
            final(self).spec_session_diagnostics() == diagnostics@,
            final(self).spec_project() == old(self).spec_project(),
            final(self).spec_active_scene() == old(self).spec_active_scene(),
            final(self).spec_selection() == old(self).spec_selection(),
            final(self).spec_history() == old(self).spec_history(),
            final(self).spec_mode() == old(self).spec_mode(),
            final(self).spec_play() == old(self).spec_play(),
    {
        self.session_diagnostics = diagnostics;
    }

    /// Returns the diagnostics panel: the project's diagnostics, then the
    /// session's, then the play sandbox's, one row each, in order.
    pub fn diagnostics_panel(&self) -> (p: DiagnosticsPanelState)
        ensures
            p@ == panel_diagnostics(
                self.spec_project(),
                self.spec_session_diagnostics(),
                self.spec_play(),
            ).map_values(|d: Diagnostic| panel_item_of(d)),
    {
        let mut all: Vec<Diagnostic> = Vec::new();
        match &self.project {
            Some(project) => {
                let project_diagnostics = project.diagnostics().diagnostics();
                copy_diagnostics(&mut all, project_diagnostics);
            },
            None => {},
        }
        copy_diagnostics(&mut all, self.session_diagnostics.as_slice());
        copy_diagnostics(&mut all, self.play_diagnostics());
        assert(all@ =~= panel_diagnostics(
            self.spec_project(),
            self.spec_session_diagnostics(),
            self.spec_play(),
        ));
        DiagnosticsPanelState::from_diagnostics(all.as_slice())
    }

    /// Returns current edit/play mode ownership.
    pub fn mode(&self) -> (m: EditorModeState)
        ensures
            m == self.spec_mode(),
    {
        self.mode
    }

    /// Marks the editor session as owning play mode.
    pub fn enter_play_mode(&mut self)
        ensures
            final(self).spec_mode() == EditorModeState::Play,
            final(self).spec_project() == old(self).spec_project(),
            final(self).spec_active_scene() == old(self).spec_active_scene(),
            final(self).spec_selection() == old(self).spec_selection(),
            final(self).spec_history() == old(self).spec_history(),
            final(self).spec_session_diagnostics() == old(self).spec_session_diagnostics(),
            final(self).spec_play() == old(self).spec_play(),
    {
        self.mode = EditorModeState::Play;
    }

    /// Stops play mode: destroys the runtime sandbox and returns ownership
    /// to edit mode.
    pub fn stop_play_mode(&mut self)
        ensures
            final(self).spec_mode() == EditorModeState::Edit,
            final(self).spec_play() is None,
            final(self).spec_project() == old(self).spec_project(),
            final(self).spec_active_scene() == old(self).spec_active_scene(),
            final(self).spec_selection() == old(self).spec_selection(),
            final(self).spec_history() == old(self).spec_history(),
            final(self).spec_session_diagnostics() == old(self).spec_session_diagnostics(),
    {
        self.play = None;
        self.mode = EditorModeState::Edit;
    }
}

impl EditorSession {
    /// Moves the latest session undo record to the redo stack and reports it.
    pub fn mcp_undo(&mut self) -> (r: McpUndoRedoResponse)
        ensures
            old(self).spec_history().undo.len() == 0 ==> final(self).spec_history()
                == old(self).spec_history() && !r.moved && r.undo_group is None && r.summary is None,
            old(self).spec_history().undo.len() > 0 ==> final(self).spec_history() == undone(
                old(self).spec_history(),
            ) && r.moved && r.undo_group == Some(
                old(self).spec_history().undo.last().group_id.value(),
            ) && r.summary is Some && r.summary->0@ == old(self).spec_history().undo.last().summary,
            r.dirty_state@ == dirty_response_of(explain(final(self).spec_history())),
            final(self).spec_project() == old(self).spec_project(),
            final(self).spec_active_scene() == old(self).spec_active_scene(),
            final(self).spec_selection() == old(self).spec_selection(),
            final(self).spec_session_diagnostics() == old(self).spec_session_diagnostics(),
            final(self).spec_mode() == old(self).spec_mode(),
            final(self).spec_play() == old(self).spec_play(),
    {
        let record = self.command_history.pop_undo();
        undo_redo_response(&self.command_history, record)
    }

    /// Moves the latest session redo record back to the undo stack and
    /// reports it.
    pub fn mcp_redo(&mut self) -> (r: McpUndoRedoResponse)
        ensures
            old(self).spec_history().redo.len() == 0 ==> final(self).spec_history()
                == old(self).spec_history() && !r.moved && r.undo_group is None && r.summary is None,
            old(self).spec_history().redo.len() > 0 ==> final(self).spec_history() == redone(
                old(self).spec_history(),
            ) && r.moved && r.undo_group == Some(
                old(self).spec_history().redo.last().group_id.value(),
            ) && r.summary is Some && r.summary->0@ == old(self).spec_history().redo.last().summary,
            r.dirty_state@ == dirty_response_of(explain(final(self).spec_history())),
            final(self).spec_project() == old(self).spec_project(),
            final(self).spec_active_scene() == old(self).spec_active_scene(),
            final(self).spec_selection() == old(self).spec_selection(),
            final(self).spec_session_diagnostics() == old(self).spec_session_diagnostics(),
            final(self).spec_mode() == old(self).spec_mode(),
            final(self).spec_play() == old(self).spec_play(),
    {
        let record = self.command_history.pop_redo();
        undo_redo_response(&self.command_history, record)
    }

    /// Commits the outcome of a scene command to the session history and
    /// reports it (see [`commits_outcome`]); nothing else of the session
    /// changes.
    pub fn mcp_response_from_result(
        &mut self,
        command_kind: &str,
        target_mode: Option<CommandTargetMode>,
        result: Result<CommandResult, CommandError>,
    ) -> (r: McpMutationResponse)
        requires
            !is_blank(command_kind@),
            old(self).spec_history().next_group < u64::MAX,
        ensures
            commits_outcome(
                old(self).spec_history(),
                final(self).spec_history(),
                command_kind@,
                target_mode,
                result,
                r,
            ),
            final(self).spec_project() == old(self).spec_project(),
            final(self).spec_active_scene() == old(self).spec_active_scene(),
            final(self).spec_selection() == old(self).spec_selection(),
            final(self).spec_session_diagnostics() == old(self).spec_session_diagnostics(),
            final(self).spec_mode() == old(self).spec_mode(),
            final(self).spec_play() == old(self).spec_play(),
    {
        commit_to_history(&mut self.command_history, command_kind, target_mode, result)
    }

    /// Applies an MCP selection or focus request. `lookup` is what the
    /// active scene reported for the instance a `SelectSceneInstance`
    /// request names; with no scene open the request is refused whatever it
    /// says. Only the selection changes.
    pub fn mcp_apply_selection(&mut self, request: McpSelectionRequest, lookup: SceneInstanceLookup) -> (r:
        McpSelectionCommandResponse)
        ensures
            ({
                let seen = if old(self).spec_active_scene() is None {
                    SceneInstanceLookup::NoActiveScene
                } else {
                    lookup
                };
                applies_selection(
                    old(self).spec_selection(),
                    final(self).spec_selection(),
                    request,
                    seen,
                    r,
                )
            }),
            final(self).spec_project() == old(self).spec_project(),
            final(self).spec_active_scene() == old(self).spec_active_scene(),
            final(self).spec_history() == old(self).spec_history(),
            final(self).spec_session_diagnostics() == old(self).spec_session_diagnostics(),
            final(self).spec_mode() == old(self).spec_mode(),
            final(self).spec_play() == old(self).spec_play(),
    {
        let seen = if self.active_scene.is_none() {
            SceneInstanceLookup::NoActiveScene
        } else {
            lookup
        };
        apply_selection_request(&mut self.selection, request, seen)
    }
}

/// The sandbox play mode starts from `scene`: the scene cloned into runtime
/// world one, no frame stepped yet, and the start diagnostic.
pub open spec fn is_started_sandbox(p: EditorPlaySession, scene: SceneInstanceDocument) -> bool {
    &&& p.spec_world()@.id.value() == 1
    &&& p.spec_world()@.instances == cloned_records(scene, 1, None)
    &&& p.spec_world()@.root == runtime_id(1)
    &&& p.spec_world()@.next_instance_id == 1 + document_size(scene)
    &&& p.spec_counters() == (FrameCounters { frame_index: 0, next_fixed_step_index: 1 })
    &&& p.spec_last_step() is None
    &&& p.spec_diagnostics().len() == 1
    &&& is_play_state_diagnostic(p.spec_diagnostics()[0], "play world started"@)
}

/// Why starting play is refused in session `s`, if it is.
pub open spec fn start_rejection(s: EditorSession) -> Option<EditorPlayError> {
    if s.spec_play() is Some {
        Some(EditorPlayError::AlreadyPlaying)
    } else if s.spec_active_scene() is None {
        Some(EditorPlayError::NoActiveScene)
    } else {
        None
    }
}

/// Play mode can start in `s` without overflowing the runtime ID space.
pub open spec fn can_start(s: EditorSession) -> bool {
    s.spec_active_scene() is Some ==> document_size(s.spec_active_scene()->0) < u64::MAX
}

/// `after` is `before` with play started: the sandbox cloned from the
/// active scene, play mode owning the session, and nothing else changed.
pub open spec fn is_play_started(before: EditorSession, after: EditorSession) -> bool {
    &&& after.spec_play() matches Some(p) && is_started_sandbox(p, before.spec_active_scene()->0)
    &&& after.spec_mode() == EditorModeState::Play
    &&& after.spec_project() == before.spec_project()
    &&& after.spec_active_scene() == before.spec_active_scene()
    &&& after.spec_selection() == before.spec_selection()
    &&& after.spec_history() == before.spec_history()
    &&& after.spec_session_diagnostics() == before.spec_session_diagnostics()
}

/// `after` is `before` with play stopped: no sandbox, edit mode, nothing
/// else changed.
pub open spec fn is_play_stopped(before: EditorSession, after: EditorSession) -> bool {
    &&& after.spec_play() is None
    &&& after.spec_mode() == EditorModeState::Edit
    &&& after.spec_project() == before.spec_project()
    &&& after.spec_active_scene() == before.spec_active_scene()
    &&& after.spec_selection() == before.spec_selection()
    &&& after.spec_history() == before.spec_history()
    &&& after.spec_session_diagnostics() == before.spec_session_diagnostics()
}

/// `after` is `before` with its sandbox stepped by one frame of
/// `fixed_steps` fixed steps, and nothing else changed.
pub open spec fn is_play_stepped(before: EditorSession, after: EditorSession, fixed_steps: u64) -> bool {
    &&& after.spec_play() matches Some(q) && is_stepped(before.spec_play()->0, q, fixed_steps)
    &&& after.spec_mode() == before.spec_mode()
    &&& after.spec_project() == before.spec_project()
    &&& after.spec_active_scene() == before.spec_active_scene()
    &&& after.spec_selection() == before.spec_selection()
    &&& after.spec_history() == before.spec_history()
    &&& after.spec_session_diagnostics() == before.spec_session_diagnostics()
}

/// The validation failure of the `play` command that reports `e`.
pub open spec fn play_error_view(e: EditorPlayError) -> CommandErrorView {
    CommandErrorView::ValidationFailed { command_kind: "play"@, reason: e.spec_message() }
}

/// Why MCP play command `c` is refused in session `s`, if it is: a missing
/// or wrong target mode first, then the play controls' own refusal.
pub open spec fn play_command_rejection(s: EditorSession, c: McpPlayCommand) -> Option<
    CommandErrorView,
> {
    let kind = c.spec_command_name().spec_name();
    let expected = if c is Start {
        CommandTargetMode::Edit
    } else {
        CommandTargetMode::Play
    };
    match c.spec_target_mode() {
        None => Some(CommandErrorView::AmbiguousTargetMode { command_kind: kind }),
        Some(actual) => if actual != expected {
            Some(CommandErrorView::WrongTargetMode { command_kind: kind, expected, actual })
        } else {
            match c {
                McpPlayCommand::Start { .. } => match start_rejection(s) {
                    Some(e) => Some(play_error_view(e)),
                    None => None,
                },
                _ => if s.spec_play() is None {
                    Some(play_error_view(EditorPlayError::NotPlaying))
                } else {
                    None
                },
            }
        },
    }
}

impl EditorSession {
    /// Starts play mode by cloning the active edit scene into a runtime
    /// sandbox. Refused when play already runs, or else when no scene is
    /// open; a refusal changes nothing.
    pub fn start_play_mode(&mut self) -> (r: Result<(), EditorPlayError>)
        requires
            can_start(*old(self)),
        ensures
            match start_rejection(*old(self)) {
                Some(e) => r == Err::<(), EditorPlayError>(e) && *final(self) == *old(self),
                None => r is Ok && is_play_started(*old(self), *final(self)),
            },
    {
        if self.play.is_some() {
            return Err(EditorPlayError::AlreadyPlaying);
        }
        let world = match &self.active_scene {
            None => {
                return Err(EditorPlayError::NoActiveScene);
            },
            Some(scene) => match RuntimeWorld::clone_from_edit_scene(RuntimeWorldId::new(1), Some(scene)) {
                Ok(world) => world,
                Err(_) => vstd::pervasive::unreached(),
            },
        };
        self.play = Some(EditorPlaySession::new(world));
        self.mode = EditorModeState::Play;
        Ok(())
    }

    /// Steps the active runtime sandbox by one frame that runs `fixed_steps`
    /// fixed steps. Refused, changing nothing, when play is not active.
    pub fn step_play_mode(&mut self, fixed_steps: u64) -> (r: Result<PlayFrameStep, EditorPlayError>)
        requires
            old(self).spec_play() is Some ==> can_step(old(self).spec_play()->0, fixed_steps),
        ensures
            old(self).spec_play() is None ==> r == Err::<PlayFrameStep, EditorPlayError>(
                EditorPlayError::NotPlaying,
            ) && *final(self) == *old(self),
            old(self).spec_play() is Some ==> r is Ok && is_play_stepped(
                *old(self),
                *final(self),
                fixed_steps,
            ) && r->Ok_0.frame_index == final(self).spec_play()->0.spec_counters().frame_index
                && r->Ok_0.fixed_steps == fixed_steps
                && r->Ok_0.records@ == final(self).spec_play()->0.spec_last_step()->0.records@,
    {
        match &mut self.play {
            None => Err(EditorPlayError::NotPlaying),
            Some(play) => Ok(play.step(fixed_steps)),
        }
    }

    /// Returns active play session state.
    pub fn play_session(&self) -> (r: Option<&EditorPlaySession>)
        ensures
            r is Some == self.spec_play() is Some,
            r is Some ==> *r->0 == self.spec_play()->0,
    {
        match &self.play {
            Some(play) => Some(play),
            None => None,
        }
    }

    /// Returns mutable play session state; nothing else of the session
    /// changes through it.
    pub fn play_session_mut(&mut self) -> (r: Option<&mut EditorPlaySession>)
        ensures
            old(self).spec_play() is None ==> r is None && *final(self) == *old(self),
            old(self).spec_play() is Some ==> (r matches Some(p) && *p == old(self).spec_play()->0
                && final(self).spec_play() == Some(*final(p))),
            final(self).spec_project() == old(self).spec_project(),
            final(self).spec_active_scene() == old(self).spec_active_scene(),
            final(self).spec_selection() == old(self).spec_selection(),
            final(self).spec_history() == old(self).spec_history(),
            final(self).spec_session_diagnostics() == old(self).spec_session_diagnostics(),
            final(self).spec_mode() == old(self).spec_mode(),
    {
        match &mut self.play {
            Some(play) => Some(play),
            None => None,
        }
    }

    /// Returns the runtime instance ID that the play world gives the
    /// selected edit instance: the first runtime instance cloned from the
    /// selected GUID. `None` when play is not active, no scene instance is
    /// selected, or no runtime instance came from it.
    pub fn runtime_id_for_selected_edit_guid(&self) -> (r: Option<RuntimeInstanceId>)
        ensures
            match (self.spec_play(), self.spec_selection().spec_document()) {
                (Some(p), EditorDocumentSelection::SceneInstance { guid, .. }) => match r {
                    Some(id) => has_edit_guid(p.spec_world()@.instances, guid) && id
                        == p.spec_world()@.instances[first_with_edit_guid(
                        p.spec_world()@.instances,
                        guid,
                    )].id,
                    None => !has_edit_guid(p.spec_world()@.instances, guid),
                },
                _ => r is None,
            },
    {
        let play = match &self.play {
            None => {
                return None;
            },
            Some(play) => play,
        };
        match self.selection.document() {
            EditorDocumentSelection::SceneInstance { guid, .. } => play.world().runtime_id_for_edit_guid(
                *guid,
            ),
            _ => None,
        }
    }

    /// Returns the play diagnostics, empty when play is not active.
    pub fn play_diagnostics(&self) -> (d: &[Diagnostic])
        ensures
            d@ == match self.spec_play() {
                Some(p) => p.spec_diagnostics(),
                None => Seq::<Diagnostic>::empty(),
            },
    {
        match &self.play {
            Some(play) => play.diagnostics(),
            None => {
                let empty: &[Diagnostic] = &[];
                assert(empty@ =~= Seq::<Diagnostic>::empty());
                empty
            },
        }
    }

    /// Returns current play state for MCP snapshots.
    pub fn mcp_play_state(&self) -> (r: McpPlayStateResponse)
        ensures
            r == play_state_of(self.spec_play()),
    {
        match &self.play {
            None => McpPlayStateResponse::idle(),
            Some(play) => McpPlayStateResponse::playing(play.world(), &play.counters()),
        }
    }

    /// Executes an MCP play command through the editor-owned play controls.
    /// A refused command (see [`play_command_rejection`]) changes nothing and
    /// carries the refusal as its one diagnostic.
    pub fn mcp_execute_play_command(&mut self, command: &McpPlayCommand) -> (r: McpPlayCommandResponse)
        requires
            command is Start ==> can_start(*old(self)),
            *command matches McpPlayCommand::Step { fixed_steps, .. } ==> (old(self).spec_play() is Some
                ==> can_step(old(self).spec_play()->0, fixed_steps)),
        ensures
            r.command_kind@ == command.spec_command_name().spec_name(),
            r.target_mode == command.spec_target_mode(),
            match play_command_rejection(*old(self), *command) {
                Some(e) => {
                    &&& r.status == CommandStatus::Failed
                    &&& r.diagnostics@.len() == 1
                    &&& r.diagnostics@[0]@ == error_summary(e)
                    &&& *final(self) == *old(self)
                },
                None => {
                    &&& r.status == CommandStatus::Succeeded
                    &&& r.diagnostics@.len() == 0
                    &&& match *command {
                        McpPlayCommand::Start { .. } => is_play_started(*old(self), *final(self)),
                        McpPlayCommand::Stop { .. } => is_play_stopped(*old(self), *final(self)),
                        McpPlayCommand::Step { fixed_steps, .. } => is_play_stepped(
                            *old(self),
                            *final(self),
                            fixed_steps,
                        ),
                    }
                },
            },
            r.play_state == play_state_of(final(self).spec_play()),
    {
        let name = command.command_name();
        let command_kind = name.as_str();
        let target_mode = command.target_mode();
        let expected = name.required_target_mode();
        proof {
            reveal_strlit("play.start");
            reveal_strlit("play.stop");
            reveal_strlit("play.step");
            assert(!is_white_space(command_kind@[0]));
        }
        let result: Result<(), CommandError> = match require_specific_target_mode(
            command_kind,
            target_mode,
            expected,
        ) {
            Err(error) => Err(error),
            Ok(_) => self.execute_play_command(command),
        };
        let mut diagnostics: Vec<Diagnostic> = Vec::new();
        match &result {
            Ok(()) => {},
            Err(error) => diagnostics.push(error.to_diagnostic()),
        }
        let status = if diagnostics.len() == 0 {
            CommandStatus::Succeeded
        } else {
            CommandStatus::Failed
        };
        let summaries = diagnostics_list_response(diagnostics.as_slice());
        proof {
            assert(summary_views(summaries@).len() == summaries@.len());
            if result is Err {
                assert(diagnostics@.map_values(|d: Diagnostic| summary_of(d))[0]
                    == summary_of(diagnostics@[0]));
                assert(summary_views(summaries@)[0] == summaries@[0]@);
            }
        }
        McpPlayCommandResponse {
            command_kind: owned(command_kind),
            target_mode,
            status,
            diagnostics: summaries,
            play_state: self.mcp_play_state(),
        }
    }

    fn execute_play_command(&mut self, command: &McpPlayCommand) -> (r: Result<(), CommandError>)
        requires
            command is Start ==> can_start(*old(self)),
            *command matches McpPlayCommand::Step { fixed_steps, .. } ==> (old(self).spec_play() is Some
                ==> can_step(old(self).spec_play()->0, fixed_steps)),
        ensures
            match *command {
                McpPlayCommand::Start { .. } => match start_rejection(*old(self)) {
                    Some(e) => r is Err && r->Err_0@ == play_error_view(e) && *final(self) == *old(self),
                    None => r is Ok && is_play_started(*old(self), *final(self)),
                },
                McpPlayCommand::Stop { .. } => if old(self).spec_play() is None {
                    r is Err && r->Err_0@ == play_error_view(EditorPlayError::NotPlaying)
                        && *final(self) == *old(self)
                } else {
                    r is Ok && is_play_stopped(*old(self), *final(self))
                },
                McpPlayCommand::Step { fixed_steps, .. } => if old(self).spec_play() is None {
                    r is Err && r->Err_0@ == play_error_view(EditorPlayError::NotPlaying)
                        && *final(self) == *old(self)
                } else {
                    r is Ok && is_play_stepped(*old(self), *final(self), fixed_steps)
                },
            },
    {
        match command {
            McpPlayCommand::Start { .. } => match self.start_play_mode() {
                Ok(()) => Ok(()),
                Err(error) => Err(error.to_command_error()),
            },
            McpPlayCommand::Stop { .. } => {
                if self.play.is_none() {
                    return Err(EditorPlayError::NotPlaying.to_command_error());
                }
                self.stop_play_mode();
                Ok(())
            },
            McpPlayCommand::Step { fixed_steps, .. } => match self.step_play_mode(*fixed_steps) {
                Ok(_) => Ok(()),
                Err(error) => Err(error.to_command_error()),
            },
        }
    }
}

/// Play mode never changes edit-owned state: starting play and stopping it
/// again gives back the project, the active scene, the selection, the
/// command history and the session diagnostics exactly as they were, with no
/// sandbox left and edit mode owning the session.
pub proof fn lemma_play_round_trip_keeps_edit_state(
    before: EditorSession,
    playing: EditorSession,
    after: EditorSession,
)
    requires
        is_play_started(before, playing),
        is_play_stopped(playing, after),
    ensures
        after.spec_project() == before.spec_project(),
        after.spec_active_scene() == before.spec_active_scene(),
        after.spec_selection() == before.spec_selection(),
        after.spec_history() == before.spec_history(),
        after.spec_session_diagnostics() == before.spec_session_diagnostics(),
        after.spec_play() is None,
        after.spec_mode() == EditorModeState::Edit,
{
}

/// Stepping the sandbox never changes edit-owned state: the project, the
/// active scene, the selection, the history and the session diagnostics stay
/// as they were, and so does the runtime world.
pub proof fn lemma_play_step_keeps_edit_state(
    before: EditorSession,
    after: EditorSession,
    fixed_steps: u64,
)
    requires
        before.spec_play() is Some,
        is_play_stepped(before, after, fixed_steps),
    ensures
        after.spec_project() == before.spec_project(),
        after.spec_active_scene() == before.spec_active_scene(),
        after.spec_selection() == before.spec_selection(),
        after.spec_history() == before.spec_history(),
        after.spec_session_diagnostics() == before.spec_session_diagnostics(),
        after.spec_play()->0.spec_world() == before.spec_play()->0.spec_world(),
        after.spec_play()->0.spec_counters().frame_index == before.spec_play()->0.spec_counters().frame_index + 1,
{
}

/// The MCP summary of a diagnostics panel row: its code, severity, source,
/// message and blocking scope, with no location.
pub open spec fn row_summary(i: DiagnosticPanelItemView) -> DiagnosticSummaryView {
    DiagnosticSummaryView {
        code: i.code,
        severity: i.severity,
        source: i.source,
        message: i.message,
        blocking: i.blocking,
        instance_guid: None,
        scene_path: None,
        asset_path: None,
        script_path: None,
        property_path: None,
    }
}

/// Agent-facing editor snapshot: project status, scene hierarchy,
/// resources, selection and focus, diagnostics, dirty state and play state.
#[derive(Debug, PartialEq, Eq)]
pub struct McpEditorSnapshotCore {
    /// Project status, when a project is open.
    pub project: Option<ProjectStatusResponse>,
    /// Scene hierarchy in parent-before-child order.
    pub scene: Vec<SceneInstanceSummary>,
    /// Resource manifest entries.
    pub resources: ResourceManifestResponse,
    /// Current selection.
    pub selection: McpSelectionResponse,
    /// Current focus.
    pub focus: Option<EditorPanel>,
    /// Diagnostics panel rows.
    pub diagnostics: Vec<DiagnosticSummary>,
    /// Dirty state.
    pub dirty_state: DirtyStateResponse,
    /// Play state.
    pub play_state: McpPlayStateResponse,
}

fn row_summaries(items: &[DiagnosticPanelItem]) -> (r: Vec<DiagnosticSummary>)
    ensures
        summary_views(r@) == panel_item_views(items@).map_values(
            |i: DiagnosticPanelItemView| row_summary(i),
        ),
{
    let mut r: Vec<DiagnosticSummary> = Vec::new();
    let mut k: usize = 0;
    while k < items.len()
        invariant
            k <= items@.len(),
            summary_views(r@) == panel_item_views(items@.take(k as int)).map_values(
                |i: DiagnosticPanelItemView| row_summary(i),
            ),
        decreases items@.len() - k,
    {
        let item = &items[k];
        let summary = DiagnosticSummary {
            code: item.code.clone(),
            severity: item.severity,
            source: item.source.clone(),
            message: item.message.clone(),
            blocking: item.blocking,
            instance_guid: None,
            scene_path: None,
            asset_path: None,
            script_path: None,
            property_path: None,
        };
        let ghost before = r@;
        r.push(summary);
        proof {
            assert(items@.take(k + 1) =~= items@.take(k as int).push(items@[k as int]));
            assert(summary_views(r@) =~= summary_views(before).push(summary@));
            assert(panel_item_views(items@.take(k + 1)).map_values(
                |i: DiagnosticPanelItemView| row_summary(i),
            ) =~= panel_item_views(items@.take(k as int)).map_values(
                |i: DiagnosticPanelItemView| row_summary(i),
            ).push(row_summary(items@[k as int]@)));
        }
        k = k + 1;
    }
    assert(items@.take(k as int) =~= items@);
    r
}

impl EditorSession {
    /// Builds the agent-facing snapshot of the session. `scene` is the
    /// hierarchy the active scene reports and `resources` the asset
    /// manifest; everything else is the session's own state.
    pub fn mcp_snapshot_core(
        &self,
        scene: Vec<SceneInstanceSummary>,
        resources: ResourceManifestResponse,
    ) -> (s: McpEditorSnapshotCore)
        ensures
            match self.spec_project() {
                None => s.project is None,
                Some(p) => s.project matches Some(r) && {
                    &&& r.project_name@ == p.spec_settings().spec_identity().spec_name()
                    &&& r.engine_compatibility@
                        == p.spec_settings().spec_identity().spec_engine_compatibility()
                    &&& r.active_scene@ == p.spec_documents().spec_active_scene()
                    &&& r.assets_manifest@ == p.spec_documents().spec_assets_manifest()
                    &&& r.instances_manifest@ == p.spec_documents().spec_instances_manifest()
                },
            },
            s.scene == scene,
            s.resources == resources,
            reports_selection(s.selection, self.spec_selection().spec_document()),
            s.focus == self.spec_selection().spec_focus().spec_panel(),
            summary_views(s.diagnostics@) == panel_diagnostics(
                self.spec_project(),
                self.spec_session_diagnostics(),
                self.spec_play(),
            ).map_values(|d: Diagnostic| row_summary(panel_item_of(d))),
            s.dirty_state@ == dirty_response_of(explain(self.spec_history())),
            s.play_state == play_state_of(self.spec_play()),
    {
        let project = match &self.project {
            Some(project) => Some(project_status_response(project.settings(), project.documents())),
            None => None,
        };
        let panel = self.diagnostics_panel();
        let diagnostics = row_summaries(panel.items());
        proof {
            let all = panel_diagnostics(self.spec_project(), self.spec_session_diagnostics(), self.spec_play());
            assert(all.map_values(|d: Diagnostic| panel_item_of(d)).map_values(
                |i: DiagnosticPanelItemView| row_summary(i),
            ) =~= all.map_values(|d: Diagnostic| row_summary(panel_item_of(d))));
        }
        let explanation = self.dirty_state();
        McpEditorSnapshotCore {
            project,
            scene,
            resources,
            selection: crate::editor::mcp::selection_response(self.selection.document()),
            focus: self.selection.focus().panel(),
            diagnostics,
            dirty_state: dirty_state_response(&explanation),
            play_state: self.mcp_play_state(),
        }
    }
}

/// Appends copies of `source` to `target`.
fn copy_diagnostics(target: &mut Vec<Diagnostic>, source: &[Diagnostic])
    ensures
        final(target)@ == old(target)@ + source@,
{
    let ghost start = target@;
    let mut i: usize = 0;
    while i < source.len()
        invariant
            0 <= i <= source@.len(),
            target@ == start + source@.take(i as int),
        decreases source@.len() - i,
    {
        target.push(source[i].clone());
        assert(source@.take(i + 1) =~= source@.take(i as int).push(source@[i as int]));
        i = i + 1;
    }
    assert(source@.take(i as int) =~= source@);
}

} // verus!
