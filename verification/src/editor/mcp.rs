//! Agent-facing MCP read-only command names and response projections.

use vstd::prelude::*;

use crate::command::change::texts;
use crate::command::dirty::{DirtyChangeView, DirtyDocumentView, DirtyStateExplanation, DirtyStateView};
use crate::command::error::{CommandError, CommandErrorView};
use crate::editor::session::{EditorDocumentSelection, EditorSelection};
use crate::editor::shell::EditorPanel;
use crate::foundation::diagnostics::{Diagnostic, DiagnosticBlockingScope, DiagnosticSeverity};
use crate::foundation::id::{InstanceGuid, InstanceId};
use crate::project::model::{ProjectDocumentRefs, ProjectSettingsDocument};
use crate::text::{clone_text, owned};

verus! {

/// Editor-owned read-only MCP command names.
#[derive(Debug, Copy, Clone, PartialEq, Eq, Structural, Hash, PartialOrd, Ord)]
pub enum McpReadOnlyCommand {
    /// Inspect project identity and active source documents.
    ProjectStatus,
    /// List scene instances in deterministic hierarchy order.
    SceneListInstances,
    /// List resource manifest entries in deterministic manifest order.
    ResourceList,
    /// List current diagnostics.
    DiagnosticsList,
    /// Explain current edit dirty state.
    DirtyState,
}

impl McpReadOnlyCommand {
    /// The stable MCP command name.
    pub open spec fn spec_name(self) -> Seq<char> {
        match self {
            McpReadOnlyCommand::ProjectStatus => "project.status"@,
            McpReadOnlyCommand::SceneListInstances => "scene.list_instances"@,
            McpReadOnlyCommand::ResourceList => "resource.list"@,
            McpReadOnlyCommand::DiagnosticsList => "diagnostics.list"@,
            McpReadOnlyCommand::DirtyState => "editor.dirty_state"@,
        }
    }

    /// Returns the stable MCP command name.
    pub fn as_str(self) -> (s: &'static str)
        ensures
            s@ == self.spec_name(),
    {
        match self {
            McpReadOnlyCommand::ProjectStatus => "project.status",
            McpReadOnlyCommand::SceneListInstances => "scene.list_instances",
            McpReadOnlyCommand::ResourceList => "resource.list",
            McpReadOnlyCommand::DiagnosticsList => "diagnostics.list",
            McpReadOnlyCommand::DirtyState => "editor.dirty_state",
        }
    }
}

/// Read-only project status response.
#[derive(Debug, PartialEq, Eq)]
pub struct ProjectStatusResponse {
    /// Project display name.
    pub project_name: String,
    /// Engine compatibility string.
    pub engine_compatibility: String,
    /// Active scene source document path.
    pub active_scene: String,
    /// Asset manifest source document path.
    pub assets_manifest: String,
    /// Instance manifest source document path.
    pub instances_manifest: String,
}

impl Clone for ProjectStatusResponse {
    fn clone(&self) -> (r: Self)
        ensures
            r == *self,
    {
        ProjectStatusResponse {
            project_name: self.project_name.clone(),
            engine_compatibility: self.engine_compatibility.clone(),
            active_scene: self.active_scene.clone(),
            assets_manifest: self.assets_manifest.clone(),
            instances_manifest: self.instances_manifest.clone(),
        }
    }
}

/// Read-only scene instance summary.
#[derive(Debug, PartialEq, Eq)]
pub struct SceneInstanceSummary {
    /// Runtime/editor session instance ID raw value.
    pub instance_id: u64,
    /// Stable instance GUID raw value.
    pub guid: u64,
    /// Registered class name.
    pub class_name: String,
    /// Display instance name.
    pub name: String,
    /// Human-readable scene path.
    pub scene_path: String,
    /// Parent instance ID raw value.
    pub parent_id: Option<u64>,
    /// Child instance IDs in scene order.
    pub child_ids: Vec<u64>,
}

impl Clone for SceneInstanceSummary {
    fn clone(&self) -> (r: Self)
        ensures
            r.instance_id == self.instance_id,
            r.guid == self.guid,
            r.class_name == self.class_name,
            r.name == self.name,
            r.scene_path == self.scene_path,
            r.parent_id == self.parent_id,
            r.child_ids@ == self.child_ids@,
    {
        SceneInstanceSummary {
            instance_id: self.instance_id,
            guid: self.guid,
            class_name: self.class_name.clone(),
            name: self.name.clone(),
            scene_path: self.scene_path.clone(),
            parent_id: self.parent_id,
            child_ids: self.child_ids.clone(),
        }
    }
}

/// Read-only resource manifest entry summary.
#[derive(Debug, PartialEq, Eq)]
pub struct ResourceManifestEntrySummary {
    /// Stable asset GUID raw value.
    pub guid: u64,
    /// Project resource path.
    pub path: String,
    /// Importer identifier.
    pub importer_id: String,
    /// Importer version.
    pub importer_version: String,
    /// Import settings hash.
    pub settings_hash: String,
}

impl Clone for ResourceManifestEntrySummary {
    fn clone(&self) -> (r: Self)
        ensures
            r == *self,
    {
        ResourceManifestEntrySummary {
            guid: self.guid,
            path: self.path.clone(),
            importer_id: self.importer_id.clone(),
            importer_version: self.importer_version.clone(),
            settings_hash: self.settings_hash.clone(),
        }
    }
}

/// Read-only resource manifest response.
#[derive(Debug, PartialEq, Eq)]
pub struct ResourceManifestResponse {
    /// Manifest entries in deterministic path order.
    pub entries: Vec<ResourceManifestEntrySummary>,
}

impl Clone for ResourceManifestResponse {
    fn clone(&self) -> (r: Self)
        ensures
            r.entries@ == self.entries@,
    {
        ResourceManifestResponse { entries: self.entries.clone() }
    }
}

/// Read-only diagnostic summary.
#[derive(Debug, PartialEq, Eq)]
pub struct DiagnosticSummary {
    /// Stable diagnostic code.
    pub code: String,
    /// Diagnostic severity.
    pub severity: DiagnosticSeverity,
    /// System that produced the diagnostic.
    pub source: String,
    /// Human-readable message.
    pub message: String,
    /// Blocked workflow, when known.
    pub blocking: Option<DiagnosticBlockingScope>,
    /// Related instance GUID raw value, when known.
    pub instance_guid: Option<u64>,
    /// Related scene path, when known.
    pub scene_path: Option<String>,
    /// Related asset path, when known.
    pub asset_path: Option<String>,
    /// Related script path, when known.
    pub script_path: Option<String>,
    /// Related property path, when known.
    pub property_path: Option<String>,
}

/// The text of optional owned text.
pub open spec fn opt_text(o: Option<String>) -> Option<Seq<char>> {
    match o {
        Some(s) => Some(s@),
        None => None,
    }
}

/// The content of a [`DiagnosticSummary`].
pub struct DiagnosticSummaryView {
    pub code: Seq<char>,
    pub severity: DiagnosticSeverity,
    pub source: Seq<char>,
    pub message: Seq<char>,
    pub blocking: Option<DiagnosticBlockingScope>,
    pub instance_guid: Option<u64>,
    pub scene_path: Option<Seq<char>>,
    pub asset_path: Option<Seq<char>>,
    pub script_path: Option<Seq<char>>,
    pub property_path: Option<Seq<char>>,
}

impl View for DiagnosticSummary {
    type V = DiagnosticSummaryView;

    open spec fn view(&self) -> DiagnosticSummaryView {
        DiagnosticSummaryView {
            code: self.code@,
            severity: self.severity,
            source: self.source@,
            message: self.message@,
            blocking: self.blocking,
            instance_guid: self.instance_guid,
            scene_path: opt_text(self.scene_path),
            asset_path: opt_text(self.asset_path),
            script_path: opt_text(self.script_path),
            property_path: opt_text(self.property_path),
        }
    }
}

impl Clone for DiagnosticSummary {
    fn clone(&self) -> (r: Self)
        ensures
            r@ == self@,
    {
        DiagnosticSummary {
            code: self.code.clone(),
            severity: self.severity,
            source: self.source.clone(),
            message: self.message.clone(),
            blocking: self.blocking,
            instance_guid: self.instance_guid,
            scene_path: clone_text(&self.scene_path),
            asset_path: clone_text(&self.asset_path),
            script_path: clone_text(&self.script_path),
            property_path: clone_text(&self.property_path),
        }
    }
}

/// The summary of diagnostic `d`: its code, severity, source, message,
/// blocking scope, and its location's instance GUID (as a raw value),
/// scene, asset, script and property paths.
pub open spec fn summary_of(d: Diagnostic) -> DiagnosticSummaryView {
    DiagnosticSummaryView {
        code: d.code.text(),
        severity: d.severity,
        source: d.source.text(),
        message: d.message@,
        blocking: d.blocking,
        instance_guid: match d.location.instance_guid {
            Some(g) => Some(g.value()),
            None => None,
        },
        scene_path: opt_text(d.location.scene_path),
        asset_path: opt_text(d.location.asset_path),
        script_path: opt_text(d.location.script_path),
        property_path: opt_text(d.location.property_path),
    }
}

/// The views of a list of diagnostic summaries.
pub open spec fn summary_views(v: Seq<DiagnosticSummary>) -> Seq<DiagnosticSummaryView> {
    v.map_values(|s: DiagnosticSummary| s@)
}

fn summarize(d: &Diagnostic) -> (s: DiagnosticSummary)
    ensures
        s@ == summary_of(*d),
{
    let instance_guid = match d.location.instance_guid {
        Some(g) => Some(g.raw()),
        None => None,
    };
    DiagnosticSummary {
        code: d.code.to_string(),
        severity: d.severity,
        source: d.source.to_string(),
        message: d.message.clone(),
        blocking: d.blocking,
        instance_guid,
        scene_path: clone_text(&d.location.scene_path),
        asset_path: clone_text(&d.location.asset_path),
        script_path: clone_text(&d.location.script_path),
        property_path: clone_text(&d.location.property_path),
    }
}

/// Read-only dirty-state response.
#[derive(Debug, PartialEq, Eq)]
pub struct DirtyStateResponse {
    /// Whether any edit document is dirty.
    pub is_dirty: bool,
    /// Dirty document paths in first-change order.
    pub documents: Vec<String>,
    /// Human-readable dirty summaries in command history order.
    pub summaries: Vec<String>,
}

/// The content of a [`DirtyStateResponse`].
pub struct DirtyStateResponseView {
    pub is_dirty: bool,
    pub documents: Seq<Seq<char>>,
    pub summaries: Seq<Seq<char>>,
}

impl View for DirtyStateResponse {
    type V = DirtyStateResponseView;

    open spec fn view(&self) -> DirtyStateResponseView {
        DirtyStateResponseView {
            is_dirty: self.is_dirty,
            documents: texts(self.documents@),
            summaries: texts(self.summaries@),
        }
    }
}

/// The response for dirty-state explanation `e`: the dirty document paths in
/// first-change order, the change summaries in history order, and whether
/// any document is dirty.
pub open spec fn dirty_response_of(e: DirtyStateView) -> DirtyStateResponseView {
    DirtyStateResponseView {
        is_dirty: e.documents.len() > 0,
        documents: e.documents.map_values(|d: DirtyDocumentView| d.document_path),
        summaries: e.changes.map_values(|c: DirtyChangeView| c.change_summary),
    }
}

/// Read-only editor selection response.
#[derive(Debug, PartialEq, Eq)]
pub enum McpSelectionResponse {
    /// No document or scene instance is selected.
    Empty,
    /// A scene instance is selected in edit state.
    SceneInstance {
        /// Runtime/editor session instance ID raw value.
        instance_id: u64,
        /// Stable serialized instance GUID raw value.
        guid: u64,
        /// Human-readable scene path.
        scene_path: String,
    },
    /// A project document is selected.
    ProjectDocument {
        /// Workspace-relative project document path.
        path: String,
    },
}

impl Clone for McpSelectionResponse {
    fn clone(&self) -> (r: Self)
        ensures
            r == *self,
    {
        match self {
            McpSelectionResponse::Empty => McpSelectionResponse::Empty,
            McpSelectionResponse::SceneInstance { instance_id, guid, scene_path } => {
                McpSelectionResponse::SceneInstance {
                    instance_id: *instance_id,
                    guid: *guid,
                    scene_path: scene_path.clone(),
                }
            },
            McpSelectionResponse::ProjectDocument { path } => {
                McpSelectionResponse::ProjectDocument { path: path.clone() }
            },
        }
    }
}

/// Selection and focus requests that MCP can apply to the editor session.
#[derive(Debug, PartialEq, Eq)]
pub enum McpSelectionRequest {
    /// Select a scene instance by runtime/editor session ID.
    SelectSceneInstance {
        /// Instance ID to select.
        instance_id: InstanceId,
    },
    /// Select a project document.
    SelectProjectDocument {
        /// Workspace-relative project document path.
        path: String,
    },
    /// Focus an editor panel without changing selection.
    FocusPanel {
        /// Panel to focus.
        panel: EditorPanel,
    },
    /// Clear current selection and focus.
    Clear,
}

impl Clone for McpSelectionRequest {
    fn clone(&self) -> (r: Self)
        ensures
            r == *self,
    {
        match self {
            McpSelectionRequest::SelectSceneInstance { instance_id } => {
                McpSelectionRequest::SelectSceneInstance { instance_id: *instance_id }
            },
            McpSelectionRequest::SelectProjectDocument { path } => {
                McpSelectionRequest::SelectProjectDocument { path: path.clone() }
            },
            McpSelectionRequest::FocusPanel { panel } => McpSelectionRequest::FocusPanel { panel: *panel },
            McpSelectionRequest::Clear => McpSelectionRequest::Clear,
        }
    }
}

/// Selection/focus command response.
#[derive(Debug, PartialEq, Eq)]
pub struct McpSelectionCommandResponse {
    /// Selection after applying the request.
    pub selection: McpSelectionResponse,
    /// Focus after applying the request.
    pub focus: Option<EditorPanel>,
    /// Validation diagnostics, when the request failed.
    pub diagnostics: Vec<DiagnosticSummary>,
}

impl Clone for McpSelectionCommandResponse {
    fn clone(&self) -> (r: Self)
        ensures
            r.selection == self.selection,
            r.focus == self.focus,
            r.diagnostics.len() == self.diagnostics.len(),
            forall|i: int| 0 <= i < self.diagnostics.len() ==> (#[trigger] r.diagnostics[i])@ == self.diagnostics[i]@,
    {
        McpSelectionCommandResponse {
            selection: self.selection.clone(),
            focus: self.focus,
            diagnostics: self.diagnostics.clone(),
        }
    }
}

/// Builds a read-only project status response.
pub fn project_status_response(settings: &ProjectSettingsDocument, documents: &ProjectDocumentRefs) -> (r:
    ProjectStatusResponse)
    ensures
        r.project_name@ == settings.spec_identity().spec_name(),
        r.engine_compatibility@ == settings.spec_identity().spec_engine_compatibility(),
        r.active_scene@ == documents.spec_active_scene(),
        r.assets_manifest@ == documents.spec_assets_manifest(),
        r.instances_manifest@ == documents.spec_instances_manifest(),
{
    ProjectStatusResponse {
        project_name: owned(settings.identity().name()),
        engine_compatibility: owned(settings.identity().engine_compatibility()),
        active_scene: owned(documents.active_scene()),
        assets_manifest: owned(documents.assets_manifest()),
        instances_manifest: owned(documents.instances_manifest()),
    }
}

/// Builds a read-only diagnostics list response: one summary per
/// diagnostic, in order.
pub fn diagnostics_list_response(diagnostics: &[Diagnostic]) -> (r: Vec<DiagnosticSummary>)
    ensures
        summary_views(r@) == diagnostics@.map_values(|d: Diagnostic| summary_of(d)),
{
    let mut r: Vec<DiagnosticSummary> = Vec::new();
    let mut i: usize = 0;
    while i < diagnostics.len()
        invariant
            0 <= i <= diagnostics@.len(),
            summary_views(r@) == diagnostics@.take(i as int).map_values(
                |d: Diagnostic| summary_of(d),
            ),
        decreases diagnostics@.len() - i,
    {
        let ghost before = r@;
        let s = summarize(&diagnostics[i]);
        r.push(s);
        proof {
            assert(summary_views(r@) =~= summary_views(before).push(summary_of(diagnostics@[i as int])));
            assert(diagnostics@.take(i + 1) =~= diagnostics@.take(i as int).push(diagnostics@[i as int]));
            assert(diagnostics@.take(i + 1).map_values(|d: Diagnostic| summary_of(d))
                =~= diagnostics@.take(i as int).map_values(|d: Diagnostic| summary_of(d)).push(
                summary_of(diagnostics@[i as int]),
            ));
        }
        i = i + 1;
    }
    proof {
        assert(diagnostics@.take(i as int) =~= diagnostics@);
    }
    r
}

/// Builds a read-only dirty-state response.
pub fn dirty_state_response(explanation: &DirtyStateExplanation) -> (r: DirtyStateResponse)
    ensures
        r@ == dirty_response_of(explanation@),
{
    let docs = explanation.documents();
    let changes = explanation.changes();
    let ghost e = explanation@;
    let mut documents: Vec<String> = Vec::new();
    let mut i: usize = 0;
    while i < docs.len()
        invariant
            0 <= i <= docs@.len(),
            e.documents.len() == docs@.len(),
            forall|k: int| 0 <= k < docs@.len() ==> (#[trigger] docs@[k])@ == e.documents[k],
            texts(documents@) == e.documents.take(i as int).map_values(
                |d: DirtyDocumentView| d.document_path,
            ),
        decreases docs@.len() - i,
    {
        let ghost before = documents@;
        documents.push(owned(docs[i].document_path()));
        proof {
            assert(texts(documents@) =~= texts(before).push(e.documents[i as int].document_path));
            assert(e.documents.take(i + 1).map_values(|d: DirtyDocumentView| d.document_path)
                =~= e.documents.take(i as int).map_values(|d: DirtyDocumentView| d.document_path).push(
                e.documents[i as int].document_path,
            ));
        }
        i = i + 1;
    }
    let mut summaries: Vec<String> = Vec::new();
    let mut j: usize = 0;
    while j < changes.len()
        invariant
            0 <= j <= changes@.len(),
            e.changes.len() == changes@.len(),
            forall|k: int| 0 <= k < changes@.len() ==> (#[trigger] changes@[k])@ == e.changes[k],
            texts(summaries@) == e.changes.take(j as int).map_values(
                |c: DirtyChangeView| c.change_summary,
            ),
        decreases changes@.len() - j,
    {
        let ghost before = summaries@;
        summaries.push(owned(changes[j].change_summary()));
        proof {
            assert(texts(summaries@) =~= texts(before).push(e.changes[j as int].change_summary));
            assert(e.changes.take(j + 1).map_values(|c: DirtyChangeView| c.change_summary)
                =~= e.changes.take(j as int).map_values(|c: DirtyChangeView| c.change_summary).push(
                e.changes[j as int].change_summary,
            ));
        }
        j = j + 1;
    }
    proof {
        assert(e.documents.take(i as int) =~= e.documents);
        assert(e.changes.take(j as int) =~= e.changes);
    }
    let is_dirty = documents.len() > 0;
    DirtyStateResponse { is_dirty, documents, summaries }
}

/// `r` reports `selection`: the selected instance's raw ID, raw GUID and
/// scene path, or the selected document path.
pub open spec fn reports_selection(r: McpSelectionResponse, selection: EditorDocumentSelection) -> bool {
    match selection {
        EditorDocumentSelection::Empty => r is Empty,
        EditorDocumentSelection::SceneInstance { id, guid, scene_path } => r matches McpSelectionResponse::SceneInstance {
            instance_id,
            guid: g,
            scene_path: p,
        } && instance_id == id.value() && g == guid.value() && p@ == scene_path@,
        EditorDocumentSelection::ProjectDocument { path } => r matches McpSelectionResponse::ProjectDocument {
            path: p,
        } && p@ == path@,
    }
}

/// Builds a read-only selection response: the selected instance's raw ID,
/// raw GUID and scene path, or the selected document path.
pub fn selection_response(selection: &EditorDocumentSelection) -> (r: McpSelectionResponse)
    ensures
        reports_selection(r, *selection),
{
    match selection {
        EditorDocumentSelection::Empty => McpSelectionResponse::Empty,
        EditorDocumentSelection::SceneInstance { id, guid, scene_path } =>
            McpSelectionResponse::SceneInstance {
            instance_id: id.raw(),
            guid: guid.raw(),
            scene_path: scene_path.clone(),
        },
        EditorDocumentSelection::ProjectDocument { path } => McpSelectionResponse::ProjectDocument {
            path: path.clone(),
        },
    }
}

/// What the active scene reported about an instance to select.
#[derive(Debug, PartialEq, Eq)]
pub enum SceneInstanceLookup {
    /// No scene is open.
    NoActiveScene,
    /// The scene refused the lookup, with its reason.
    Failed {
        /// Why the scene refused the lookup.
        reason: String,
    },
    /// The instance exists.
    Found {
        /// Stable edit-world instance GUID.
        guid: InstanceGuid,
        /// Human-readable scene path.
        scene_path: String,
    },
}

/// The summary of the diagnostic of command error `e`.
pub open spec fn error_summary(e: CommandErrorView) -> DiagnosticSummaryView {
    DiagnosticSummaryView {
        code: e.code_text(),
        severity: DiagnosticSeverity::Error,
        source: "Command"@,
        message: e.message(),
        blocking: Some(DiagnosticBlockingScope::Edit),
        instance_guid: None,
        scene_path: None,
        asset_path: None,
        script_path: None,
        property_path: None,
    }
}

/// Why a selection request is refused, if it is: only selecting a scene
/// instance can fail, when no scene is open or the scene refuses the lookup.
pub open spec fn selection_rejection(request: McpSelectionRequest, lookup: SceneInstanceLookup) -> Option<
    Seq<char>,
> {
    match request {
        McpSelectionRequest::SelectSceneInstance { .. } => match lookup {
            SceneInstanceLookup::NoActiveScene => Some("no active scene is open"@),
            SceneInstanceLookup::Failed { reason } => Some(reason@),
            SceneInstanceLookup::Found { .. } => None,
        },
        _ => None,
    }
}

/// The response `r` and the selection going from `before` to `after` are
/// what applying `request` gives, with `lookup` as what the active scene
/// reported for a named instance.
pub open spec fn applies_selection(
    before: EditorSelection,
    after: EditorSelection,
    request: McpSelectionRequest,
    lookup: SceneInstanceLookup,
    r: McpSelectionCommandResponse,
) -> bool {
    &&& (match selection_rejection(request, lookup) {
            Some(reason) => {
                &&& after.spec_document() == before.spec_document()
                &&& after.spec_focus() == before.spec_focus()
                &&& r.diagnostics@.len() == 1
                &&& r.diagnostics@[0]@ == error_summary(
                    CommandErrorView::ValidationFailed { command_kind: "editor.select"@, reason },
                )
            },
            None => r.diagnostics@.len() == 0,
        })
    &&& (match request {
            McpSelectionRequest::SelectSceneInstance { instance_id } => match lookup {
                SceneInstanceLookup::Found { guid, scene_path } => {
                    &&& after.spec_document() matches EditorDocumentSelection::SceneInstance {
                        id,
                        guid: g,
                        scene_path: p,
                    } && id == instance_id && g == guid && p@ == scene_path@
                    &&& after.spec_focus() == before.spec_focus()
                },
                _ => true,
            },
            McpSelectionRequest::SelectProjectDocument { path } => {
                &&& after.spec_document() matches EditorDocumentSelection::ProjectDocument {
                    path: p,
                } && p@ == path@
                &&& after.spec_focus() == before.spec_focus()
            },
            McpSelectionRequest::FocusPanel { panel } => {
                &&& after.spec_document() == before.spec_document()
                &&& after.spec_focus().spec_panel() == Some(panel)
            },
            McpSelectionRequest::Clear => {
                &&& after.spec_document() is Empty
                &&& after.spec_focus().spec_panel() is None
            },
        })
    &&& (reports_selection(r.selection, after.spec_document()))
    &&& (r.focus == after.spec_focus().spec_panel())
}

/// Applies an MCP selection or focus request to the editor selection and
/// reports the selection and focus afterwards. `lookup` is what the active
/// scene reported for the instance a `SelectSceneInstance` request names; a
/// refused request leaves the selection unchanged and carries one
/// `editor.select` validation diagnostic.
pub fn apply_selection_request(
    selection: &mut EditorSelection,
    request: McpSelectionRequest,
    lookup: SceneInstanceLookup,
) -> (r: McpSelectionCommandResponse)
    ensures
        applies_selection(*old(selection), *final(selection), request, lookup, r),
{
    let result: Result<(), CommandError> = match request {
        McpSelectionRequest::SelectSceneInstance { instance_id } => match lookup {
            SceneInstanceLookup::NoActiveScene => Err(
                CommandError::ValidationFailed {
                    command_kind: owned("editor.select"),
                    reason: owned("no active scene is open"),
                },
            ),
            SceneInstanceLookup::Failed { reason } => Err(
                CommandError::ValidationFailed { command_kind: owned("editor.select"), reason },
            ),
            SceneInstanceLookup::Found { guid, scene_path } => {
                selection.select_scene_instance(instance_id, guid, scene_path.as_str());
                Ok(())
            },
        },
        McpSelectionRequest::SelectProjectDocument { path } => {
            selection.select_project_document(path.as_str());
            Ok(())
        },
        McpSelectionRequest::FocusPanel { panel } => {
            selection.focus_panel(panel);
            Ok(())
        },
        McpSelectionRequest::Clear => {
            selection.clear();
            Ok(())
        },
    };
    let mut diagnostics: Vec<Diagnostic> = Vec::new();
    match &result {
        Ok(()) => {},
        Err(error) => diagnostics.push(error.to_diagnostic()),
    }
    let summaries = diagnostics_list_response(diagnostics.as_slice());
    proof {
        assert(summary_views(summaries@).len() == summaries@.len());
        if result is Err {
            assert(diagnostics@.map_values(|d: Diagnostic| summary_of(d))[0] == summary_of(diagnostics@[0]));
            assert(summary_views(summaries@)[0] == summaries@[0]@);
        }
    }
    McpSelectionCommandResponse {
        selection: selection_response(selection.document()),
        focus: selection.focus().panel(),
        diagnostics: summaries,
    }
}

} // verus!
