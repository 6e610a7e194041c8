//! Editor document-session state: the open project summary, selection and
//! focus, edit/play ownership, and the diagnostics panel projection.

use vstd::prelude::*;

use crate::editor::shell::EditorPanel;
use crate::foundation::diagnostics::{Diagnostic, DiagnosticBlockingScope, DiagnosticSeverity};
use crate::foundation::id::{InstanceGuid, InstanceId};
use crate::project::model::{ProjectDocumentRefs, ProjectSettingsDocument};
use crate::project::project_model::ProjectModel;
use crate::text::{clone_text, owned};

verus! {

/// Lightweight project/session view exposed by the editor session.
#[derive(Debug, Eq, PartialEq)]
pub struct EditorSessionProject {
    project_name: String,
    engine_compatibility: String,
    active_scene_path: String,
    assets_manifest_path: String,
    instances_manifest_path: String,
}

/// The content of an [`EditorSessionProject`].
pub struct EditorSessionProjectView {
    pub project_name: Seq<char>,
    pub engine_compatibility: Seq<char>,
    pub active_scene_path: Seq<char>,
    pub assets_manifest_path: Seq<char>,
    pub instances_manifest_path: Seq<char>,
}

impl View for EditorSessionProject {
    type V = EditorSessionProjectView;

    closed spec fn view(&self) -> EditorSessionProjectView {
        EditorSessionProjectView {
            project_name: self.project_name@,
            engine_compatibility: self.engine_compatibility@,
            active_scene_path: self.active_scene_path@,
            assets_manifest_path: self.assets_manifest_path@,
            instances_manifest_path: self.instances_manifest_path@,
        }
    }
}

impl Clone for EditorSessionProject {
    fn clone(&self) -> (r: Self)
        ensures
            r@ == self@,
    {
        EditorSessionProject {
            project_name: self.project_name.clone(),
            engine_compatibility: self.engine_compatibility.clone(),
            active_scene_path: self.active_scene_path.clone(),
            assets_manifest_path: self.assets_manifest_path.clone(),
            instances_manifest_path: self.instances_manifest_path.clone(),
        }
    }
}

impl EditorSessionProject {
    /// Summarizes an open project model.
    pub fn from_project(project: &ProjectModel) -> (p: Self)
        ensures
            p@.project_name == project.spec_settings().spec_identity().spec_name(),
            p@.engine_compatibility
                == project.spec_settings().spec_identity().spec_engine_compatibility(),
            p@.active_scene_path == project.spec_documents().spec_active_scene(),
            p@.assets_manifest_path == project.spec_documents().spec_assets_manifest(),
            p@.instances_manifest_path == project.spec_documents().spec_instances_manifest(),
    {
        Self::new(project.settings(), project.documents())
    }

    /// Summarizes an open project from its settings and document references.
    pub fn new(settings: &ProjectSettingsDocument, documents: &ProjectDocumentRefs) -> (p: Self)
        ensures
            p@.project_name == settings.spec_identity().spec_name(),
            p@.engine_compatibility == settings.spec_identity().spec_engine_compatibility(),
            p@.active_scene_path == documents.spec_active_scene(),
            p@.assets_manifest_path == documents.spec_assets_manifest(),
            p@.instances_manifest_path == documents.spec_instances_manifest(),
    {
        EditorSessionProject {
            project_name: owned(settings.identity().name()),
            engine_compatibility: owned(settings.identity().engine_compatibility()),
            active_scene_path: owned(documents.active_scene()),
            assets_manifest_path: owned(documents.assets_manifest()),
            instances_manifest_path: owned(documents.instances_manifest()),
        }
    }

    /// Returns the project display name.
    pub fn project_name(&self) -> (s: &str)
        ensures
            s@ == self@.project_name,
    {
        self.project_name.as_str()
    }

    /// Returns the engine compatibility string.
    pub fn engine_compatibility(&self) -> (s: &str)
        ensures
            s@ == self@.engine_compatibility,
    {
        self.engine_compatibility.as_str()
    }

    /// Returns the active scene document path.
    pub fn active_scene_path(&self) -> (s: &str)
        ensures
            s@ == self@.active_scene_path,
    {
        self.active_scene_path.as_str()
    }

    /// Returns the asset manifest document path.
    pub fn assets_manifest_path(&self) -> (s: &str)
        ensures
            s@ == self@.assets_manifest_path,
    {
        self.assets_manifest_path.as_str()
    }

    /// Returns the instance manifest document path.
    pub fn instances_manifest_path(&self) -> (s: &str)
        ensures
            s@ == self@.instances_manifest_path,
    {
        self.instances_manifest_path.as_str()
    }
}

/// Editor-selected document or scene object.
#[derive(Debug, Eq, PartialEq)]
pub enum EditorDocumentSelection {
    /// No document or object is selected.
    Empty,
    /// A scene instance is selected in edit state.
    SceneInstance {
        /// Runtime/edit instance ID for the active scene document.
        id: InstanceId,
        /// Stable edit-world instance GUID.
        guid: InstanceGuid,
        /// Human-readable scene path at selection time.
        scene_path: String,
    },
    /// A project document is selected.
    ProjectDocument {
        /// Workspace-relative document path.
        path: String,
    },
}

impl Clone for EditorDocumentSelection {
    fn clone(&self) -> (r: Self)
        ensures
            r == *self,
    {
        match self {
            EditorDocumentSelection::Empty => EditorDocumentSelection::Empty,
            EditorDocumentSelection::SceneInstance { id, guid, scene_path } =>
                EditorDocumentSelection::SceneInstance {
                id: *id,
                guid: *guid,
                scene_path: scene_path.clone(),
            },
            EditorDocumentSelection::ProjectDocument { path } =>
                EditorDocumentSelection::ProjectDocument { path: path.clone() },
        }
    }
}

impl Default for EditorDocumentSelection {
    fn default() -> (s: Self)
        ensures
            s is Empty,
    {
        EditorDocumentSelection::Empty
    }
}

/// Current editor focus.
#[derive(Clone, Copy, Debug, Eq, PartialEq, Structural)]
pub struct EditorFocus {
    panel: Option<EditorPanel>,
}

impl EditorFocus {
    /// The focused panel.
    pub closed spec fn spec_panel(self) -> Option<EditorPanel> {
        self.panel
    }

    /// Creates an empty focus state.
    pub fn new() -> (f: Self)
        ensures
            f.spec_panel() is None,
    {
        EditorFocus { panel: None }
    }

    /// Returns the focused panel.
    pub fn panel(&self) -> (p: Option<EditorPanel>)
        ensures
            p == self.spec_panel(),
    {
        self.panel
    }

    /// Sets the focused panel.
    pub fn set_panel(&mut self, panel: EditorPanel)
        ensures
            final(self).spec_panel() == Some(panel),
    {
        self.panel = Some(panel);
    }

    /// Clears focus.
    pub fn clear(&mut self)
        ensures
            final(self).spec_panel() is None,
    {
        self.panel = None;
    }
}

impl Default for EditorFocus {
    fn default() -> (f: Self)
        ensures
            f.spec_panel() is None,
    {
        Self::new()
    }
}

/// Editor selection and focus state.
#[derive(Debug, Eq, PartialEq)]
pub struct EditorSelection {
    document: EditorDocumentSelection,
    focus: EditorFocus,
}

impl Clone for EditorSelection {
    fn clone(&self) -> (r: Self)
        ensures
            r.spec_document() == self.spec_document(),
            r.spec_focus() == self.spec_focus(),
    {
        EditorSelection { document: self.document.clone(), focus: self.focus }
    }
}

impl EditorSelection {
    /// The selected document or object.
    pub closed spec fn spec_document(self) -> EditorDocumentSelection {
        self.document
    }

    /// The current focus.
    pub closed spec fn spec_focus(self) -> EditorFocus {
        self.focus
    }

    /// Creates an empty selection with no focus.
    pub fn new() -> (s: Self)
        ensures
            s.spec_document() is Empty,
            s.spec_focus().spec_panel() is None,
    {
        EditorSelection { document: EditorDocumentSelection::Empty, focus: EditorFocus::new() }
    }

    /// Returns the selected document/object.
    pub fn document(&self) -> (d: &EditorDocumentSelection)
        ensures
            *d == self.spec_document(),
    {
        &self.document
    }

    /// Returns current focus.
    pub fn focus(&self) -> (f: &EditorFocus)
        ensures
            *f == self.spec_focus(),
    {
        &self.focus
    }

    /// Selects the scene instance `id`, with the GUID and scene path that
    /// the active scene reports for it; focus is unchanged.
    pub fn select_scene_instance(&mut self, id: InstanceId, guid: InstanceGuid, scene_path: &str)
        ensures
            final(self).spec_document() matches EditorDocumentSelection::SceneInstance {
                id: i,
                guid: g,
                scene_path: p,
            } && i == id && g == guid && p@ == scene_path@,
            final(self).spec_focus() == old(self).spec_focus(),
    {
        self.document = EditorDocumentSelection::SceneInstance { id, guid, scene_path: owned(scene_path) };
    }

    /// Selects a project document path; focus is unchanged.
    pub fn select_project_document(&mut self, path: &str)
        ensures
            final(self).spec_document() matches EditorDocumentSelection::ProjectDocument { path: p }
                && p@ == path@,
            final(self).spec_focus() == old(self).spec_focus(),
    {
        self.document = EditorDocumentSelection::ProjectDocument { path: owned(path) };
    }

    /// Sets the focused panel; the selection is unchanged.
    pub fn focus_panel(&mut self, panel: EditorPanel)
        ensures
            final(self).spec_focus().spec_panel() == Some(panel),
            final(self).spec_document() == old(self).spec_document(),
    {
        self.focus.set_panel(panel);
    }

    /// Clears selection and focus.
    pub fn clear(&mut self)
        ensures
            final(self).spec_document() is Empty,
            final(self).spec_focus().spec_panel() is None,
    {
        self.document = EditorDocumentSelection::Empty;
        self.focus.clear();
    }
}

impl Default for EditorSelection {
    fn default() -> (s: Self)
        ensures
            s.spec_document() is Empty,
            s.spec_focus().spec_panel() is None,
    {
        Self::new()
    }
}

/// Edit/play ownership state for the editor session.
#[derive(Clone, Copy, Debug, Eq, PartialEq, Structural)]
pub enum EditorModeState {
    /// Editing source project state.
    Edit,
    /// A play-world owner exists.
    Play,
}

impl Default for EditorModeState {
    fn default() -> (m: Self)
        ensures
            m == EditorModeState::Edit,
    {
        EditorModeState::Edit
    }
}

/// One projected diagnostic row for the diagnostics panel.
#[derive(Debug, Eq, PartialEq)]
pub struct DiagnosticPanelItem {
    /// Stable diagnostic code.
    pub code: String,
    /// Diagnostic severity.
    pub severity: DiagnosticSeverity,
    /// Optional blocking scope.
    pub blocking: Option<DiagnosticBlockingScope>,
    /// Source system name.
    pub source: String,
    /// Human-readable message.
    pub message: String,
}

/// The content of a [`DiagnosticPanelItem`].
pub struct DiagnosticPanelItemView {
    pub code: Seq<char>,
    pub severity: DiagnosticSeverity,
    pub blocking: Option<DiagnosticBlockingScope>,
    pub source: Seq<char>,
    pub message: Seq<char>,
}

impl View for DiagnosticPanelItem {
    type V = DiagnosticPanelItemView;

    open spec fn view(&self) -> DiagnosticPanelItemView {
        DiagnosticPanelItemView {
            code: self.code@,
            severity: self.severity,
            blocking: self.blocking,
            source: self.source@,
            message: self.message@,
        }
    }
}

impl Clone for DiagnosticPanelItem {
    fn clone(&self) -> (r: Self)
        ensures
            r@ == self@,
    {
        DiagnosticPanelItem {
            code: self.code.clone(),
            severity: self.severity,
            blocking: self.blocking,
            source: self.source.clone(),
            message: self.message.clone(),
        }
    }
}

/// The panel row projected from diagnostic `d`: its code, severity,
/// blocking scope, source name and message.
pub open spec fn panel_item_of(d: Diagnostic) -> DiagnosticPanelItemView {
    DiagnosticPanelItemView {
        code: d.code.text(),
        severity: d.severity,
        blocking: d.blocking,
        source: d.source.text(),
        message: d.message@,
    }
}

/// The views of a list of panel rows.
pub open spec fn panel_item_views(v: Seq<DiagnosticPanelItem>) -> Seq<DiagnosticPanelItemView> {
    v.map_values(|i: DiagnosticPanelItem| i@)
}

impl DiagnosticPanelItem {
    fn from_diagnostic(diagnostic: &Diagnostic) -> (i: Self)
        ensures
            i@ == panel_item_of(*diagnostic),
    {
        DiagnosticPanelItem {
            code: diagnostic.code.to_string(),
            severity: diagnostic.severity,
            blocking: diagnostic.blocking,
            source: diagnostic.source.to_string(),
            message: diagnostic.message.clone(),
        }
    }
}

/// Diagnostics panel state derived from structured diagnostics.
#[derive(Debug, Eq, PartialEq)]
pub struct DiagnosticsPanelState {
    items: Vec<DiagnosticPanelItem>,
}

impl View for DiagnosticsPanelState {
    type V = Seq<DiagnosticPanelItemView>;

    closed spec fn view(&self) -> Seq<DiagnosticPanelItemView> {
        panel_item_views(self.items@)
    }
}

impl DiagnosticsPanelState {
    /// Projects `diagnostics` into panel rows, one per diagnostic, in order.
    pub fn from_diagnostics(diagnostics: &[Diagnostic]) -> (p: Self)
        ensures
            p@ == diagnostics@.map_values(|d: Diagnostic| panel_item_of(d)),
    {
        let mut items: Vec<DiagnosticPanelItem> = Vec::new();
        let mut i: usize = 0;
        while i < diagnostics.len()
            invariant
                0 <= i <= diagnostics@.len(),
                panel_item_views(items@) == diagnostics@.take(i as int).map_values(
                    |d: Diagnostic| panel_item_of(d),
                ),
            decreases diagnostics@.len() - i,
        {
            let ghost before = items@;
            let item = DiagnosticPanelItem::from_diagnostic(&diagnostics[i]);
            items.push(item);
            proof {
                assert(panel_item_views(items@) =~= panel_item_views(before).push(
                    panel_item_of(diagnostics@[i as int]),
                ));
                assert(diagnostics@.take(i + 1) =~= diagnostics@.take(i as int).push(
                    diagnostics@[i as int],
                ));
                assert(diagnostics@.take(i + 1).map_values(|d: Diagnostic| panel_item_of(d))
                    =~= diagnostics@.take(i as int).map_values(|d: Diagnostic| panel_item_of(d)).push(
                    panel_item_of(diagnostics@[i as int]),
                ));
            }
            i = i + 1;
        }
        proof {
            assert(diagnostics@.take(i as int) =~= diagnostics@);
        }
        DiagnosticsPanelState { items }
    }

    /// Returns projected diagnostics in deterministic order.
    pub fn items(&self) -> (s: &[DiagnosticPanelItem])
        ensures
            panel_item_views(s@) == self@,
    {
        self.items.as_slice()
    }

    /// Returns whether the diagnostics panel has no items.
    pub fn is_empty(&self) -> (b: bool)
        ensures
            b == (self@.len() == 0),
    {
        self.items.len() == 0
    }
}

impl Default for DiagnosticsPanelState {
    fn default() -> (p: Self)
        ensures
            p@.len() == 0,
    {
        DiagnosticsPanelState { items: Vec::new() }
    }
}

} // verus!
