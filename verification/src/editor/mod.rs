//! Kinetik Studio editor state: shell layout, session selection and focus,
//! and the agent-facing MCP command contracts.

use vstd::prelude::*;

pub mod canvas;
pub mod editor_session;
pub mod explorer;
pub mod inspector;
pub mod mcp;
pub mod mutating;
pub mod persistence;
pub mod play;
pub mod presentation;
pub mod session;
pub mod shell;
pub mod viewport;

pub use canvas::{Area, Canvas, PixelFont, PixelGlyph, PixelImage};
pub use editor_session::{EditorSession, McpEditorSnapshotCore};
pub use explorer::{ExplorerRow, ExplorerSnapshot};
pub use inspector::InspectorCommandError;
pub use mcp::{
    diagnostics_list_response, dirty_state_response, apply_selection_request, project_status_response,
    selection_response, DiagnosticSummary, DirtyStateResponse, McpReadOnlyCommand,
    McpSelectionCommandResponse, McpSelectionRequest, McpSelectionResponse, ProjectStatusResponse,
    ResourceManifestEntrySummary, ResourceManifestResponse, SceneInstanceLookup,
    SceneInstanceSummary,
};
pub use persistence::EditorPersistenceError;
pub use mutating::{McpMutatingCommand, McpMutationResponse, McpMutationSession, McpUndoRedoResponse};
pub use play::{
    EditorPlayError, EditorPlaySession, McpPlayCommand, McpPlayCommandName, McpPlayCommandResponse,
    McpPlayStateResponse, PlayFrameStep,
};
pub use presentation::{
    draw_card, draw_template_cards, render_studio_presentation, StudioPresentationFrame,
    TemplateCardSummary,
};
pub use session::{
    DiagnosticPanelItem, DiagnosticsPanelState, EditorDocumentSelection, EditorFocus,
    EditorModeState, EditorSelection, EditorSessionProject,
};
pub use shell::{
    default_editor_shell_layout, EditorPanel, EditorShellError, EditorShellLayout,
    EditorShellState, EditorShellWindow, PanelDock, ToolbarAction,
};
pub use viewport::{ViewportPickStatus, ViewportPickingContract};

verus! {

/// Returns the crate name for smoke tests and early integration checks.
pub fn crate_name() -> (s: &'static str)
    ensures
        s@ == "kinetik-editor"@,
{
    "kinetik-editor"
}

} // verus!
