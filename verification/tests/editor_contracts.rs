use kinetik::command::{
    CommandChangeRecord, CommandError, CommandHistory, CommandResult, CommandStatus,
    CommandTargetMode, DirtyStateExplanation,
};
use kinetik::editor::{
    default_editor_shell_layout, diagnostics_list_response, dirty_state_response,
    apply_selection_request, project_status_response, selection_response, DiagnosticsPanelState, EditorDocumentSelection,
    EditorPanel, EditorPlayError, EditorSelection, EditorSessionProject, EditorShellError,
    EditorShellState, EditorShellWindow, ExplorerRow, ExplorerSnapshot, InspectorCommandError,
    McpMutatingCommand, McpMutationSession, McpPlayCommandName, McpPlayStateResponse,
    McpReadOnlyCommand, McpSelectionRequest, McpSelectionResponse, PanelDock,
    SceneInstanceLookup, ToolbarAction,
};
use kinetik::foundation::{
    Diagnostic, DiagnosticBlockingScope, DiagnosticCode, DiagnosticLocation, DiagnosticSeverity,
    DiagnosticSource, InstanceGuid, InstanceId,
};
use kinetik::project::{ProjectDocumentRefs, ProjectIdentity, ProjectSettingsDocument};

#[test]
fn mcp_read_only_command_names_are_stable() {
    assert_eq!(McpReadOnlyCommand::ProjectStatus.as_str(), "project.status");
    assert_eq!(
        McpReadOnlyCommand::SceneListInstances.as_str(),
        "scene.list_instances"
    );
    assert_eq!(McpReadOnlyCommand::ResourceList.as_str(), "resource.list");
    assert_eq!(
        McpReadOnlyCommand::DiagnosticsList.as_str(),
        "diagnostics.list"
    );
    assert_eq!(
        McpReadOnlyCommand::DirtyState.as_str(),
        "editor.dirty_state"
    );
}

#[test]
fn mcp_mutating_command_names_are_stable() {
    assert_eq!(
        McpMutatingCommand::SceneCreateInstance.as_str(),
        "scene.create_instance"
    );
    assert_eq!(
        McpMutatingCommand::SceneDeleteInstance.as_str(),
        "scene.delete_instance"
    );
    assert_eq!(McpMutatingCommand::EditorUndo.as_str(), "editor.undo");
    assert_eq!(McpMutatingCommand::EditorRedo.as_str(), "editor.redo");
}

#[test]
fn project_status_reports_identity_and_documents() {
    let settings = ProjectSettingsDocument::new(
        ProjectIdentity::new("Demo", "0.1").expect("valid project identity"),
    );
    let documents =
        ProjectDocumentRefs::new("scenes/main.knscene", "assets.knmanifest", "instances.ron")
            .expect("valid document refs");

    let response = project_status_response(&settings, &documents);

    assert_eq!(response.project_name, "Demo");
    assert_eq!(response.engine_compatibility, "0.1");
    assert_eq!(response.active_scene, "scenes/main.knscene");
    assert_eq!(response.assets_manifest, "assets.knmanifest");
    assert_eq!(response.instances_manifest, "instances.ron");
}

#[test]
fn diagnostics_list_response_preserves_structured_targets() {
    let diagnostic = Diagnostic::new(
        DiagnosticCode::new("KT_TEST"),
        DiagnosticSeverity::Warning,
        DiagnosticSource::new("Test"),
        "Something is notable.",
    )
    .with_blocking_scope(DiagnosticBlockingScope::Edit)
    .with_location(DiagnosticLocation {
        instance_guid: Some(InstanceGuid::new(7)),
        scene_path: Some("/Game/Workspace".to_owned()),
        asset_path: Some("res://assets/a.glb".to_owned()),
        script_path: Some("res://scripts/a.luau".to_owned()),
        source_range: None,
        property_path: Some("Name".to_owned()),
    });

    let response = diagnostics_list_response(&[diagnostic]);

    assert_eq!(response[0].code, "KT_TEST");
    assert_eq!(response[0].severity, DiagnosticSeverity::Warning);
    assert_eq!(response[0].blocking, Some(DiagnosticBlockingScope::Edit));
    assert_eq!(response[0].instance_guid, Some(7));
    assert_eq!(response[0].property_path.as_deref(), Some("Name"));
}

#[test]
fn default_shell_layout_contains_m16_panels_in_stable_order() {
    let layout = default_editor_shell_layout();

    assert_eq!(
        layout.panels(),
        [
            EditorShellWindow::new(EditorPanel::Explorer, PanelDock::Left),
            EditorShellWindow::new(EditorPanel::Viewport, PanelDock::Center),
            EditorShellWindow::new(EditorPanel::Inspector, PanelDock::Right),
            EditorShellWindow::new(EditorPanel::Diagnostics, PanelDock::Bottom),
        ]
    );
}

#[test]
fn default_shell_toolbar_contains_first_actions_in_stable_order() {
    let layout = default_editor_shell_layout();

    assert_eq!(
        layout.toolbar(),
        [
            ToolbarAction::Open,
            ToolbarAction::Save,
            ToolbarAction::Play,
            ToolbarAction::Stop,
        ]
    );
}

#[test]
fn shell_state_starts_with_default_window_contract() {
    let state = EditorShellState::new();

    assert_eq!(state.window_title(), "Kinetik Studio");
    assert_eq!(state.window_size(), (1280, 800));
    assert!(!state.is_running());
    assert_eq!(state.layout().panels().len(), 4);
}

#[test]
fn panel_and_toolbar_labels_are_stable() {
    assert_eq!(EditorPanel::Explorer.label(), "Explorer");
    assert_eq!(EditorPanel::Inspector.label(), "Inspector");
    assert_eq!(EditorPanel::Diagnostics.label(), "Diagnostics");
    assert_eq!(EditorPanel::Viewport.label(), "Viewport");
    assert_eq!(ToolbarAction::Open.label(), "Open");
    assert_eq!(ToolbarAction::Save.label(), "Save");
    assert_eq!(ToolbarAction::Play.label(), "Play");
    assert_eq!(ToolbarAction::Stop.label(), "Stop");
}

#[test]
fn shell_state_marks_running_and_errors_keep_messages() {
    let mut state = EditorShellState::default();
    state.mark_running();
    assert!(state.is_running());
    assert_eq!(state.window_title(), "Kinetik Studio");
    let error = EditorShellError::new("no display");
    assert_eq!(error.message(), "no display");
    assert_eq!(error.to_string(), "no display");
}

fn create_block_result(summary: &str) -> CommandResult {
    let change = CommandChangeRecord::new("CreateInstance", CommandTargetMode::Edit, summary)
        .unwrap()
        .with_affected_documents(vec!["scenes/main.knscene".to_owned()]);
    CommandResult::succeeded_with_changes("CreateInstance", CommandTargetMode::Edit, vec![change])
        .unwrap()
}

#[test]
fn dirty_state_response_reports_documents_and_summaries() {
    let mut history = CommandHistory::new();
    history
        .commit_result("Create Block", &create_block_result("created /Game/Workspace/Block"))
        .unwrap();
    let explanation = DirtyStateExplanation::from_history(&history);

    let response = dirty_state_response(&explanation);

    assert!(response.is_dirty);
    assert_eq!(response.documents, vec!["scenes/main.knscene".to_owned()]);
    assert_eq!(
        response.summaries,
        vec!["created /Game/Workspace/Block".to_owned()]
    );
}

#[test]
fn mcp_commit_maps_success_to_history_and_dirty_state() {
    let mut session = McpMutationSession::new();

    let response = session.commit_command_result(
        "CreateInstance",
        Some(CommandTargetMode::Edit),
        Ok(create_block_result("created /Game/Workspace/Block")),
    );

    assert_eq!(response.status, CommandStatus::Succeeded);
    assert_eq!(response.command_kind, "CreateInstance");
    assert_eq!(response.undo_group, Some(1));
    assert_eq!(
        response.change_summaries,
        vec!["created /Game/Workspace/Block".to_owned()]
    );
    assert!(response.dirty_state.is_dirty);
    assert_eq!(session.history().undo_stack().len(), 1);
}

#[test]
fn mcp_commit_rejects_errors_without_history() {
    let mut session = McpMutationSession::new();

    let response = session.commit_command_result(
        "CreateInstance",
        None,
        Err(CommandError::AmbiguousTargetMode {
            command_kind: "CreateInstance".to_owned(),
        }),
    );

    assert_eq!(response.status, CommandStatus::Failed);
    assert_eq!(response.command_kind, "CreateInstance");
    assert_eq!(response.undo_group, None);
    assert_eq!(response.diagnostics.len(), 1);
    assert_eq!(response.diagnostics[0].code, "KT_COMMAND_AMBIGUOUS_TARGET_MODE");
    assert!(!response.dirty_state.is_dirty);
    assert!(session.history().undo_stack().is_empty());
}

#[test]
fn mcp_undo_redo_moves_history_stacks() {
    let mut session = McpMutationSession::new();
    session.commit_command_result(
        "CreateInstance",
        Some(CommandTargetMode::Edit),
        Ok(create_block_result("created /Game/Workspace/Block")),
    );

    let undo = session.undo();
    assert!(undo.moved);
    assert_eq!(undo.undo_group, Some(1));
    assert_eq!(undo.summary.as_deref(), Some("CreateInstance"));
    assert!(!undo.dirty_state.is_dirty);
    assert!(session.history().undo_stack().is_empty());
    assert_eq!(session.history().redo_stack().len(), 1);

    let redo = session.redo();
    assert!(redo.moved);
    assert_eq!(redo.undo_group, Some(1));
    assert!(redo.dirty_state.is_dirty);
    assert_eq!(session.history().undo_stack().len(), 1);
    assert!(session.history().redo_stack().is_empty());

    let nothing = session.redo();
    assert!(!nothing.moved);
    assert_eq!(nothing.undo_group, None);
}

#[test]
fn selection_and_focus_track_requests() {
    let mut selection = EditorSelection::new();
    assert_eq!(selection.document(), &EditorDocumentSelection::Empty);
    selection.select_project_document("scenes/main.knscene");
    selection.focus_panel(EditorPanel::Explorer);
    assert_eq!(selection.focus().panel(), Some(EditorPanel::Explorer));
    assert_eq!(
        selection_response(selection.document()),
        McpSelectionResponse::ProjectDocument {
            path: "scenes/main.knscene".to_owned()
        }
    );
    selection.clear();
    assert_eq!(selection.document(), &EditorDocumentSelection::Empty);
    assert_eq!(selection.focus().panel(), None);
    let instance = EditorDocumentSelection::SceneInstance {
        id: InstanceId::new(3),
        guid: InstanceGuid::new(9),
        scene_path: "/Game/Workspace".to_owned(),
    };
    assert_eq!(
        selection_response(&instance),
        McpSelectionResponse::SceneInstance {
            instance_id: 3,
            guid: 9,
            scene_path: "/Game/Workspace".to_owned()
        }
    );
}

#[test]
fn diagnostics_panel_projects_diagnostics_in_order() {
    let diagnostics = vec![
        Diagnostic::new(
            DiagnosticCode::new("KT_FIRST"),
            DiagnosticSeverity::Info,
            DiagnosticSource::new("Test"),
            "first",
        ),
        Diagnostic::new(
            DiagnosticCode::new("KT_SECOND"),
            DiagnosticSeverity::Error,
            DiagnosticSource::new("Test"),
            "second",
        )
        .with_blocking_scope(DiagnosticBlockingScope::Save),
    ];

    let panel = DiagnosticsPanelState::from_diagnostics(&diagnostics);

    assert_eq!(panel.items()[0].code, "KT_FIRST");
    assert_eq!(panel.items()[1].code, "KT_SECOND");
    assert_eq!(
        panel.items()[1].blocking,
        Some(DiagnosticBlockingScope::Save)
    );
    assert!(!panel.is_empty());
    assert!(DiagnosticsPanelState::from_diagnostics(&[]).is_empty());
}

#[test]
fn session_project_summarizes_settings_and_documents() {
    let settings = ProjectSettingsDocument::new(ProjectIdentity::new("Demo", "0.1").unwrap());
    let documents = ProjectDocumentRefs::from_default_layout();
    let summary = EditorSessionProject::new(&settings, &documents);
    assert_eq!(summary.project_name(), "Demo");
    assert_eq!(summary.engine_compatibility(), "0.1");
    assert_eq!(summary.active_scene_path(), "scenes/main.ktscene");
    assert_eq!(summary.assets_manifest_path(), "project/assets.ktmanifest");
    assert_eq!(summary.instances_manifest_path(), "project/instances.ktmanifest");
}

#[test]
fn play_names_errors_and_idle_state_are_stable() {
    assert_eq!(McpPlayCommandName::Start.as_str(), "play.start");
    assert_eq!(McpPlayCommandName::Stop.as_str(), "play.stop");
    assert_eq!(McpPlayCommandName::Step.as_str(), "play.step");
    assert_eq!(
        McpPlayCommandName::Start.required_target_mode(),
        CommandTargetMode::Edit
    );
    assert_eq!(
        McpPlayCommandName::Step.required_target_mode(),
        CommandTargetMode::Play
    );
    assert_eq!(EditorPlayError::NotPlaying.to_string(), "play mode is not active");
    assert_eq!(
        EditorPlayError::AlreadyPlaying.to_command_error(),
        CommandError::ValidationFailed {
            command_kind: "play".to_owned(),
            reason: "play mode is already active".to_owned()
        }
    );
    let idle = McpPlayStateResponse::idle();
    assert!(!idle.is_playing);
    assert_eq!(idle.runtime_instance_count, 0);
    assert_eq!(
        InspectorCommandError::from(CommandError::EmptyCommandKind),
        InspectorCommandError::Command(CommandError::EmptyCommandKind)
    );
    assert_eq!(
        InspectorCommandError::NoSelectedInstance.to_string(),
        "no scene instance is selected"
    );
}

#[test]
fn explorer_snapshot_finds_rows_by_id() {
    let row = ExplorerRow {
        id: InstanceId::new(1),
        guid: InstanceGuid::new(1),
        parent: None,
        class_name: "Game".to_owned(),
        name: "Game".to_owned(),
        scene_path: "/Game".to_owned(),
        depth: 0,
        children: Vec::new(),
    };
    let snapshot = ExplorerSnapshot::new(vec![row.clone()]).unwrap();
    assert!(!snapshot.is_empty());
    assert_eq!(snapshot.rows().len(), 1);
    assert_eq!(snapshot.row_by_id(InstanceId::new(1)), Some(&row));
    assert_eq!(snapshot.row_by_id(InstanceId::new(2)), None);
    assert!(ExplorerSnapshot::default().is_empty());
}

#[test]
fn explorer_snapshot_accepts_only_parent_before_child_rows() {
    let root = ExplorerRow {
        id: InstanceId::new(1),
        guid: InstanceGuid::new(1),
        parent: None,
        class_name: "Game".to_owned(),
        name: "Game".to_owned(),
        scene_path: "/Game".to_owned(),
        depth: 0,
        children: vec![InstanceId::new(2)],
    };
    let child = ExplorerRow {
        id: InstanceId::new(2),
        guid: InstanceGuid::new(2),
        parent: Some(InstanceId::new(1)),
        class_name: "Workspace".to_owned(),
        name: "Workspace".to_owned(),
        scene_path: "/Game/Workspace".to_owned(),
        depth: 1,
        children: Vec::new(),
    };
    let snapshot = ExplorerSnapshot::new(vec![root.clone(), child.clone()]).unwrap();
    assert_eq!(snapshot.rows().len(), 2);
    assert!(ExplorerSnapshot::new(vec![child.clone(), root.clone()]).is_none());
    let mut too_deep = child.clone();
    too_deep.depth = 2;
    assert!(ExplorerSnapshot::new(vec![root.clone(), too_deep]).is_none());
    let mut unlisted = root.clone();
    unlisted.children = Vec::new();
    assert!(ExplorerSnapshot::new(vec![unlisted, child.clone()]).is_none());
    assert!(ExplorerSnapshot::new(vec![root.clone(), child.clone(), child]).is_none());
}

#[test]
fn explorer_snapshot_keeps_siblings_in_child_order() {
    let row = |id: u64, parent: Option<u64>, depth: usize, children: Vec<u64>| ExplorerRow {
        id: InstanceId::new(id),
        guid: InstanceGuid::new(id),
        parent: parent.map(InstanceId::new),
        class_name: "Folder".to_owned(),
        name: format!("Folder{id}"),
        scene_path: format!("/Folder{id}"),
        depth,
        children: children.into_iter().map(InstanceId::new).collect(),
    };
    let root = row(1, None, 0, vec![2, 3]);
    let first = row(2, Some(1), 1, vec![4]);
    let nested = row(4, Some(2), 2, Vec::new());
    let second = row(3, Some(1), 1, Vec::new());
    let ordered = vec![root.clone(), first.clone(), nested.clone(), second.clone()];
    assert_eq!(ExplorerSnapshot::new(ordered).unwrap().rows().len(), 4);
    assert!(ExplorerSnapshot::new(vec![root.clone(), second.clone(), first.clone(), nested.clone()]).is_none());
    assert!(ExplorerSnapshot::new(vec![root, nested, first, second]).is_none());
}

fn check_selection_tracks_scene_instance_identity_and_path() {
    let workspace_id = InstanceId::new(2);
    let workspace_guid = InstanceGuid::new(2);
    let mut selection = EditorSelection::new();

    selection.select_scene_instance(workspace_id, workspace_guid, "/Game/Workspace");
    selection.focus_panel(EditorPanel::Explorer);

    assert_eq!(selection.focus().panel(), Some(EditorPanel::Explorer));
    assert_eq!(
        selection.document(),
        &EditorDocumentSelection::SceneInstance {
            id: workspace_id,
            guid: workspace_guid,
            scene_path: "/Game/Workspace".to_owned(),
        }
    );
}

#[test]
fn session_selection_tracks_scene_instance_identity_and_path() {
    check_selection_tracks_scene_instance_identity_and_path();
}

#[test]
fn tests_selection_tracks_scene_instance_identity_and_path() {
    check_selection_tracks_scene_instance_identity_and_path();
}

#[test]
fn mcp_selection_requests_update_selection_and_report_failures() {
    let mut selection = EditorSelection::new();

    let response = apply_selection_request(
        &mut selection,
        McpSelectionRequest::SelectSceneInstance {
            instance_id: InstanceId::new(2),
        },
        SceneInstanceLookup::Found {
            guid: InstanceGuid::new(9),
            scene_path: "/Game/Workspace".to_owned(),
        },
    );
    assert_eq!(
        response.selection,
        McpSelectionResponse::SceneInstance {
            instance_id: 2,
            guid: 9,
            scene_path: "/Game/Workspace".to_owned(),
        }
    );
    assert!(response.diagnostics.is_empty());

    let response = apply_selection_request(
        &mut selection,
        McpSelectionRequest::FocusPanel {
            panel: EditorPanel::Inspector,
        },
        SceneInstanceLookup::NoActiveScene,
    );
    assert_eq!(response.focus, Some(EditorPanel::Inspector));
    assert!(response.diagnostics.is_empty());

    let response = apply_selection_request(
        &mut selection,
        McpSelectionRequest::SelectSceneInstance {
            instance_id: InstanceId::new(40),
        },
        SceneInstanceLookup::NoActiveScene,
    );
    assert_eq!(response.diagnostics.len(), 1);
    assert_eq!(
        response.diagnostics[0].message,
        "command editor.select failed validation: no active scene is open"
    );
    assert_eq!(
        response.diagnostics[0].code,
        CommandError::validation_failed_code().as_str()
    );
    assert_eq!(
        response.selection,
        McpSelectionResponse::SceneInstance {
            instance_id: 2,
            guid: 9,
            scene_path: "/Game/Workspace".to_owned(),
        }
    );
    assert_eq!(response.focus, Some(EditorPanel::Inspector));

    let response = apply_selection_request(
        &mut selection,
        McpSelectionRequest::SelectSceneInstance {
            instance_id: InstanceId::new(40),
        },
        SceneInstanceLookup::Failed {
            reason: "instance 40 does not exist".to_owned(),
        },
    );
    assert_eq!(
        response.diagnostics[0].message,
        "command editor.select failed validation: instance 40 does not exist"
    );

    let response = apply_selection_request(
        &mut selection,
        McpSelectionRequest::SelectProjectDocument {
            path: "scenes/main.ktscene".to_owned(),
        },
        SceneInstanceLookup::NoActiveScene,
    );
    assert_eq!(
        response.selection,
        McpSelectionResponse::ProjectDocument {
            path: "scenes/main.ktscene".to_owned(),
        }
    );
    assert!(response.diagnostics.is_empty());

    let response = apply_selection_request(
        &mut selection,
        McpSelectionRequest::Clear,
        SceneInstanceLookup::NoActiveScene,
    );
    assert_eq!(response.selection, McpSelectionResponse::Empty);
    assert_eq!(response.focus, None);
}
