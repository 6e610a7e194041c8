use kinetik::command::{CommandChangeRecord, CommandHistory, CommandResult, CommandTargetMode};
use kinetik::editor::{
    EditorDocumentSelection, EditorPersistenceError, ResourceManifestResponse, SceneInstanceSummary, EditorModeState, EditorPanel, EditorSession, McpPlayCommand,
    McpSelectionRequest, McpSelectionResponse, SceneInstanceLookup,
};
use kinetik::foundation::{
    Diagnostic, DiagnosticBlockingScope, DiagnosticCode, DiagnosticSeverity, DiagnosticSource,
    InstanceGuid, InstanceId,
};
use kinetik::project::project_model::layout_source;
use kinetik::project::{
    ProjectDocumentRefs, ProjectError, ProjectIdentity, ProjectModel, ProjectSettingsDocument,
};
use kinetik::runtime::{FramePhase, RuntimeInstanceId, SceneInstanceDocument};

fn node(guid: u64, class_name: &str, name: &str, children: Vec<SceneInstanceDocument>) -> SceneInstanceDocument {
    SceneInstanceDocument {
        guid: InstanceGuid::new(guid),
        class_name: class_name.to_owned(),
        name: name.to_owned(),
        children,
    }
}

fn default_scene() -> SceneInstanceDocument {
    let services = [
        "Workspace", "Prefabs", "Scripts", "UI", "Lighting", "Audio", "Physics", "Assets",
        "Packages",
    ];
    let children = services
        .iter()
        .enumerate()
        .map(|(index, name)| node(index as u64 + 2, "Folder", name, Vec::new()))
        .collect();
    node(1, "DataModel", "Game", children)
}

fn settings() -> ProjectSettingsDocument {
    ProjectSettingsDocument::new(ProjectIdentity::new("Example", "0.0").unwrap())
}

fn demo_project() -> ProjectModel {
    ProjectModel::new(
        ProjectSettingsDocument::new(ProjectIdentity::new("Demo", "0.1").expect("valid identity")),
        ProjectDocumentRefs::default(),
    )
}

fn open_demo_session() -> EditorSession {
    let mut session = EditorSession::new();
    session.open_project(demo_project(), default_scene());
    session
}

fn missing_paths_diagnostic() -> Diagnostic {
    Diagnostic::new(
        DiagnosticCode::new("KT_RESOURCE_MISSING_PROJECT_PATHS"),
        DiagnosticSeverity::Error,
        DiagnosticSource::new("Resource"),
        "project layout is missing required paths",
    )
    .with_blocking_scope(DiagnosticBlockingScope::Build)
}

fn check_project_model_stores_identity_and_document_refs() {
    let model = ProjectModel::new(settings(), ProjectDocumentRefs::default());

    assert_eq!(model.settings().identity().name(), "Example");
    assert_eq!(model.documents().active_scene(), "scenes/main.ktscene");
    assert!(model.diagnostics().is_empty());
}

#[test]
fn lib_project_model_stores_identity_and_document_refs_without_editor_state() {
    check_project_model_stores_identity_and_document_refs();
}

#[test]
fn tests_project_model_stores_identity_and_document_refs_without_editor_state() {
    check_project_model_stores_identity_and_document_refs();
}

fn check_project_model_records_layout_validation_diagnostics() {
    let model = ProjectModel::with_layout_validation(
        settings(),
        ProjectDocumentRefs::default(),
        Some(missing_paths_diagnostic()),
    );

    let diagnostics = model.diagnostics().diagnostics();
    assert_eq!(diagnostics.len(), 1);
    assert_eq!(
        diagnostics[0].code,
        DiagnosticCode::new("KT_RESOURCE_MISSING_PROJECT_PATHS")
    );
    assert_eq!(diagnostics[0].blocking, Some(DiagnosticBlockingScope::Build));
}

#[test]
fn lib_project_model_records_layout_validation_diagnostics() {
    check_project_model_records_layout_validation_diagnostics();
}

#[test]
fn tests_project_model_records_layout_validation_diagnostics() {
    check_project_model_records_layout_validation_diagnostics();
}

fn check_project_model_clears_stale_layout_diagnostics_after_valid_layout() {
    let mut model = ProjectModel::with_layout_validation(
        settings(),
        ProjectDocumentRefs::default(),
        Some(missing_paths_diagnostic()),
    );
    model.push_diagnostic(ProjectError::EmptyProjectName.to_diagnostic());
    assert_eq!(model.diagnostics().len(), 2);

    model.validate_layout(None);

    assert_eq!(
        model
            .diagnostics()
            .by_source(ProjectError::project_source())
            .len(),
        1
    );
    assert!(model
        .diagnostics()
        .by_source(layout_source())
        .is_empty());
}

#[test]
fn lib_project_model_clears_stale_layout_diagnostics_after_valid_layout() {
    check_project_model_clears_stale_layout_diagnostics_after_valid_layout();
}

#[test]
fn tests_project_model_clears_stale_layout_diagnostics_after_valid_layout() {
    check_project_model_clears_stale_layout_diagnostics_after_valid_layout();
}

#[test]
fn layout_check_keeps_other_sources_in_order_and_replaces_layout_diagnostics() {
    let mut model = ProjectModel::new(settings(), ProjectDocumentRefs::default());
    model.push_diagnostic(ProjectError::EmptyProjectName.to_diagnostic());
    model.validate_layout(Some(missing_paths_diagnostic()));
    model.push_diagnostic(ProjectError::EmptyEngineCompatibility.to_diagnostic());
    model.validate_layout(Some(missing_paths_diagnostic()));

    let diagnostics = model.diagnostics().diagnostics();
    assert_eq!(diagnostics.len(), 3);
    assert_eq!(diagnostics[0].code, ProjectError::EmptyProjectName.diagnostic_code());
    assert_eq!(diagnostics[1].code, ProjectError::EmptyEngineCompatibility.diagnostic_code());
    assert_eq!(
        diagnostics[2].code,
        DiagnosticCode::new("KT_RESOURCE_MISSING_PROJECT_PATHS")
    );
    assert_eq!(model.settings().identity().name(), "Example");
}

fn check_session_close_clears_editor_owned_state() {
    let mut session = open_demo_session();
    session.selection_mut().focus_panel(EditorPanel::Explorer);
    session.replace_session_diagnostics(vec![Diagnostic::new(
        DiagnosticCode::new("KT_TEST"),
        DiagnosticSeverity::Warning,
        DiagnosticSource::new("Test"),
        "warning",
    )]);
    session.enter_play_mode();

    session.close_project();

    assert!(!session.is_open());
    assert!(session.active_scene().is_none());
    assert_eq!(session.mode(), EditorModeState::Edit);
    assert!(session.diagnostics_panel().is_empty());
    assert!(matches!(
        session.selection().document(),
        EditorDocumentSelection::Empty
    ));
}

#[test]
fn session_session_close_clears_editor_owned_state() {
    check_session_close_clears_editor_owned_state();
}

#[test]
fn tests_session_close_clears_editor_owned_state() {
    check_session_close_clears_editor_owned_state();
}

fn check_diagnostics_panel_projects_session_diagnostics_in_order() {
    let mut session = open_demo_session();
    session.replace_session_diagnostics(vec![
        Diagnostic::new(
            DiagnosticCode::new("KT_FIRST"),
            DiagnosticSeverity::Info,
            DiagnosticSource::new("Test"),
            "first",
        ),
        Diagnostic::new(
            DiagnosticCode::new("KT_SECOND"),
            DiagnosticSeverity::Error,
            DiagnosticSource::new("Test"),
            "second",
        )
        .with_blocking_scope(DiagnosticBlockingScope::Save),
    ]);

    let panel = session.diagnostics_panel();

    assert_eq!(panel.items()[0].code, "KT_FIRST");
    assert_eq!(panel.items()[1].code, "KT_SECOND");
    assert_eq!(
        panel.items()[1].blocking,
        Some(DiagnosticBlockingScope::Save)
    );
}

#[test]
fn session_diagnostics_panel_projects_session_diagnostics_in_order() {
    check_diagnostics_panel_projects_session_diagnostics_in_order();
}

#[test]
fn tests_diagnostics_panel_projects_session_diagnostics_in_order() {
    check_diagnostics_panel_projects_session_diagnostics_in_order();
}

fn check_mode_state_tracks_play_ownership_without_runtime_world() {
    let mut session = EditorSession::new();

    assert_eq!(session.mode(), EditorModeState::Edit);
    session.enter_play_mode();
    assert_eq!(session.mode(), EditorModeState::Play);
    session.stop_play_mode();
    assert_eq!(session.mode(), EditorModeState::Edit);
}

#[test]
fn session_mode_state_tracks_play_ownership_without_runtime_world() {
    check_mode_state_tracks_play_ownership_without_runtime_world();
}

#[test]
fn tests_mode_state_tracks_play_ownership_without_runtime_world() {
    check_mode_state_tracks_play_ownership_without_runtime_world();
}

#[test]
fn session_summary_and_project_diagnostics_come_from_the_open_project() {
    let mut session = EditorSession::new();
    assert!(session.project_summary().is_none());
    session.open_project(
        ProjectModel::with_layout_validation(
            settings(),
            ProjectDocumentRefs::default(),
            Some(missing_paths_diagnostic()),
        ),
        default_scene(),
    );
    session.replace_session_diagnostics(vec![Diagnostic::new(
        DiagnosticCode::new("KT_SESSION"),
        DiagnosticSeverity::Info,
        DiagnosticSource::new("Editor"),
        "session",
    )]);

    let summary = session.project_summary().unwrap();
    assert_eq!(summary.project_name(), "Example");
    assert_eq!(summary.active_scene_path(), "scenes/main.ktscene");
    let panel = session.diagnostics_panel();
    assert_eq!(panel.items().len(), 2);
    assert_eq!(panel.items()[0].code, "KT_RESOURCE_MISSING_PROJECT_PATHS");
    assert_eq!(panel.items()[1].code, "KT_SESSION");
}

#[test]
fn session_undo_redo_and_selection_go_through_the_session() {
    let mut session = open_demo_session();
    let result = CommandResult::succeeded("CreateInstance", CommandTargetMode::Edit).unwrap();
    let mut scratch = CommandHistory::new();
    assert!(scratch.commit_result("nothing", &result).unwrap().is_none());

    let undo = session.mcp_undo();
    assert!(!undo.moved);

    let selected = session.mcp_apply_selection(
        McpSelectionRequest::SelectSceneInstance {
            instance_id: InstanceId::new(2),
        },
        SceneInstanceLookup::Found {
            guid: InstanceGuid::new(2),
            scene_path: "/Game/Workspace".to_owned(),
        },
    );
    assert!(selected.diagnostics.is_empty());
    assert_eq!(
        selected.selection,
        McpSelectionResponse::SceneInstance {
            instance_id: 2,
            guid: 2,
            scene_path: "/Game/Workspace".to_owned(),
        }
    );

    session.close_project();
    let refused = session.mcp_apply_selection(
        McpSelectionRequest::SelectSceneInstance {
            instance_id: InstanceId::new(2),
        },
        SceneInstanceLookup::Found {
            guid: InstanceGuid::new(2),
            scene_path: "/Game/Workspace".to_owned(),
        },
    );
    assert_eq!(refused.diagnostics.len(), 1);
    assert_eq!(
        refused.diagnostics[0].message,
        "command editor.select failed validation: no active scene is open"
    );
    assert_eq!(refused.selection, McpSelectionResponse::Empty);
}

#[test]
fn play_mode_start_step_and_stop_own_runtime_sandbox() {
    let mut session = open_demo_session();
    let edit_document_before = default_scene();

    session.start_play_mode().expect("start play");

    let play = session.play_session().expect("play session");
    assert_eq!(session.mode(), EditorModeState::Play);
    assert_eq!(play.world().root_id(), Some(RuntimeInstanceId::new(1)));
    assert_eq!(
        play.world()
            .runtime_id_for_edit_guid(edit_document_before.guid),
        Some(RuntimeInstanceId::new(1))
    );

    let step = session.step_play_mode(2).expect("step play");
    assert_eq!(step.frame_index, 1);
    assert!(step.fixed_steps >= 1);
    assert_eq!(
        session
            .play_session()
            .unwrap()
            .last_step()
            .unwrap()
            .frame_index,
        1
    );

    session.stop_play_mode();

    assert_eq!(session.mode(), EditorModeState::Edit);
    assert!(session.play_session().is_none());
    assert_eq!(session.active_scene().unwrap(), &edit_document_before);
    assert!(session.dirty_state().is_clean());
}

#[test]
fn play_runtime_mutations_do_not_persist_or_dirty_edit_scene() {
    let mut session = open_demo_session();
    let edit_document_before = default_scene();

    session.start_play_mode().expect("start play");
    let parent = session.play_session().unwrap().world().root_id().unwrap();
    let spawned = session
        .play_session_mut()
        .unwrap()
        .world_mut()
        .spawn_runtime_child(parent, "Part", "RuntimeOnly")
        .expect("runtime spawn");

    assert_eq!(
        session
            .play_session()
            .unwrap()
            .world()
            .get(spawned)
            .unwrap()
            .edit_guid,
        None
    );
    assert_eq!(session.active_scene().unwrap(), &edit_document_before);
    assert!(session.dirty_state().is_clean());

    session.stop_play_mode();

    assert!(session.play_session().is_none());
    assert_eq!(session.active_scene().unwrap(), &edit_document_before);
}

#[test]
fn play_diagnostics_are_visible_in_editor_and_mcp_snapshot() {
    let mut session = open_demo_session();

    session.start_play_mode().expect("start play");
    session.step_play_mode(0).expect("step play");

    let panel = session.diagnostics_panel();
    assert_eq!(panel.items().last().unwrap().code, "KT_RUNTIME_PLAY_STATE");
    assert_eq!(panel.items().last().unwrap().source, "Runtime");
    assert_eq!(
        panel.items().last().unwrap().message,
        "runtime frame 1 stepped"
    );

    let play_state = session.mcp_play_state();
    assert!(play_state.is_playing);
    assert_eq!(play_state.frame_index, Some(1));
}

#[test]
fn mcp_play_commands_enforce_edit_play_target_modes() {
    let mut session = open_demo_session();

    let ambiguous = session.mcp_execute_play_command(&McpPlayCommand::Start { target_mode: None });
    assert_eq!(
        ambiguous.diagnostics[0].code,
        "KT_COMMAND_AMBIGUOUS_TARGET_MODE"
    );
    assert!(!ambiguous.play_state.is_playing);

    let started = session.mcp_execute_play_command(&McpPlayCommand::Start {
        target_mode: Some(CommandTargetMode::Edit),
    });
    assert!(started.diagnostics.is_empty());
    assert!(started.play_state.is_playing);

    let wrong_step = session.mcp_execute_play_command(&McpPlayCommand::Step {
        target_mode: Some(CommandTargetMode::Edit),
        fixed_steps: 0,
    });
    assert_eq!(
        wrong_step.diagnostics[0].code,
        "KT_COMMAND_WRONG_TARGET_MODE"
    );

    let stepped = session.mcp_execute_play_command(&McpPlayCommand::Step {
        target_mode: Some(CommandTargetMode::Play),
        fixed_steps: 0,
    });
    assert!(stepped.diagnostics.is_empty());
    assert_eq!(stepped.play_state.frame_index, Some(1));

    let stop_response = session.mcp_execute_play_command(&McpPlayCommand::Stop {
        target_mode: Some(CommandTargetMode::Play),
    });
    assert!(stop_response.diagnostics.is_empty());
    assert!(!stop_response.play_state.is_playing);
}

#[test]
fn play_controls_refuse_out_of_order_requests() {
    let mut session = EditorSession::new();
    assert_eq!(
        session.start_play_mode().unwrap_err().to_string(),
        "no active scene is open"
    );
    assert_eq!(
        session.step_play_mode(1).unwrap_err().to_string(),
        "play mode is not active"
    );

    session.open_project(demo_project(), default_scene());
    session.start_play_mode().unwrap();
    assert_eq!(
        session.start_play_mode().unwrap_err().to_string(),
        "play mode is already active"
    );

    let step = session.step_play_mode(2).unwrap();
    let phases: Vec<FramePhase> = step.records.iter().map(|record| record.phase).collect();
    assert_eq!(phases.first(), Some(&FramePhase::PollPlatformInput));
    assert_eq!(
        step.records
            .iter()
            .filter_map(|record| record.fixed_step_index)
            .max(),
        Some(2)
    );
    let state = session.mcp_play_state();
    assert_eq!(state.runtime_world_id, Some(1));
    assert_eq!(state.runtime_instance_count, 10);
    assert_eq!(state.next_fixed_step_index, Some(3));

    let stopped = session.mcp_execute_play_command(&McpPlayCommand::Stop {
        target_mode: Some(CommandTargetMode::Play),
    });
    assert!(stopped.diagnostics.is_empty());
    let again = session.mcp_execute_play_command(&McpPlayCommand::Stop {
        target_mode: Some(CommandTargetMode::Play),
    });
    assert_eq!(
        again.diagnostics[0].message,
        "command play failed validation: play mode is not active"
    );
}

#[test]
fn selected_edit_instance_maps_to_its_runtime_clone() {
    let mut session = open_demo_session();
    assert_eq!(session.runtime_id_for_selected_edit_guid(), None);
    session.selection_mut().select_scene_instance(
        InstanceId::new(5),
        InstanceGuid::new(4),
        "/Game/Scripts",
    );
    assert_eq!(session.runtime_id_for_selected_edit_guid(), None);

    session.start_play_mode().unwrap();
    assert_eq!(
        session.runtime_id_for_selected_edit_guid(),
        Some(RuntimeInstanceId::new(4))
    );
}

#[test]
fn mcp_snapshot_core_reports_session_state() {
    let mut session = open_demo_session();
    session.replace_session_diagnostics(vec![Diagnostic::new(
        DiagnosticCode::new("KT_SESSION"),
        DiagnosticSeverity::Warning,
        DiagnosticSource::new("Editor"),
        "session warning",
    )]);
    session.selection_mut().focus_panel(EditorPanel::Inspector);
    session.start_play_mode().unwrap();
    session.step_play_mode(0).unwrap();
    let scene = vec![SceneInstanceSummary {
        instance_id: 1,
        guid: 1,
        class_name: "DataModel".to_owned(),
        name: "Game".to_owned(),
        scene_path: "/Game".to_owned(),
        parent_id: None,
        child_ids: Vec::new(),
    }];

    let snapshot = session.mcp_snapshot_core(scene.clone(), ResourceManifestResponse { entries: Vec::new() });

    assert_eq!(snapshot.project.as_ref().unwrap().project_name, "Demo");
    assert_eq!(snapshot.scene, scene);
    assert_eq!(snapshot.selection, McpSelectionResponse::Empty);
    assert_eq!(snapshot.focus, Some(EditorPanel::Inspector));
    assert_eq!(snapshot.diagnostics.len(), 2);
    assert_eq!(snapshot.diagnostics[0].code, "KT_SESSION");
    assert_eq!(snapshot.diagnostics[0].scene_path, None);
    assert_eq!(snapshot.diagnostics[1].code, "KT_RUNTIME_PLAY_STATE");
    assert_eq!(snapshot.diagnostics[1].message, "runtime frame 1 stepped");
    assert!(!snapshot.dirty_state.is_dirty);
    assert!(snapshot.play_state.is_playing);
    assert_eq!(snapshot.play_state.frame_index, Some(1));
}

fn dirty_session() -> EditorSession {
    let mut session = EditorSession::new();
    session.open_project(
        ProjectModel::new(settings(), ProjectDocumentRefs::default()),
        default_scene(),
    );
    let change = CommandChangeRecord::new("RenameInstance", CommandTargetMode::Edit, "renamed")
        .unwrap()
        .with_affected_documents(vec!["scenes/main.ktscene".to_owned()]);
    let result =
        CommandResult::succeeded_with_changes("RenameInstance", CommandTargetMode::Edit, vec![change])
            .unwrap();
    session
        .command_history_mut()
        .commit_result("Rename", &result)
        .unwrap();
    assert!(!session.dirty_state().is_clean());
    session
}

#[test]
fn finishing_a_save_without_a_project_is_refused() {
    let mut session = EditorSession::new();
    assert_eq!(session.save_target_ready(), Err(EditorPersistenceError::NoActiveProject));
    assert_eq!(session.finish_save(true), Err(EditorPersistenceError::NoActiveProject));
    assert_eq!(EditorPersistenceError::NoActiveProject.to_string(), "no project is open");
}

#[test]
fn finishing_a_save_with_mismatched_snapshots_keeps_the_history() {
    let mut session = dirty_session();
    assert_eq!(session.save_target_ready(), Ok(()));
    assert_eq!(session.finish_save(false), Err(EditorPersistenceError::SnapshotMismatch));
    assert!(!session.dirty_state().is_clean());
    assert_eq!(
        EditorPersistenceError::SnapshotMismatch.to_string(),
        "saved project snapshot did not match"
    );
}

#[test]
fn finishing_a_matching_save_makes_the_project_clean() {
    let mut session = dirty_session();
    assert_eq!(session.finish_save(true), Ok(()));
    assert!(session.dirty_state().is_clean());
    assert!(session.command_history().undo_stack().is_empty());
    assert!(session.is_open());
}
