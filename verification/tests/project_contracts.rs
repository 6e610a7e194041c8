use kinetik::foundation::{
    AgentRepair, Diagnostic, DiagnosticBlockingScope, DiagnosticCode, DiagnosticLocation,
    DiagnosticSeverity, DiagnosticSource, InstanceGuid,
};
use kinetik::project::{
    DiagnosticsStore, ProjectDocumentRefs, ProjectError, ProjectIdentity, ProjectSettingsDocument,
};

fn check_identity_rejects_empty_required_fields() {
    assert_eq!(
        ProjectIdentity::new(" ", "0.0").unwrap_err(),
        ProjectError::EmptyProjectName
    );
    assert_eq!(
        ProjectIdentity::new("Example", " ").unwrap_err(),
        ProjectError::EmptyEngineCompatibility
    );
}

fn check_errors_convert_to_build_diagnostics() {
    let diagnostic = ProjectError::EmptyProjectName.to_diagnostic();

    assert_eq!(diagnostic.code, ProjectError::empty_project_name_code());
    assert_eq!(diagnostic.severity, DiagnosticSeverity::Error);
    assert_eq!(diagnostic.source, ProjectError::project_source());
    assert_eq!(diagnostic.blocking, Some(DiagnosticBlockingScope::Build));
}

fn check_document_refs_reject_empty_paths() {
    assert_eq!(
        ProjectDocumentRefs::new(
            "",
            "project/assets.ktmanifest",
            "project/instances.ktmanifest"
        )
        .unwrap_err(),
        ProjectError::EmptyDocumentPath {
            field: "active_scene"
        }
    );
}

fn check_default_document_refs() {
    let refs = ProjectDocumentRefs::from_default_layout();

    assert_eq!(refs.active_scene(), "scenes/main.ktscene");
    assert_eq!(refs.assets_manifest(), "project/assets.ktmanifest");
    assert_eq!(refs.instances_manifest(), "project/instances.ktmanifest");
}

#[test]
fn lib_project_identity_rejects_empty_required_fields() {
    check_identity_rejects_empty_required_fields();
}

#[test]
fn tests_project_identity_rejects_empty_required_fields() {
    check_identity_rejects_empty_required_fields();
}

#[test]
fn lib_project_errors_convert_to_build_diagnostics() {
    check_errors_convert_to_build_diagnostics();
}

#[test]
fn tests_project_errors_convert_to_build_diagnostics() {
    check_errors_convert_to_build_diagnostics();
}

#[test]
fn lib_document_refs_reject_empty_paths() {
    check_document_refs_reject_empty_paths();
}

#[test]
fn tests_document_refs_reject_empty_paths() {
    check_document_refs_reject_empty_paths();
}

#[test]
fn lib_default_document_refs_follow_canonical_project_layout() {
    check_default_document_refs();
}

#[test]
fn tests_default_document_refs_follow_canonical_project_layout() {
    check_default_document_refs();
}

#[test]
fn lib_diagnostics_store_filters_without_reordering() {
    let warning = Diagnostic::new(
        DiagnosticCode::new("KT_TEST_WARNING"),
        DiagnosticSeverity::Warning,
        DiagnosticSource::new("Test"),
        "warning",
    )
    .with_blocking_scope(DiagnosticBlockingScope::Edit);
    let error = Diagnostic::new(
        DiagnosticCode::new("KT_TEST_ERROR"),
        DiagnosticSeverity::Error,
        DiagnosticSource::new("Test"),
        "error",
    )
    .with_blocking_scope(DiagnosticBlockingScope::Build);
    let store = DiagnosticsStore::from_diagnostics(vec![warning.clone(), error.clone()]);

    assert_eq!(store.by_severity(DiagnosticSeverity::Error), vec![&error]);
    assert_eq!(
        store.by_blocking_scope(DiagnosticBlockingScope::Edit),
        vec![&warning]
    );
}

#[test]
fn tests_diagnostics_store_filters_without_reordering() {
    let source = DiagnosticSource::new("Test");
    let warning = Diagnostic::new(
        DiagnosticCode::new("KT_TEST_WARNING"),
        DiagnosticSeverity::Warning,
        source,
        "warning",
    )
    .with_blocking_scope(DiagnosticBlockingScope::Edit);
    let error = Diagnostic::new(
        DiagnosticCode::new("KT_TEST_ERROR"),
        DiagnosticSeverity::Error,
        source,
        "error",
    )
    .with_blocking_scope(DiagnosticBlockingScope::Build);
    let store = DiagnosticsStore::from_diagnostics(vec![warning.clone(), error.clone()]);

    assert_eq!(store.by_severity(DiagnosticSeverity::Error), vec![&error]);
    assert_eq!(store.by_source(source), vec![&warning, &error]);
    assert_eq!(
        store.by_blocking_scope(DiagnosticBlockingScope::Edit),
        vec![&warning]
    );
}

#[test]
fn diagnostics_store_replaces_source_owned_current_health() {
    let layout = DiagnosticSource::new("Resource");
    let settings = ProjectError::project_source();
    let stale_layout = Diagnostic::new(
        DiagnosticCode::new("KT_TEST_STALE_LAYOUT"),
        DiagnosticSeverity::Error,
        layout,
        "stale layout",
    );
    let settings_diagnostic = Diagnostic::new(
        DiagnosticCode::new("KT_TEST_SETTINGS"),
        DiagnosticSeverity::Error,
        settings,
        "settings",
    );
    let fresh_layout = Diagnostic::new(
        DiagnosticCode::new("KT_TEST_FRESH_LAYOUT"),
        DiagnosticSeverity::Warning,
        layout,
        "fresh layout",
    );
    let mut store =
        DiagnosticsStore::from_diagnostics(vec![stale_layout, settings_diagnostic.clone()]);

    store.replace_source(layout, vec![fresh_layout.clone()]);

    assert_eq!(store.diagnostics(), &[settings_diagnostic, fresh_layout]);
}

#[test]
fn diagnostics_store_clears_source_without_touching_other_sources() {
    let layout = Diagnostic::new(
        DiagnosticCode::new("KT_TEST_LAYOUT"),
        DiagnosticSeverity::Error,
        DiagnosticSource::new("Resource"),
        "layout",
    );
    let settings = Diagnostic::new(
        DiagnosticCode::new("KT_TEST_SETTINGS"),
        DiagnosticSeverity::Error,
        ProjectError::project_source(),
        "settings",
    );
    let mut store = DiagnosticsStore::from_diagnostics(vec![layout, settings.clone()]);

    store.clear_source(DiagnosticSource::new("Resource"));

    assert_eq!(store.diagnostics(), &[settings]);
}

#[test]
fn diagnostics_store_queries_locations_and_repairability() {
    let mut location = DiagnosticLocation::new();
    location.instance_guid = Some(InstanceGuid::new(7));
    location.scene_path = Some("/Game/Enemy".to_owned());
    location.asset_path = Some("res://assets/enemy.glb".to_owned());
    location.script_path = Some("scripts/enemy.luau".to_owned());
    location.property_path = Some("Transform.Position".to_owned());
    let repairable = Diagnostic::new(
        DiagnosticCode::new("KT_TEST_TARGETED"),
        DiagnosticSeverity::Error,
        DiagnosticSource::new("Test"),
        "targeted",
    )
    .with_location(location)
    .allow_agent_repair();
    let other = Diagnostic::new(
        DiagnosticCode::new("KT_TEST_OTHER"),
        DiagnosticSeverity::Info,
        DiagnosticSource::new("Other"),
        "other",
    );
    let store = DiagnosticsStore::from_diagnostics(vec![repairable.clone(), other]);

    assert_eq!(
        store.by_instance_guid(InstanceGuid::new(7)),
        vec![&repairable]
    );
    assert_eq!(
        store.by_asset_path("res://assets/enemy.glb"),
        vec![&repairable]
    );
    assert_eq!(store.by_scene_path("/Game/Enemy"), vec![&repairable]);
    assert_eq!(
        store.by_script_path("scripts/enemy.luau"),
        vec![&repairable]
    );
    assert_eq!(
        store.by_property_path("Transform.Position"),
        vec![&repairable]
    );
    assert_eq!(
        store.by_agent_repair(AgentRepair::Allowed),
        vec![&repairable]
    );
}

#[test]
fn diagnostics_store_push_len_and_clear() {
    let mut store = DiagnosticsStore::new();
    assert!(store.is_empty());
    store.push(Diagnostic::new(
        DiagnosticCode::new("KT_TEST"),
        DiagnosticSeverity::Info,
        DiagnosticSource::new("Test"),
        "info",
    ));
    assert_eq!(store.len(), 1);
    store.clear();
    assert!(store.is_empty());
}

#[test]
fn project_identity_and_settings_keep_fields() {
    let identity = ProjectIdentity::new("Example", "0.0").unwrap();
    let settings = ProjectSettingsDocument::new(identity.clone());
    assert_eq!(settings.identity().name(), "Example");
    assert_eq!(settings.identity().engine_compatibility(), "0.0");
    assert_eq!(settings.identity(), &identity);
}

#[test]
fn project_error_messages_and_codes_for_document_paths() {
    let error = ProjectDocumentRefs::new("scenes/main.ktscene", "   ", "x").unwrap_err();
    assert_eq!(
        error,
        ProjectError::EmptyDocumentPath {
            field: "assets_manifest"
        }
    );
    assert_eq!(error.diagnostic_code(), ProjectError::empty_document_path_code());
    let error = ProjectDocumentRefs::new("scenes/main.ktscene", "a", "\t").unwrap_err();
    assert_eq!(
        error,
        ProjectError::EmptyDocumentPath {
            field: "instances_manifest"
        }
    );
}
