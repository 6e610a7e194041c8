use kinetik::foundation::{
    AgentRepair, BundleId, Diagnostic, DiagnosticBlockingScope, DiagnosticCode,
    DiagnosticLocation, DiagnosticSeverity, DiagnosticSource, InstanceGuid, InstanceId,
    KinetikError, ResourceId, ScriptId, SignalId, SourceRange,
};

#[test]
fn diagnostic_codes_are_stable_strings() {
    assert_eq!(
        DiagnosticCode::core_invalid_handle().as_str(),
        "KT_CORE_INVALID_HANDLE"
    );
    assert_eq!(DiagnosticCode::core_not_found().as_str(), "KT_CORE_NOT_FOUND");
    assert_eq!(
        DiagnosticCode::core_not_implemented().as_str(),
        "KT_CORE_NOT_IMPLEMENTED"
    );
}

#[test]
fn diagnostic_shape_carries_core_fields() {
    let location = DiagnosticLocation {
        instance_guid: Some(InstanceGuid::new(42)),
        scene_path: Some("/Game/Lighting/Sun".to_owned()),
        asset_path: None,
        script_path: Some("scripts/sun.luau".to_owned()),
        source_range: Some(SourceRange::new(1, 2, 3, 4)),
        property_path: Some("Intensity".to_owned()),
    };

    let diagnostic = Diagnostic::new(
        DiagnosticCode::new("KT_TEST_EXAMPLE"),
        DiagnosticSeverity::Warning,
        DiagnosticSource::new("Test"),
        "Example diagnostic",
    )
    .with_blocking_scope(DiagnosticBlockingScope::Test)
    .with_location(location)
    .with_suggested_fix("Update the test fixture")
    .allow_agent_repair();

    assert_eq!(diagnostic.code.as_str(), "KT_TEST_EXAMPLE");
    assert_eq!(diagnostic.severity, DiagnosticSeverity::Warning);
    assert_eq!(diagnostic.source.as_str(), "Test");
    assert_eq!(diagnostic.blocking, Some(DiagnosticBlockingScope::Test));
    assert_eq!(diagnostic.location.instance_guid.unwrap().raw(), 42);
    assert_eq!(
        diagnostic.location.scene_path.as_deref(),
        Some("/Game/Lighting/Sun")
    );
    assert_eq!(
        diagnostic.location.script_path.as_deref(),
        Some("scripts/sun.luau")
    );
    assert_eq!(
        diagnostic.location.property_path.as_deref(),
        Some("Intensity")
    );
    assert_eq!(
        diagnostic.suggested_fix.as_deref(),
        Some("Update the test fixture")
    );
    assert_eq!(diagnostic.agent_repair, AgentRepair::Allowed);
}

#[test]
fn kinetik_errors_map_to_diagnostics() {
    let error = KinetikError::InvalidHandle {
        kind: "InstanceId",
        id: 99,
    };

    let diagnostic = error.to_diagnostic(
        DiagnosticSource::new("Scene"),
        Some(DiagnosticBlockingScope::Play),
    );

    assert_eq!(diagnostic.code, DiagnosticCode::core_invalid_handle());
    assert_eq!(diagnostic.severity, DiagnosticSeverity::Error);
    assert_eq!(diagnostic.source.as_str(), "Scene");
    assert_eq!(diagnostic.blocking, Some(DiagnosticBlockingScope::Play));
    assert_eq!(diagnostic.message, "invalid InstanceId handle: 99");
    assert_eq!(diagnostic.agent_repair, AgentRepair::NotAllowed);
}

#[test]
fn kinetik_error_from_conversion_uses_core_source() {
    let diagnostic = Diagnostic::from(KinetikError::NotImplemented { feature: "Bundles" });

    assert_eq!(diagnostic.code, DiagnosticCode::core_not_implemented());
    assert_eq!(diagnostic.source, DiagnosticSource::core_source());
    assert_eq!(diagnostic.message, "feature not implemented: Bundles");
}

#[test]
fn typed_ids_do_not_share_types() {
    let instance = InstanceId::new(7);
    let resource = ResourceId::new(7);
    assert_eq!(instance.raw(), resource.raw());
    assert_ne!(format!("{instance:?}"), format!("{resource:?}"));
}

#[test]
fn typed_id_display_includes_kind_and_raw_value() {
    assert_eq!(InstanceId::new(1).to_string(), "InstanceId(1)");
    assert_eq!(InstanceGuid::new(2).to_string(), "InstanceGuid(2)");
    assert_eq!(ResourceId::new(3).to_string(), "ResourceId(3)");
    assert_eq!(SignalId::new(4).to_string(), "SignalId(4)");
    assert_eq!(ScriptId::new(5).to_string(), "ScriptId(5)");
    assert_eq!(BundleId::new(6).to_string(), "BundleId(6)");
}

#[test]
fn not_found_error_names_kind_and_item() {
    let error = KinetikError::NotFound {
        kind: "Resource",
        name: "res://missing.glb".to_owned(),
    };
    assert_eq!(error.to_string(), "Resource not found: res://missing.glb");
    assert_eq!(error.diagnostic_code(), DiagnosticCode::core_not_found());
}

#[test]
fn typed_id_display_renders_multi_digit_values() {
    assert_eq!(InstanceId::new(1207).to_string(), "InstanceId(1207)");
    assert_eq!(
        ResourceId::new(u64::MAX).to_string(),
        "ResourceId(18446744073709551615)"
    );
}

#[test]
fn diagnostic_location_starts_empty() {
    let location = DiagnosticLocation::new();
    assert_eq!(location, DiagnosticLocation::default());
    assert!(location.instance_guid.is_none());
    assert!(location.scene_path.is_none());
    assert!(location.property_path.is_none());
}
