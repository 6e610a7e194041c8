use kinetik::foundation::{
    Diagnostic, DiagnosticCode, DiagnosticSeverity, DiagnosticSource, InstanceGuid,
};
use kinetik::runtime::frame::frame_step_records;
use kinetik::runtime::{
    FrameCounters, FramePhase, RuntimeAttribution, RuntimeDiagnosticRecord, RuntimeInstanceId,
    RuntimeLogLevel, RuntimeLogRecord, RuntimeWorld, RuntimeWorldError, RuntimeWorldId,
    SceneError, SceneInstanceDocument,
};

const ROOT_CLASS_NAME: &str = "Game";

fn node(guid: u64, class_name: &str, name: &str, children: Vec<SceneInstanceDocument>) -> SceneInstanceDocument {
    SceneInstanceDocument {
        guid: InstanceGuid::new(guid),
        class_name: class_name.to_owned(),
        name: name.to_owned(),
        children,
    }
}

fn default_scene() -> SceneInstanceDocument {
    let services = [
        "Workspace", "Prefabs", "Scripts", "UI", "Lighting", "Audio", "Physics", "Assets",
        "Packages",
    ];
    let children = services
        .iter()
        .enumerate()
        .map(|(index, name)| node(index as u64 + 2, "Folder", name, Vec::new()))
        .collect();
    node(1, ROOT_CLASS_NAME, "Game", children)
}

fn default_world(id: u64) -> RuntimeWorld {
    let scene = default_scene();
    RuntimeWorld::clone_from_edit_scene(RuntimeWorldId::new(id), Some(&scene)).unwrap()
}

#[test]
fn attribution_tracks_world_frame_fixed_step_and_source() {
    let attribution =
        RuntimeAttribution::new(RuntimeWorldId::new(7), DiagnosticSource::new("Script"))
            .with_frame_index(12)
            .with_fixed_step_index(4);

    assert_eq!(attribution.world_id, RuntimeWorldId::new(7));
    assert_eq!(attribution.frame_index, Some(12));
    assert_eq!(attribution.fixed_step_index, Some(4));
    assert_eq!(attribution.source.as_str(), "Script");
    assert_eq!(attribution.instance_id, None);
}

#[test]
fn attribution_tracks_runtime_instance_edit_guid_and_script_path() {
    let attribution =
        RuntimeAttribution::new(RuntimeWorldId::new(1), DiagnosticSource::new("Luau"))
            .with_instance(RuntimeInstanceId::new(3), Some(InstanceGuid::new(99)))
            .with_script_path("res://scripts/player.luau");

    assert_eq!(attribution.instance_id, Some(RuntimeInstanceId::new(3)));
    assert_eq!(attribution.edit_guid, Some(InstanceGuid::new(99)));
    assert_eq!(
        attribution.script_path.as_deref(),
        Some("res://scripts/player.luau")
    );
}

#[test]
fn diagnostic_record_preserves_payload_and_attribution() {
    let attribution =
        RuntimeAttribution::new(RuntimeWorldId::new(2), DiagnosticSource::new("Physics"))
            .with_frame_index(5);
    let diagnostic = Diagnostic::new(
        DiagnosticCode::new("KT_TEST_RUNTIME"),
        DiagnosticSeverity::Warning,
        attribution.source,
        "Runtime warning",
    );

    let record = RuntimeDiagnosticRecord::new(diagnostic.clone(), attribution.clone());

    assert_eq!(record.attribution, attribution);
    assert_eq!(record.diagnostic, diagnostic);
}

#[test]
fn log_record_preserves_level_message_and_attribution() {
    let attribution =
        RuntimeAttribution::new(RuntimeWorldId::new(2), DiagnosticSource::new("Runtime"))
            .with_frame_index(9);

    let record =
        RuntimeLogRecord::new(RuntimeLogLevel::Info, attribution.clone(), "Started play");

    assert_eq!(record.attribution, attribution);
    assert_eq!(record.level, RuntimeLogLevel::Info);
    assert_eq!(record.message, "Started play");
}

fn check_clone_preserves_edit_guid_mapping() {
    let scene = default_scene();
    let world = RuntimeWorld::clone_from_edit_scene(RuntimeWorldId::new(1), Some(&scene)).unwrap();

    assert_eq!(world.id(), RuntimeWorldId::new(1));
    assert_eq!(world.root_id(), Some(RuntimeInstanceId::new(1)));
    assert_eq!(
        world.runtime_id_for_edit_guid(scene.guid),
        Some(RuntimeInstanceId::new(1))
    );
    assert_eq!(
        world.get(RuntimeInstanceId::new(1)).unwrap().class_name,
        ROOT_CLASS_NAME
    );
    assert_eq!(
        world.get(RuntimeInstanceId::new(2)).unwrap().parent,
        Some(RuntimeInstanceId::new(1))
    );
}

fn check_clone_uses_deterministic_parent_before_child_order() {
    let world = default_world(7);
    let names: Vec<&str> = world
        .instances()
        .iter()
        .map(|instance| instance.name.as_str())
        .collect();

    assert_eq!(
        names,
        vec![
            "Game",
            "Workspace",
            "Prefabs",
            "Scripts",
            "UI",
            "Lighting",
            "Audio",
            "Physics",
            "Assets",
            "Packages",
        ]
    );
    assert_eq!(
        world.get(RuntimeInstanceId::new(1)).unwrap().children,
        (2..=10).map(RuntimeInstanceId::new).collect::<Vec<_>>()
    );
}

fn check_clone_does_not_require_edit_instance_ids() {
    let scene = node(
        11,
        ROOT_CLASS_NAME,
        "Game",
        vec![node(12, "Node3D", "Node", Vec::new())],
    );

    let world = RuntimeWorld::clone_from_edit_scene(RuntimeWorldId::new(3), Some(&scene)).unwrap();

    assert_eq!(world.root_id().unwrap().raw(), 1);
    assert_eq!(world.get(RuntimeInstanceId::new(2)).unwrap().name, "Node");
    assert_eq!(
        world.get(RuntimeInstanceId::new(2)).unwrap().edit_guid,
        Some(InstanceGuid::new(12))
    );
}

fn check_clone_requires_edit_scene_root() {
    assert_eq!(
        RuntimeWorld::clone_from_edit_scene(RuntimeWorldId::new(1), None).unwrap_err(),
        SceneError::MissingRoot
    );
}

#[test]
fn runtime_world_clone_numbers_nested_trees_in_preorder() {
    let scene = node(
        1,
        ROOT_CLASS_NAME,
        "Game",
        vec![
            node(2, "Folder", "A", vec![node(3, "Part", "A1", Vec::new())]),
            node(4, "Folder", "B", Vec::new()),
        ],
    );
    let world = RuntimeWorld::clone_from_edit_scene(RuntimeWorldId::new(1), Some(&scene)).unwrap();
    let names: Vec<&str> = world.instances().iter().map(|i| i.name.as_str()).collect();
    assert_eq!(names, vec!["Game", "A", "A1", "B"]);
    assert_eq!(
        world.get(RuntimeInstanceId::new(1)).unwrap().children,
        vec![RuntimeInstanceId::new(2), RuntimeInstanceId::new(4)]
    );
    assert_eq!(
        world.get(RuntimeInstanceId::new(3)).unwrap().parent,
        Some(RuntimeInstanceId::new(2))
    );
}

#[test]
fn runtime_spawn_creates_runtime_only_child_identity() {
    let mut world = default_world(1);
    let parent = RuntimeInstanceId::new(2);

    let spawned = world
        .spawn_runtime_child(parent, "Part", "RuntimeBlock")
        .unwrap();

    let spawned_record = world.get(spawned).unwrap();
    assert_eq!(spawned, RuntimeInstanceId::new(11));
    assert_eq!(spawned_record.edit_guid, None);
    assert_eq!(spawned_record.parent, Some(parent));
    assert_eq!(spawned_record.class_name, "Part");
    assert_eq!(spawned_record.name, "RuntimeBlock");
    assert_eq!(
        world.get(parent).unwrap().children.last().copied(),
        Some(spawned)
    );
}

#[test]
fn runtime_spawn_rejects_missing_parent_and_invalid_names() {
    let mut world = default_world(1);

    assert_eq!(
        world
            .spawn_runtime_child(RuntimeInstanceId::new(99), "Part", "Block")
            .unwrap_err(),
        RuntimeWorldError::MissingParent {
            parent: RuntimeInstanceId::new(99)
        }
    );
    assert_eq!(
        world
            .spawn_runtime_child(RuntimeInstanceId::new(1), "  ", "Block")
            .unwrap_err(),
        RuntimeWorldError::EmptyClassName
    );
    assert_eq!(
        world
            .spawn_runtime_child(RuntimeInstanceId::new(1), "Part", "Bad/Name")
            .unwrap_err(),
        RuntimeWorldError::InvalidInstanceName {
            name: "Bad/Name".to_owned()
        }
    );
}

#[test]
fn runtime_despawn_removes_subtree_and_parent_links() {
    let mut world = default_world(1);
    let parent = RuntimeInstanceId::new(2);
    let child = world
        .spawn_runtime_child(parent, "Node3D", "RuntimeParent")
        .unwrap();
    let grandchild = world
        .spawn_runtime_child(child, "Part", "RuntimeChild")
        .unwrap();

    let removed = world.despawn_runtime_subtree(child).unwrap();

    assert_eq!(removed, vec![child, grandchild]);
    assert!(world.get(child).is_none());
    assert!(world.get(grandchild).is_none());
    assert!(!world.get(parent).unwrap().children.contains(&child));
}

#[test]
fn runtime_despawn_rejects_missing_instance_and_root() {
    let mut world = default_world(1);

    assert_eq!(
        world
            .despawn_runtime_subtree(RuntimeInstanceId::new(99))
            .unwrap_err(),
        RuntimeWorldError::InvalidInstance {
            id: RuntimeInstanceId::new(99)
        }
    );
    assert_eq!(
        world
            .despawn_runtime_subtree(world.root_id().unwrap())
            .unwrap_err(),
        RuntimeWorldError::CannotDespawnRoot {
            root: RuntimeInstanceId::new(1)
        }
    );
}

#[test]
fn runtime_mutations_do_not_mutate_source_edit_scene() {
    let scene = node(
        1,
        ROOT_CLASS_NAME,
        "Game",
        vec![node(2, "Node3D", "SavedNode", Vec::new())],
    );
    let edit_child_guid = InstanceGuid::new(2);
    let mut world = RuntimeWorld::clone_from_edit_scene(RuntimeWorldId::new(1), Some(&scene)).unwrap();
    let runtime_child = world.runtime_id_for_edit_guid(edit_child_guid).unwrap();

    let spawned = world
        .spawn_runtime_child(runtime_child, "Part", "RuntimeBlock")
        .unwrap();
    assert_eq!(world.get(spawned).unwrap().edit_guid, None);
    assert_eq!(
        world.despawn_runtime_subtree(runtime_child).unwrap(),
        vec![runtime_child, spawned]
    );

    assert_eq!(
        scene,
        node(
            1,
            ROOT_CLASS_NAME,
            "Game",
            vec![node(2, "Node3D", "SavedNode", Vec::new())]
        )
    );
    assert!(world.runtime_id_for_edit_guid(edit_child_guid).is_none());
}

#[test]
fn despawn_orders_removed_ids_depth_first() {
    let mut world = default_world(1);
    let parent = RuntimeInstanceId::new(2);
    let a = world.spawn_runtime_child(parent, "Node3D", "A").unwrap();
    let b = world.spawn_runtime_child(parent, "Node3D", "B").unwrap();
    let a1 = world.spawn_runtime_child(a, "Part", "A1").unwrap();
    let b1 = world.spawn_runtime_child(b, "Part", "B1").unwrap();

    let removed = world.despawn_runtime_subtree(parent).unwrap();

    assert_eq!(removed, vec![parent, a, a1, b, b1]);
    assert_eq!(world.instances().len(), 9);
    assert!(!world.get(RuntimeInstanceId::new(1)).unwrap().children.contains(&parent));
}

#[test]
fn spawn_then_despawn_restores_instances() {
    let mut world = default_world(1);
    let before: Vec<RuntimeInstanceId> = world.instances().iter().map(|i| i.id).collect();
    let spawned = world.spawn_runtime_child(RuntimeInstanceId::new(3), "Part", "Temp").unwrap();
    assert_eq!(world.despawn_runtime_subtree(spawned).unwrap(), vec![spawned]);
    let after: Vec<RuntimeInstanceId> = world.instances().iter().map(|i| i.id).collect();
    assert_eq!(before, after);
    assert_eq!(world.get(RuntimeInstanceId::new(3)).unwrap().children, Vec::new());
}

#[test]
fn runtime_errors_render_messages() {
    assert_eq!(
        RuntimeWorldError::MissingParent {
            parent: RuntimeInstanceId::new(4)
        }
        .to_string(),
        "runtime parent instance is missing: RuntimeInstanceId(4)"
    );
    assert_eq!(
        RuntimeWorldError::CannotDespawnRoot {
            root: RuntimeInstanceId::new(1)
        }
        .to_string(),
        "runtime root instance cannot be despawned: RuntimeInstanceId(1)"
    );
    assert_eq!(RuntimeWorldId::new(5).to_string(), "RuntimeWorldId(5)");
}

fn phases(records: &[kinetik::runtime::FrameStepRecord]) -> Vec<FramePhase> {
    records.iter().map(|record| record.phase).collect()
}

#[test]
fn frame_records_without_fixed_step_follow_phase_order() {
    let mut counters = FrameCounters::new();
    let records = counters.advance(0);

    assert_eq!(counters.frame_index, 1);
    assert_eq!(counters.next_fixed_step_index, 1);
    assert_eq!(
        phases(&records),
        vec![
            FramePhase::PollPlatformInput,
            FramePhase::BeginFrameDiagnostics,
            FramePhase::ApplyQueuedStructuralChanges,
            FramePhase::VariableUpdate,
            FramePhase::FlushFrameSignals,
            FramePhase::UpdateDerivedWorldState,
            FramePhase::UpdateAnimationAndAudio,
            FramePhase::RenderSnapshot,
            FramePhase::EndFrameCleanup,
        ]
    );
    assert!(records
        .iter()
        .all(|record| record.frame_index == 1 && record.fixed_step_index.is_none()));
}

#[test]
fn frame_records_place_fixed_steps_between_variable_and_frame_flush() {
    let records = frame_step_records(1, 1, 2);
    assert_eq!(records.len(), 19);
    assert_eq!(records[3].phase, FramePhase::VariableUpdate);
    assert_eq!(records[4].phase, FramePhase::FixedUpdate);
    assert_eq!(records[8].phase, FramePhase::ApplyFixedStructuralChanges);
    assert_eq!(records[9].phase, FramePhase::FixedUpdate);
    assert_eq!(records[14].phase, FramePhase::FlushFrameSignals);
    let fixed: Vec<u64> = records.iter().filter_map(|r| r.fixed_step_index).collect();
    assert_eq!(fixed, vec![1, 1, 1, 1, 1, 2, 2, 2, 2, 2]);
}

#[test]
fn frame_counters_carry_indices_across_frames() {
    let mut counters = FrameCounters::new();
    counters.advance(0);
    counters.advance(1);
    let third = counters.advance(2);
    assert_eq!(counters.frame_index, 3);
    assert_eq!(counters.next_fixed_step_index, 4);
    let fixed: Vec<u64> = third.iter().filter_map(|r| r.fixed_step_index).collect();
    assert_eq!(fixed, vec![2, 2, 2, 2, 2, 3, 3, 3, 3, 3]);
}

#[test]
fn lib_runtime_world_clone_preserves_edit_guid_mapping() {
    check_clone_preserves_edit_guid_mapping();
}

#[test]
fn tests_runtime_world_clone_preserves_edit_guid_mapping() {
    check_clone_preserves_edit_guid_mapping();
}

#[test]
fn lib_runtime_world_clone_uses_deterministic_parent_before_child_order() {
    check_clone_uses_deterministic_parent_before_child_order();
}

#[test]
fn tests_runtime_world_clone_uses_deterministic_parent_before_child_order() {
    check_clone_uses_deterministic_parent_before_child_order();
}

#[test]
fn lib_runtime_world_clone_does_not_require_edit_instance_ids() {
    check_clone_does_not_require_edit_instance_ids();
}

#[test]
fn tests_runtime_world_clone_does_not_require_edit_instance_ids() {
    check_clone_does_not_require_edit_instance_ids();
}

#[test]
fn lib_runtime_world_clone_requires_edit_scene_root() {
    check_clone_requires_edit_scene_root();
}

#[test]
fn tests_runtime_world_clone_requires_edit_scene_root() {
    check_clone_requires_edit_scene_root();
}
