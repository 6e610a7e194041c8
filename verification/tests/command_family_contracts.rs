use kinetik::command::{
    attach_instance_script, detach_instance_script, rename_scene_instance_error,
    rename_scene_instance_result,
    request_asset_reimport, update_asset_path, ChangeTarget, CommandError, CommandHistory,
    CommandTargetMode, DirtyStateExplanation, PropertyValueChange, ScriptAssetRef,
    ScriptAttachment, ScriptAttachmentDocument, ScriptAttachmentTarget, ScriptLanguage,
    UndoGroupId, ATTACH_SCRIPT_COMMAND, DETACH_SCRIPT_COMMAND, REIMPORT_ASSET_COMMAND,
    RENAME_INSTANCE_COMMAND, UPDATE_ASSET_PATH_COMMAND,
};
use kinetik::foundation::{InstanceGuid, InstanceId, ResourceId, ScriptId};
use kinetik::reflect::{AssetReferenceValue, PropertyValue};

fn test_asset() -> AssetReferenceValue {
    AssetReferenceValue::new(7, "res://assets/models/tree.glb").unwrap()
}

fn player_attachment() -> ScriptAttachment {
    ScriptAttachment::new(
        ScriptId::new(1),
        ScriptAssetRef::new("res://scripts/player.luau", ScriptLanguage::luau())
            .with_resource_id(ResourceId::new(3)),
        ScriptAttachmentTarget::with_guid(InstanceId::new(10), InstanceGuid::new(20)),
    )
    .with_scene_path("/Game/Workspace/Player")
}

#[test]
fn request_asset_reimport_returns_semantic_change_without_importing() {
    let asset = test_asset();

    let result = request_asset_reimport(asset.clone(), "assets.knmanifest").unwrap();

    assert_eq!(result.asset, asset);
    assert_eq!(result.command.command_kind(), REIMPORT_ASSET_COMMAND);
    assert_eq!(result.command.target_mode(), Some(CommandTargetMode::Edit));
    assert!(result.command.diagnostics().is_empty());
    assert_eq!(result.command.changes().len(), 1);

    let change = &result.command.changes()[0];
    assert_eq!(change.command_kind(), REIMPORT_ASSET_COMMAND);
    assert_eq!(change.affected_documents(), &["assets.knmanifest"]);
    assert_eq!(
        change.dirty_summary(),
        "requested reimport for res://assets/models/tree.glb"
    );
    assert_eq!(change.targets().len(), 2);
}

#[test]
fn asset_reimport_integrates_with_history_and_dirty_explanation() {
    let result = request_asset_reimport(test_asset(), "assets.knmanifest").unwrap();
    let mut history = CommandHistory::new();

    let record = history
        .commit_result("Reimport Tree", &result.command)
        .unwrap()
        .unwrap();
    let explanation = DirtyStateExplanation::from_history(&history);

    assert_eq!(record.group_id(), UndoGroupId::new(1));
    assert_eq!(explanation.documents().len(), 1);
    assert_eq!(
        explanation.documents()[0].summaries(),
        &["requested reimport for res://assets/models/tree.glb".to_owned()]
    );
}

#[test]
fn update_asset_path_returns_manifest_intent_change() {
    let old_asset = test_asset();

    let result = update_asset_path(
        old_asset.clone(),
        "res://assets/trees/oak.glb",
        "assets.knmanifest",
    )
    .unwrap();

    assert_eq!(result.old_asset, old_asset);
    assert_eq!(result.new_asset.guid(), 7);
    assert_eq!(result.new_asset.path(), "res://assets/trees/oak.glb");
    assert_eq!(result.command.command_kind(), UPDATE_ASSET_PATH_COMMAND);
    assert_eq!(result.command.target_mode(), Some(CommandTargetMode::Edit));

    let change = &result.command.changes()[0];
    assert_eq!(change.command_kind(), UPDATE_ASSET_PATH_COMMAND);
    assert_eq!(change.affected_documents(), &["assets.knmanifest"]);
    assert_eq!(
        change.dirty_summary(),
        "moved asset res://assets/models/tree.glb to res://assets/trees/oak.glb"
    );
    assert_eq!(change.targets().len(), 3);
}

#[test]
fn update_asset_path_rejects_invalid_paths() {
    let error =
        update_asset_path(test_asset(), "assets/trees/oak.glb", "assets.knmanifest").unwrap_err();

    assert_eq!(
        error.diagnostic_code(),
        CommandError::validation_failed_code()
    );
    assert!(error.to_string().contains(UPDATE_ASSET_PATH_COMMAND));
}

#[test]
fn asset_commands_reject_empty_document_paths() {
    let error = request_asset_reimport(test_asset(), " ").unwrap_err();

    assert_eq!(
        error.diagnostic_code(),
        CommandError::validation_failed_code()
    );
    assert!(error.to_string().contains(REIMPORT_ASSET_COMMAND));
}

#[test]
fn asset_targets_name_guid_and_paths() {
    let result = update_asset_path(test_asset(), "res://assets/trees/oak.glb", "assets.knmanifest")
        .unwrap();
    let change = &result.command.changes()[0];

    assert_eq!(
        change.targets(),
        &[
            ChangeTarget::Asset {
                asset_guid: Some("7".to_owned()),
                asset_path: "res://assets/models/tree.glb".to_owned(),
            },
            ChangeTarget::Asset {
                asset_guid: Some("7".to_owned()),
                asset_path: "res://assets/trees/oak.glb".to_owned(),
            },
            ChangeTarget::Document {
                document_path: "assets.knmanifest".to_owned(),
            },
        ]
    );
    assert_eq!(change.undo_group(), None);
    assert_eq!(change.property_value_change(), None);
}

#[test]
fn asset_path_update_reports_the_broken_rule_and_checks_the_document_first() {
    let error = update_asset_path(test_asset(), "assets/trees/oak.glb", "assets.knmanifest")
        .unwrap_err();
    assert_eq!(
        error,
        CommandError::ValidationFailed {
            command_kind: "UpdateAssetPath".to_owned(),
            reason: "asset path update failed validation: asset reference path is invalid: \
                     assets/trees/oak.glb (must start with res://)"
                .to_owned(),
        }
    );

    let error = update_asset_path(test_asset(), "assets/trees/oak.glb", "").unwrap_err();
    assert_eq!(
        error,
        CommandError::ValidationFailed {
            command_kind: "UpdateAssetPath".to_owned(),
            reason: "affected document path must not be empty".to_owned(),
        }
    );
}

#[test]
fn attach_instance_script_mutates_document_and_returns_semantic_change() {
    let mut document = ScriptAttachmentDocument::new();
    let attachment = player_attachment();

    let result =
        attach_instance_script(&mut document, attachment.clone(), "scenes/main.knscene").unwrap();

    assert_eq!(result.attachment_id, attachment.id);
    assert_eq!(document.attachments(), std::slice::from_ref(&attachment));
    assert_eq!(result.command.command_kind(), ATTACH_SCRIPT_COMMAND);
    assert_eq!(result.command.target_mode(), Some(CommandTargetMode::Edit));
    assert!(result.command.diagnostics().is_empty());
    assert_eq!(result.command.changes().len(), 1);

    let change = &result.command.changes()[0];
    assert_eq!(change.command_kind(), ATTACH_SCRIPT_COMMAND);
    assert_eq!(change.target_mode(), CommandTargetMode::Edit);
    assert_eq!(change.affected_documents(), &["scenes/main.knscene"]);
    assert_eq!(
        change.dirty_summary(),
        "attached res://scripts/player.luau to /Game/Workspace/Player"
    );
    assert_eq!(change.targets().len(), 3);
}

#[test]
fn attach_instance_script_integrates_with_history_and_dirty_explanation() {
    let mut document = ScriptAttachmentDocument::new();
    let result =
        attach_instance_script(&mut document, player_attachment(), "scenes/main.knscene").unwrap();
    let mut history = CommandHistory::new();

    let record = history
        .commit_result("Attach Player Script", &result.command)
        .unwrap()
        .unwrap();
    let explanation = DirtyStateExplanation::from_history(&history);

    assert_eq!(record.group_id(), UndoGroupId::new(1));
    assert_eq!(explanation.documents().len(), 1);
    assert_eq!(
        explanation.documents()[0].summaries(),
        &["attached res://scripts/player.luau to /Game/Workspace/Player".to_owned()]
    );
    assert_eq!(explanation.changes()[0].undo_group(), UndoGroupId::new(1));
}

#[test]
fn attach_instance_script_rejects_duplicate_binding_without_mutation() {
    let mut document = ScriptAttachmentDocument::new();
    let first = player_attachment();
    attach_instance_script(&mut document, first, "scenes/main.knscene").unwrap();
    let duplicate = ScriptAttachment::new(
        ScriptId::new(99),
        ScriptAssetRef::new("res://scripts/player.luau", ScriptLanguage::luau()),
        ScriptAttachmentTarget::with_guid(InstanceId::new(10), InstanceGuid::new(20)),
    )
    .with_scene_path("/Game/Workspace/Player");

    let error =
        attach_instance_script(&mut document, duplicate, "scenes/main.knscene").unwrap_err();

    assert_eq!(
        error.diagnostic_code(),
        CommandError::validation_failed_code()
    );
    assert!(error.to_string().contains(ATTACH_SCRIPT_COMMAND));
    assert_eq!(document.attachments().len(), 1);
}

#[test]
fn attach_instance_script_rejects_invalid_script_path_without_mutation() {
    let mut document = ScriptAttachmentDocument::new();
    let invalid = ScriptAttachment::new(
        ScriptId::new(1),
        ScriptAssetRef::new("scripts/player.luau", ScriptLanguage::luau()),
        ScriptAttachmentTarget::runtime_only(InstanceId::new(10)),
    );

    let error = attach_instance_script(&mut document, invalid, "scenes/main.knscene").unwrap_err();

    assert_eq!(
        error.diagnostic_code(),
        CommandError::validation_failed_code()
    );
    assert!(document.attachments().is_empty());
}

#[test]
fn detach_instance_script_mutates_document_and_returns_semantic_change() {
    let mut document = ScriptAttachmentDocument::new();
    let attachment = player_attachment();
    attach_instance_script(&mut document, attachment.clone(), "scenes/main.knscene").unwrap();

    let result =
        detach_instance_script(&mut document, attachment.id, "scenes/main.knscene").unwrap();

    assert_eq!(result.attachment, attachment);
    assert!(document.attachments().is_empty());
    assert_eq!(result.command.command_kind(), DETACH_SCRIPT_COMMAND);
    assert_eq!(result.command.target_mode(), Some(CommandTargetMode::Edit));

    let change = &result.command.changes()[0];
    assert_eq!(change.command_kind(), DETACH_SCRIPT_COMMAND);
    assert_eq!(
        change.dirty_summary(),
        "detached res://scripts/player.luau from /Game/Workspace/Player"
    );
    assert_eq!(change.targets().len(), 3);
}

#[test]
fn detach_instance_script_rejects_missing_attachment_without_mutation() {
    let mut document = ScriptAttachmentDocument::new();
    let attachment = player_attachment();
    attach_instance_script(&mut document, attachment.clone(), "scenes/main.knscene").unwrap();

    let error = detach_instance_script(&mut document, ScriptId::new(99), "scenes/main.knscene")
        .unwrap_err();

    assert_eq!(
        error.diagnostic_code(),
        CommandError::validation_failed_code()
    );
    assert!(error.to_string().contains(DETACH_SCRIPT_COMMAND));
    assert_eq!(document.attachments(), &[attachment]);
}

#[test]
fn script_rejections_give_their_reasons() {
    let mut document = ScriptAttachmentDocument::new();
    attach_instance_script(&mut document, player_attachment(), "scenes/main.knscene").unwrap();

    let same_id = ScriptAttachment::new(
        ScriptId::new(1),
        ScriptAssetRef::new("res://scripts/enemy.luau", ScriptLanguage::luau()),
        ScriptAttachmentTarget::runtime_only(InstanceId::new(11)),
    );
    assert_eq!(
        attach_instance_script(&mut document, same_id, "scenes/main.knscene").unwrap_err(),
        CommandError::ValidationFailed {
            command_kind: "AttachScript".to_owned(),
            reason: "script attachment ID already exists: ScriptId(1)".to_owned(),
        }
    );

    let same_binding = ScriptAttachment::new(
        ScriptId::new(2),
        ScriptAssetRef::new("res://scripts/player.luau", ScriptLanguage::luau()),
        ScriptAttachmentTarget::runtime_only(InstanceId::new(10)),
    );
    assert_eq!(
        attach_instance_script(&mut document, same_binding, "scenes/main.knscene").unwrap_err(),
        CommandError::ValidationFailed {
            command_kind: "AttachScript".to_owned(),
            reason: "script 'res://scripts/player.luau' is already attached to InstanceId(10)"
                .to_owned(),
        }
    );

    let bare_scheme = ScriptAttachment::new(
        ScriptId::new(3),
        ScriptAssetRef::new("res://", ScriptLanguage::luau()),
        ScriptAttachmentTarget::runtime_only(InstanceId::new(12)),
    );
    assert_eq!(
        attach_instance_script(&mut document, bare_scheme, "scenes/main.knscene").unwrap_err(),
        CommandError::ValidationFailed {
            command_kind: "AttachScript".to_owned(),
            reason: "script path must be a project resource path: res://".to_owned(),
        }
    );

    let blank_path = ScriptAttachment::new(
        ScriptId::new(4),
        ScriptAssetRef::new("  ", ScriptLanguage::luau()),
        ScriptAttachmentTarget::runtime_only(InstanceId::new(12)),
    );
    assert_eq!(
        attach_instance_script(&mut document, blank_path, "scenes/main.knscene").unwrap_err(),
        CommandError::ValidationFailed {
            command_kind: "AttachScript".to_owned(),
            reason: "script path must not be empty".to_owned(),
        }
    );

    let no_language = ScriptAttachment::new(
        ScriptId::new(5),
        ScriptAssetRef::new("res://scripts/tool.luau", ScriptLanguage::new(" ")),
        ScriptAttachmentTarget::runtime_only(InstanceId::new(12)),
    );
    assert_eq!(
        attach_instance_script(&mut document, no_language, "scenes/main.knscene").unwrap_err(),
        CommandError::ValidationFailed {
            command_kind: "AttachScript".to_owned(),
            reason: "script language must not be empty".to_owned(),
        }
    );

    assert_eq!(
        detach_instance_script(&mut document, ScriptId::new(99), "scenes/main.knscene")
            .unwrap_err(),
        CommandError::ValidationFailed {
            command_kind: "DetachScript".to_owned(),
            reason: "script attachment ID is not present: ScriptId(99)".to_owned(),
        }
    );
    assert_eq!(document.attachments(), &[player_attachment()]);
}

#[test]
fn detaching_right_after_attaching_restores_the_document() {
    let mut document = ScriptAttachmentDocument::new();
    attach_instance_script(&mut document, player_attachment(), "scenes/main.knscene").unwrap();
    let before = document.attachments().to_vec();
    let runtime = ScriptAttachment::new(
        ScriptId::new(2),
        ScriptAssetRef::new("res://scripts/spin.luau", ScriptLanguage::luau()),
        ScriptAttachmentTarget::runtime_only(InstanceId::new(10)),
    );

    let attached = attach_instance_script(&mut document, runtime, "scenes/main.knscene").unwrap();
    let change = &attached.command.changes()[0];
    assert_eq!(
        change.dirty_summary(),
        "attached res://scripts/spin.luau to InstanceId(10)"
    );
    assert_eq!(
        change.targets()[0],
        ChangeTarget::Instance {
            guid: None,
            scene_path: None,
        }
    );

    detach_instance_script(&mut document, attached.attachment_id, "scenes/main.knscene").unwrap();
    assert_eq!(document.attachments(), before.as_slice());
}

#[test]
fn rename_result_records_targets_value_change_and_summary() {
    let result = rename_scene_instance_result(
        InstanceGuid::new(5),
        "Workspace",
        "/Game/Workspace",
        "World",
        "/Game/World",
        "scenes/main.knscene",
    );

    assert!(result.is_success());
    assert_eq!(result.command_kind(), RENAME_INSTANCE_COMMAND);
    assert_eq!(result.target_mode(), Some(CommandTargetMode::Edit));
    assert!(result.diagnostics().is_empty());
    assert_eq!(result.changes().len(), 1);

    let change = &result.changes()[0];
    assert_eq!(change.command_kind(), RENAME_INSTANCE_COMMAND);
    assert_eq!(change.affected_documents(), &["scenes/main.knscene"]);
    assert_eq!(change.dirty_summary(), "/Game/Workspace renamed to World");
    assert_eq!(
        change.property_value_change(),
        Some(&PropertyValueChange::new(
            "Name",
            Some(PropertyValue::String("Workspace".to_owned())),
            Some(PropertyValue::String("World".to_owned())),
        ))
    );
    assert_eq!(
        change.targets(),
        &[
            ChangeTarget::Instance {
                guid: Some(InstanceGuid::new(5)),
                scene_path: Some("/Game/World".to_owned()),
            },
            ChangeTarget::Property {
                instance_guid: Some(InstanceGuid::new(5)),
                scene_path: Some("/Game/World".to_owned()),
                property_path: "Name".to_owned(),
            },
        ]
    );
}

#[test]
fn refused_rename_reports_a_rename_validation_failure() {
    let error = rename_scene_instance_error("instance name must not contain '/': Bad/Name");

    assert_eq!(
        error.diagnostic_code(),
        CommandError::validation_failed_code()
    );
    assert!(error.to_string().contains(RENAME_INSTANCE_COMMAND));
    assert_eq!(
        error,
        CommandError::ValidationFailed {
            command_kind: "RenameInstance".to_owned(),
            reason: "instance name must not contain '/': Bad/Name".to_owned(),
        }
    );
}
