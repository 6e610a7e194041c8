//! Scene instance commands: the semantic record of an edit-mode rename.
//!
//! The scene itself lives outside this library; these functions turn what
//! the scene reported around a mutation into the shared command result model.

use vstd::prelude::*;

use crate::command::change::{
    texts, ChangeTarget, CommandChangeRecord, CommandChangeRecordView, PropertyValueChange,
};
use crate::command::error::{CommandError, CommandErrorView};
use crate::command::mode::CommandTargetMode;
use crate::command::result::{single_edit_result, CommandResult};
use crate::foundation::id::InstanceGuid;
use crate::reflect::value::PropertyValue;
use crate::text::{is_white_space, join3, owned};

verus! {

/// Stable command kind for edit-mode scene instance rename.
pub const RENAME_INSTANCE_COMMAND: &'static str = "RenameInstance";

/// `v` is the text value `text`.
pub open spec fn is_text_value(v: Option<PropertyValue>, text: Seq<char>) -> bool {
    v matches Some(PropertyValue::String(s)) && s@ == text
}

/// The change record of renaming the instance `guid` from `old_name` at
/// `old_path` to `new_name` at `new_path`.
pub open spec fn is_rename_change(
    c: CommandChangeRecordView,
    guid: InstanceGuid,
    old_name: Seq<char>,
    old_path: Seq<char>,
    new_name: Seq<char>,
    new_path: Seq<char>,
    document_path: Seq<char>,
) -> bool {
    &&& c.command_kind == RENAME_INSTANCE_COMMAND@
    &&& c.target_mode == CommandTargetMode::Edit
    &&& c.dirty_summary == old_path + " renamed to "@ + new_name
    &&& c.affected_documents == seq![document_path]
    &&& c.undo_group is None
    &&& c.targets.len() == 2
    &&& c.targets[0].is_instance(Some(guid), Some(new_path))
    &&& c.targets[1].is_property(Some(guid), Some(new_path), "Name"@)
    &&& c.property_value_change matches Some(p) && p.property_path@ == "Name"@ && is_text_value(
        p.old_value,
        old_name,
    ) && is_text_value(p.new_value, new_name)
}

/// The error of a rename that the scene refused before mutating: a
/// validation failure of `RenameInstance` carrying the scene's reason.
pub fn rename_scene_instance_error(reason: &str) -> (e: CommandError)
    ensures
        e@ == (CommandErrorView::ValidationFailed {
            command_kind: RENAME_INSTANCE_COMMAND@,
            reason: reason@,
        }),
{
    CommandError::ValidationFailed { command_kind: owned(RENAME_INSTANCE_COMMAND), reason: owned(reason) }
}

/// Builds the result of renaming a scene instance from what the scene
/// reported: the instance's GUID, its name and path before the rename, the
/// new name, and its path after the rename.
pub fn rename_scene_instance_result(
    instance_guid: InstanceGuid,
    old_name: &str,
    old_path: &str,
    new_name: &str,
    new_path: &str,
    document_path: &str,
) -> (r: CommandResult)
    ensures
        r@.is_single_edit_change(RENAME_INSTANCE_COMMAND@),
        is_rename_change(
            r@.changes[0],
            instance_guid,
            old_name@,
            old_path@,
            new_name@,
            new_path@,
            document_path@,
        ),
{
    let summary = join3(old_path, " renamed to ", new_name);
    proof {
        reveal_strlit("RenameInstance");
        reveal_strlit(" renamed to ");
        assert(!is_white_space(RENAME_INSTANCE_COMMAND@[0]));
        assert(!is_white_space(summary@[old_path@.len() as int + 1]));
    }
    let record = match CommandChangeRecord::new(
        RENAME_INSTANCE_COMMAND,
        CommandTargetMode::Edit,
        summary.as_str(),
    ) {
        Ok(record) => record,
        Err(_) => vstd::pervasive::unreached(),
    };
    let targets = vec![
        ChangeTarget::Instance { guid: Some(instance_guid), scene_path: Some(owned(new_path)) },
        ChangeTarget::Property {
            instance_guid: Some(instance_guid),
            scene_path: Some(owned(new_path)),
            property_path: owned("Name"),
        },
    ];
    let value_change = PropertyValueChange::new(
        "Name",
        Some(PropertyValue::String(owned(old_name))),
        Some(PropertyValue::String(owned(new_name))),
    );
    let documents = vec![owned(document_path)];
    assert(texts(documents@) =~= seq![document_path@]);
    let change = record.with_targets(targets).with_property_value_change(
        value_change,
    ).with_affected_documents(documents);
    match single_edit_result(RENAME_INSTANCE_COMMAND, change) {
        Ok(command) => command,
        Err(_) => vstd::pervasive::unreached(),
    }
}

} // verus!
