//! Validated command result contracts: errors, target modes, semantic change
//! records, undo/redo history and dirty-state explanations.

use vstd::prelude::*;

pub mod asset;
pub mod change;
pub mod dirty;
pub mod error;
pub mod history;
pub mod mode;
pub mod result;
pub mod scene;
pub mod script;
pub mod target_mode;

pub use asset::{
    request_asset_reimport, update_asset_path, AssetPathCommandResult, AssetReimportCommandResult,
    REIMPORT_ASSET_COMMAND, UPDATE_ASSET_PATH_COMMAND,
};
pub use change::{ChangeTarget, CommandChangeRecord, PropertyValueChange};
pub use dirty::{DirtyChangeExplanation, DirtyDocumentExplanation, DirtyStateExplanation};
pub use error::{CommandError, CommandModelResult};
pub use history::{CommandHistory, UndoGroupId, UndoRedoRecord};
pub use mode::{CommandStatus, CommandTargetMode};
pub use result::CommandResult;
pub use scene::{rename_scene_instance_error, rename_scene_instance_result, RENAME_INSTANCE_COMMAND};
pub use script::{
    attach_instance_script, detach_instance_script, ScriptAssetRef, ScriptAttachCommandResult,
    ScriptAttachment, ScriptAttachmentDocument, ScriptAttachmentTarget, ScriptDetachCommandResult,
    ScriptLanguage, ATTACH_SCRIPT_COMMAND, DETACH_SCRIPT_COMMAND,
};
pub use target_mode::{require_specific_target_mode, require_target_mode};

verus! {

/// Returns the crate name for smoke tests and diagnostics.
pub fn crate_name() -> (s: &'static str)
    ensures
        s@ == "kinetik-command"@,
{
    "kinetik-command"
}

} // verus!
