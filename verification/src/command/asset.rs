//! Asset commands: reimport requests and manifest path updates.
//!
//! Both commands only describe the intended change; importers and the
//! manifest writer run elsewhere.

use vstd::prelude::*;

use crate::command::change::{texts, ChangeTarget, CommandChangeRecord, CommandChangeRecordView};
use crate::command::error::{CommandError, CommandErrorView, CommandModelResult};
use crate::command::mode::CommandTargetMode;
use crate::command::result::{single_edit_result, CommandResult};
use crate::reflect::error::{AssetPathProblem, ValueErrorView};
use crate::reflect::value::{asset_path_problem, AssetReferenceValue};
use crate::text::{blank, decimal, decimal_string, is_blank, is_white_space, join2, join4, owned};

verus! {

/// Stable command kind for an asset reimport request.
pub const REIMPORT_ASSET_COMMAND: &'static str = "ReimportAsset";

/// Stable command kind for updating an asset manifest path.
pub const UPDATE_ASSET_PATH_COMMAND: &'static str = "UpdateAssetPath";

/// Result of a successful asset reimport request command.
#[derive(Debug, PartialEq)]
pub struct AssetReimportCommandResult {
    /// Asset requested for reimport.
    pub asset: AssetReferenceValue,
    /// Command result containing semantic change records.
    pub command: CommandResult,
}

/// Result of a successful asset path update command.
#[derive(Debug, PartialEq)]
pub struct AssetPathCommandResult {
    /// Asset reference before the path update.
    pub old_asset: AssetReferenceValue,
    /// Asset reference after the path update.
    pub new_asset: AssetReferenceValue,
    /// Command result containing semantic change records.
    pub command: CommandResult,
}

/// The reason given when the affected document path is blank.
pub open spec fn empty_document_path_reason() -> Seq<char> {
    "affected document path must not be empty"@
}

/// The validation failure of `command_kind` for a blank document path.
pub open spec fn empty_document_path_error(command_kind: Seq<char>) -> CommandErrorView {
    CommandErrorView::ValidationFailed { command_kind, reason: empty_document_path_reason() }
}

/// The change target naming `asset`: its GUID in decimal and its path.
pub open spec fn is_asset_target(t: ChangeTarget, asset: AssetReferenceValue) -> bool {
    t.is_asset(Some(decimal(asset.spec_guid() as nat)), asset.spec_path())
}

/// The single change record of a reimport request for `asset`.
pub open spec fn is_reimport_change(
    c: CommandChangeRecordView,
    asset: AssetReferenceValue,
    document_path: Seq<char>,
) -> bool {
    &&& c.is_edit_change(
        REIMPORT_ASSET_COMMAND@,
        "requested reimport for "@ + asset.spec_path(),
        document_path,
    )
    &&& c.targets.len() == 2
    &&& is_asset_target(c.targets[0], asset)
    &&& c.targets[1].is_document(document_path)
}

/// The single change record of moving `old_asset` to `new_asset`.
pub open spec fn is_path_update_change(
    c: CommandChangeRecordView,
    old_asset: AssetReferenceValue,
    new_asset: AssetReferenceValue,
    document_path: Seq<char>,
) -> bool {
    &&& c.is_edit_change(
        UPDATE_ASSET_PATH_COMMAND@,
        "moved asset "@ + old_asset.spec_path() + " to "@ + new_asset.spec_path(),
        document_path,
    )
    &&& c.targets.len() == 3
    &&& is_asset_target(c.targets[0], old_asset)
    &&& is_asset_target(c.targets[1], new_asset)
    &&& c.targets[2].is_document(document_path)
}

/// The reference error for a new asset path that breaks the path rules.
pub open spec fn path_error_view(problem: AssetPathProblem, path: Seq<char>) -> ValueErrorView {
    if problem is Empty {
        ValueErrorView::EmptyAssetReferencePath
    } else {
        ValueErrorView::InvalidAssetReferencePath { path, reason: problem.reason() }
    }
}

/// The validation failure of `UpdateAssetPath` for a new path that breaks
/// the path rules.
pub open spec fn path_update_error(problem: AssetPathProblem, path: Seq<char>) -> CommandErrorView {
    CommandErrorView::ValidationFailed {
        command_kind: UPDATE_ASSET_PATH_COMMAND@,
        reason: "asset path update failed validation: "@ + path_error_view(problem, path).message(),
    }
}

/// Checks that the affected document path is not blank.
fn validate_document_path(command_kind: &str, document_path: &str) -> (r: CommandModelResult<
    String,
>)
    ensures
        is_blank(document_path@) ==> r is Err && r->Err_0@ == empty_document_path_error(
            command_kind@,
        ),
        !is_blank(document_path@) ==> r is Ok && r->Ok_0@ == document_path@,
{
    if blank(document_path) {
        return Err(
            CommandError::ValidationFailed {
                command_kind: owned(command_kind),
                reason: owned("affected document path must not be empty"),
            },
        );
    }
    Ok(owned(document_path))
}

/// The change target naming `asset`.
fn asset_target(asset: &AssetReferenceValue) -> (t: ChangeTarget)
    ensures
        is_asset_target(t, *asset),
{
    ChangeTarget::Asset {
        asset_guid: Some(decimal_string(asset.guid())),
        asset_path: owned(asset.path()),
    }
}

/// Produces a validated asset reimport command result without running importers.
///
/// Fails with a validation error of `ReimportAsset` when the affected
/// document path is blank.
pub fn request_asset_reimport(asset: AssetReferenceValue, document_path: &str) -> (r:
    CommandModelResult<AssetReimportCommandResult>)
    ensures
        is_blank(document_path@) ==> r is Err && r->Err_0@ == empty_document_path_error(
            REIMPORT_ASSET_COMMAND@,
        ),
        !is_blank(document_path@) ==> r is Ok && r->Ok_0.asset == asset
            && r->Ok_0.command@.is_single_edit_change(REIMPORT_ASSET_COMMAND@)
            && is_reimport_change(r->Ok_0.command@.changes[0], asset, document_path@),
{
    let document_path = match validate_document_path(REIMPORT_ASSET_COMMAND, document_path) {
        Ok(path) => path,
        Err(error) => return Err(error),
    };
    proof {
        reveal_strlit("ReimportAsset");
        reveal_strlit("requested reimport for ");
        assert(!is_white_space(REIMPORT_ASSET_COMMAND@[0]));
    }
    let summary = join2("requested reimport for ", asset.path());
    assert(!is_white_space(summary@[0]));
    let record = match CommandChangeRecord::new(
        REIMPORT_ASSET_COMMAND,
        CommandTargetMode::Edit,
        summary.as_str(),
    ) {
        Ok(record) => record,
        Err(error) => return Err(error),
    };
    let targets = vec![
        asset_target(&asset),
        ChangeTarget::Document { document_path: document_path.clone() },
    ];
    let documents = vec![document_path];
    assert(texts(documents@) =~= seq![documents@[0]@]);
    let change = record.with_targets(targets).with_affected_documents(documents);
    let command = match single_edit_result(REIMPORT_ASSET_COMMAND, change) {
        Ok(command) => command,
        Err(error) => return Err(error),
    };
    Ok(AssetReimportCommandResult { asset, command })
}

/// Produces a validated asset manifest path update command result.
///
/// Fails with a validation error of `UpdateAssetPath` when the affected
/// document path is blank, or else when the new path breaks the project
/// asset path rules.
pub fn update_asset_path(asset: AssetReferenceValue, new_path: &str, document_path: &str) -> (r:
    CommandModelResult<AssetPathCommandResult>)
    ensures
        is_blank(document_path@) ==> r is Err && r->Err_0@ == empty_document_path_error(
            UPDATE_ASSET_PATH_COMMAND@,
        ),
        !is_blank(document_path@) && asset_path_problem(new_path@) is Some ==> r is Err
            && r->Err_0@ == path_update_error(asset_path_problem(new_path@)->0, new_path@),
        !is_blank(document_path@) && asset_path_problem(new_path@) is None ==> r is Ok && {
            let ok = r->Ok_0;
            &&& ok.old_asset == asset
            &&& ok.new_asset.spec_guid() == asset.spec_guid()
            &&& ok.new_asset.spec_path() == new_path@
            &&& ok.command@.is_single_edit_change(UPDATE_ASSET_PATH_COMMAND@)
            &&& is_path_update_change(ok.command@.changes[0], asset, ok.new_asset, document_path@)
        },
{
    let document_path = match validate_document_path(UPDATE_ASSET_PATH_COMMAND, document_path) {
        Ok(path) => path,
        Err(error) => return Err(error),
    };
    let new_asset = match asset.with_path(new_path) {
        Ok(new_asset) => new_asset,
        Err(error) => {
            let reason = join2("asset path update failed validation: ", error.to_string().as_str());
            return Err(
                CommandError::ValidationFailed {
                    command_kind: owned(UPDATE_ASSET_PATH_COMMAND),
                    reason,
                },
            );
        },
    };
    proof {
        reveal_strlit("UpdateAssetPath");
        reveal_strlit("moved asset ");
        assert(!is_white_space(UPDATE_ASSET_PATH_COMMAND@[0]));
    }
    let summary = join4("moved asset ", asset.path(), " to ", new_asset.path());
    assert(!is_white_space(summary@[0]));
    let record = match CommandChangeRecord::new(
        UPDATE_ASSET_PATH_COMMAND,
        CommandTargetMode::Edit,
        summary.as_str(),
    ) {
        Ok(record) => record,
        Err(error) => return Err(error),
    };
    let targets = vec![
        asset_target(&asset),
        asset_target(&new_asset),
        ChangeTarget::Document { document_path: document_path.clone() },
    ];
    let documents = vec![document_path];
    assert(texts(documents@) =~= seq![documents@[0]@]);
    let change = record.with_targets(targets).with_affected_documents(documents);
    let command = match single_edit_result(UPDATE_ASSET_PATH_COMMAND, change) {
        Ok(command) => command,
        Err(error) => return Err(error),
    };
    Ok(AssetPathCommandResult { old_asset: asset, new_asset, command })
}

} // verus!
