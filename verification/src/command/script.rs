//! Script attachment commands over an in-memory attachment document.

use vstd::prelude::*;

use crate::command::change::{
    opt_text, texts, ChangeTarget, CommandChangeRecord, CommandChangeRecordView,
};
use crate::command::error::{CommandError, CommandErrorView, CommandModelResult};
use crate::command::mode::CommandTargetMode;
use crate::command::result::{single_edit_result, CommandResult};
use crate::foundation::id::{InstanceGuid, InstanceId, ResourceId, ScriptId};
use crate::reflect::value::path_scheme;
use crate::text::{
    blank, clone_text, decimal, has_prefix, is_blank, is_white_space, join2, join4, owned,
    starts_with, str_equal,
};

verus! {

/// Stable command kind for edit-mode script attachment.
pub const ATTACH_SCRIPT_COMMAND: &'static str = "AttachScript";

/// Stable command kind for edit-mode script detachment.
pub const DETACH_SCRIPT_COMMAND: &'static str = "DetachScript";

/// Script source language name, such as `luau`.
#[derive(Debug, PartialEq, Eq)]
pub struct ScriptLanguage {
    name: String,
}

impl View for ScriptLanguage {
    type V = Seq<char>;

    closed spec fn view(&self) -> Seq<char> {
        self.name@
    }
}

impl ScriptLanguage {
    /// Creates a language from its name.
    pub fn new(name: &str) -> (l: Self)
        ensures
            l@ == name@,
    {
        ScriptLanguage { name: owned(name) }
    }

    /// The Luau scripting language.
    pub fn luau() -> (l: Self)
        ensures
            l@ == "luau"@,
    {
        ScriptLanguage { name: owned("luau") }
    }

    /// Returns the language name.
    pub fn as_str(&self) -> (s: &str)
        ensures
            s@ == self@,
    {
        self.name.as_str()
    }
}

impl Clone for ScriptLanguage {
    fn clone(&self) -> (r: Self)
        ensures
            r == *self,
    {
        ScriptLanguage { name: self.name.clone() }
    }
}

/// Reference to a script source asset.
#[derive(Debug, PartialEq, Eq)]
pub struct ScriptAssetRef {
    /// Project resource path of the script, such as `res://scripts/player.luau`.
    pub path: String,
    /// Source language of the script.
    pub language: ScriptLanguage,
    /// Loaded resource when known.
    pub resource_id: Option<ResourceId>,
}

impl ScriptAssetRef {
    /// Creates a script reference with no loaded resource.
    pub fn new(path: &str, language: ScriptLanguage) -> (r: Self)
        ensures
            r.path@ == path@,
            r.language == language,
            r.resource_id is None,
    {
        ScriptAssetRef { path: owned(path), language, resource_id: None }
    }

    /// Records the loaded resource of this script.
    pub fn with_resource_id(self, resource_id: ResourceId) -> (r: Self)
        ensures
            r == (ScriptAssetRef { resource_id: Some(resource_id), ..self }),
    {
        ScriptAssetRef { resource_id: Some(resource_id), ..self }
    }
}

impl Clone for ScriptAssetRef {
    fn clone(&self) -> (r: Self)
        ensures
            r == *self,
    {
        ScriptAssetRef {
            path: self.path.clone(),
            language: self.language.clone(),
            resource_id: self.resource_id,
        }
    }
}

/// Instance a script is attached to.
#[derive(Debug, Copy, Clone, PartialEq, Eq, Structural)]
pub struct ScriptAttachmentTarget {
    /// Runtime instance ID.
    pub instance_id: InstanceId,
    /// Stable edit-world GUID when the instance has one.
    pub instance_guid: Option<InstanceGuid>,
}

impl ScriptAttachmentTarget {
    /// Targets an edit-world instance with a stable GUID.
    pub fn with_guid(instance_id: InstanceId, instance_guid: InstanceGuid) -> (t: Self)
        ensures
            t.instance_id == instance_id,
            t.instance_guid == Some(instance_guid),
    {
        ScriptAttachmentTarget { instance_id, instance_guid: Some(instance_guid) }
    }

    /// Targets a runtime-only instance.
    pub fn runtime_only(instance_id: InstanceId) -> (t: Self)
        ensures
            t.instance_id == instance_id,
            t.instance_guid is None,
    {
        ScriptAttachmentTarget { instance_id, instance_guid: None }
    }
}

/// A script bound to an instance.
#[derive(Debug, PartialEq, Eq)]
pub struct ScriptAttachment {
    /// Attachment ID.
    pub id: ScriptId,
    /// Attached script.
    pub script: ScriptAssetRef,
    /// Instance the script runs on.
    pub target: ScriptAttachmentTarget,
    /// Human-readable scene path of the instance when known.
    pub scene_path: Option<String>,
}

impl ScriptAttachment {
    /// Creates an attachment with no scene path.
    pub fn new(id: ScriptId, script: ScriptAssetRef, target: ScriptAttachmentTarget) -> (a: Self)
        ensures
            a.id == id,
            a.script == script,
            a.target == target,
            a.scene_path is None,
    {
        ScriptAttachment { id, script, target, scene_path: None }
    }

    /// Records the scene path of the target instance.
    pub fn with_scene_path(self, scene_path: &str) -> (a: Self)
        ensures
            a.id == self.id,
            a.script == self.script,
            a.target == self.target,
            opt_text(a.scene_path) == Some(scene_path@),
    {
        ScriptAttachment { scene_path: Some(owned(scene_path)), ..self }
    }
}

impl Clone for ScriptAttachment {
    fn clone(&self) -> (r: Self)
        ensures
            r == *self,
    {
        ScriptAttachment {
            id: self.id,
            script: self.script.clone(),
            target: self.target,
            scene_path: clone_text(&self.scene_path),
        }
    }
}

/// Two attachments bind the same script path to the same instance.
pub open spec fn same_binding(a: ScriptAttachment, b: ScriptAttachment) -> bool {
    a.target.instance_id == b.target.instance_id && a.script.path@ == b.script.path@
}

/// No two attachments share an ID or a binding.
pub open spec fn attachments_consistent(s: Seq<ScriptAttachment>) -> bool {
    forall|i: int, j: int|
        0 <= i < j < s.len() ==> #[trigger] s[i].id != #[trigger] s[j].id && !same_binding(
            s[i],
            s[j],
        )
}

/// Some attachment in `s` has this ID.
pub open spec fn has_id(s: Seq<ScriptAttachment>, id: ScriptId) -> bool {
    exists|i: int| 0 <= i < s.len() && #[trigger] s[i].id == id
}

/// Some attachment in `s` has the binding of `a`.
pub open spec fn has_binding(s: Seq<ScriptAttachment>, a: ScriptAttachment) -> bool {
    exists|i: int| 0 <= i < s.len() && same_binding(#[trigger] s[i], a)
}

/// `s` without the attachments that have this ID, in order.
pub open spec fn without_id(s: Seq<ScriptAttachment>, id: ScriptId) -> Seq<ScriptAttachment>
    decreases s.len(),
{
    if s.len() == 0 {
        s
    } else {
        let rest = without_id(s.drop_last(), id);
        if s.last().id == id {
            rest
        } else {
            rest.push(s.last())
        }
    }
}

/// In-memory edit-mode script attachment collection for command execution.
///
/// Attachment IDs are distinct, and no script path is bound twice to one
/// instance.
#[derive(Debug, PartialEq, Eq)]
pub struct ScriptAttachmentDocument {
    attachments: Vec<ScriptAttachment>,
}

impl View for ScriptAttachmentDocument {
    type V = Seq<ScriptAttachment>;

    closed spec fn view(&self) -> Seq<ScriptAttachment> {
        self.attachments@
    }
}

impl ScriptAttachmentDocument {
    #[verifier::type_invariant]
    spec fn consistent(self) -> bool {
        attachments_consistent(self.attachments@)
    }

    /// Creates an empty script attachment document.
    pub fn new() -> (d: Self)
        ensures
            d@ == Seq::<ScriptAttachment>::empty(),
    {
        ScriptAttachmentDocument { attachments: Vec::new() }
    }

    /// Returns script attachments in deterministic insertion order.
    pub fn attachments(&self) -> (a: &[ScriptAttachment])
        ensures
            a@ == self@,
            attachments_consistent(a@),
    {
        proof {
            use_type_invariant(self);
        }
        self.attachments.as_slice()
    }

    /// The position of the attachment with this ID, if any.
    fn position(&self, id: ScriptId) -> (r: Option<usize>)
        ensures
            r is None ==> !has_id(self@, id),
            r is Some ==> r->0 < self@.len() && self@[r->0 as int].id == id,
    {
        let mut i: usize = 0;
        while i < self.attachments.len()
            invariant
                i <= self.attachments@.len(),
                forall|j: int| 0 <= j < i ==> self.attachments@[j].id != id,
            decreases self.attachments@.len() - i,
        {
            if self.attachments[i].id == id {
                return Some(i);
            }
            i = i + 1;
        }
        None
    }

    /// Whether some attachment has the binding of `attachment`.
    fn contains_same_binding(&self, attachment: &ScriptAttachment) -> (r: bool)
        ensures
            r == has_binding(self@, *attachment),
    {
        let mut i: usize = 0;
        while i < self.attachments.len()
            invariant
                i <= self.attachments@.len(),
                forall|j: int| 0 <= j < i ==> !same_binding(self.attachments@[j], *attachment),
            decreases self.attachments@.len() - i,
        {
            let existing = &self.attachments[i];
            if existing.target.instance_id == attachment.target.instance_id && str_equal(
                existing.script.path.as_str(),
                attachment.script.path.as_str(),
            ) {
                assert(same_binding(self.attachments@[i as int], *attachment));
                return true;
            }
            i = i + 1;
        }
        false
    }
}

impl ScriptAttachmentDocument {
    /// Appends an attachment with a fresh ID and a fresh binding.
    fn push(&mut self, attachment: ScriptAttachment)
        requires
            !has_id(old(self)@, attachment.id),
            !has_binding(old(self)@, attachment),
        ensures
            final(self)@ == old(self)@.push(attachment),
    {
        proof {
            use_type_invariant(&*self);
        }
        let ghost before = self@;
        let mut attachments: Vec<ScriptAttachment> = Vec::new();
        std::mem::swap(&mut attachments, &mut self.attachments);
        attachments.push(attachment);
        proof {
            assert forall|i: int, j: int| 0 <= i < j < attachments@.len() implies
                #[trigger] attachments@[i].id != #[trigger] attachments@[j].id
                && !same_binding(attachments@[i], attachments@[j]) by {
                if j == before.len() {
                    assert(before[i] == attachments@[i]);
                    if same_binding(attachments@[i], attachments@[j]) {
                        assert(same_binding(before[i], attachment));
                    }
                }
            }
        }
        self.attachments = attachments;
    }

    /// Removes the attachment at `index`, whose ID is `id`.
    fn remove_at(&mut self, index: usize, id: ScriptId) -> (r: ScriptAttachment)
        requires
            index < old(self)@.len(),
            old(self)@[index as int].id == id,
        ensures
            r == old(self)@[index as int],
            final(self)@ == without_id(old(self)@, id),
    {
        proof {
            use_type_invariant(&*self);
            lemma_remove_unique(self@, index as int, id);
        }
        let mut attachments: Vec<ScriptAttachment> = Vec::new();
        std::mem::swap(&mut attachments, &mut self.attachments);
        let ghost before = attachments@;
        let removed = attachments.remove(index);
        proof {
            assert forall|i: int, j: int| 0 <= i < j < attachments@.len() implies
                #[trigger] attachments@[i].id != #[trigger] attachments@[j].id
                && !same_binding(attachments@[i], attachments@[j]) by {
                let bi = if i < index { i } else { i + 1 };
                let bj = if j < index { j } else { j + 1 };
                assert(attachments@[i] == before[bi]);
                assert(attachments@[j] == before[bj]);
                assert(before[bi].id != before[bj].id);
            }
        }
        self.attachments = attachments;
        removed
    }
}

/// With unique IDs, removing the attachment at the position of `id` is
/// removing every attachment with that ID.
proof fn lemma_remove_unique(s: Seq<ScriptAttachment>, i: int, id: ScriptId)
    requires
        attachments_consistent(s),
        0 <= i < s.len(),
        s[i].id == id,
    ensures
        s.remove(i) == without_id(s, id),
    decreases s.len(),
{
    if i == s.len() - 1 {
        assert forall|k: int| 0 <= k < s.drop_last().len() implies #[trigger] s.drop_last()[k].id
            != id by {
            assert(s[k].id != s[i].id);
        }
        lemma_without_absent(s.drop_last(), id);
        assert(s.remove(i) =~= s.drop_last());
    } else {
        assert(s.drop_last()[i] == s[i]);
        lemma_remove_unique(s.drop_last(), i, id);
        assert(s.last().id != s[i].id);
        assert(s.remove(i) =~= s.drop_last().remove(i).push(s.last()));
    }
}

/// Removing an ID that does not occur changes nothing.
proof fn lemma_without_absent(s: Seq<ScriptAttachment>, id: ScriptId)
    requires
        forall|k: int| 0 <= k < s.len() ==> #[trigger] s[k].id != id,
    ensures
        without_id(s, id) == s,
    decreases s.len(),
{
    if s.len() > 0 {
        lemma_without_absent(s.drop_last(), id);
        assert(s.drop_last().push(s.last()) =~= s);
    }
}

impl Default for ScriptAttachmentDocument {
    fn default() -> (d: Self)
        ensures
            d@ == Seq::<ScriptAttachment>::empty(),
    {
        Self::new()
    }
}

/// Result of a successful script attach command.
#[derive(Debug, PartialEq)]
pub struct ScriptAttachCommandResult {
    /// Attached script ID.
    pub attachment_id: ScriptId,
    /// Command result containing semantic change records.
    pub command: CommandResult,
}

/// Result of a successful script detach command.
#[derive(Debug, PartialEq)]
pub struct ScriptDetachCommandResult {
    /// Detached script attachment.
    pub attachment: ScriptAttachment,
    /// Command result containing semantic change records.
    pub command: CommandResult,
}

/// The first attachment rule `a` breaks, as the reason given, if any.
pub open spec fn attachment_problem(a: ScriptAttachment) -> Option<Seq<char>> {
    let p = a.script.path@;
    if is_blank(p) {
        Some("script path must not be empty"@)
    } else if !has_prefix(p, path_scheme()) || p == path_scheme() {
        Some("script path must be a project resource path: "@ + p)
    } else if is_blank(a.script.language@) {
        Some("script language must not be empty"@)
    } else {
        None
    }
}

/// The display text of a script ID, such as `ScriptId(7)`.
pub open spec fn script_id_text(id: ScriptId) -> Seq<char> {
    "ScriptId("@ + decimal(id.value() as nat) + ")"@
}

/// How an attachment's instance is named: its scene path, else its
/// instance ID, such as `InstanceId(10)`.
pub open spec fn target_name(a: ScriptAttachment) -> Seq<char> {
    match a.scene_path {
        Some(p) => p@,
        None => "InstanceId("@ + decimal(a.target.instance_id.value() as nat) + ")"@,
    }
}

/// The dirty summary of attaching (for `AttachScript`) or detaching `a`.
pub open spec fn attachment_summary(command_kind: Seq<char>, a: ScriptAttachment) -> Seq<char> {
    if command_kind == ATTACH_SCRIPT_COMMAND@ {
        "attached "@ + a.script.path@ + " to "@ + target_name(a)
    } else {
        "detached "@ + a.script.path@ + " from "@ + target_name(a)
    }
}

/// The change record of `command_kind` for attachment `a`: the instance, the
/// script and the document as targets.
pub open spec fn is_attachment_change(
    c: CommandChangeRecordView,
    command_kind: Seq<char>,
    a: ScriptAttachment,
    document_path: Seq<char>,
) -> bool {
    &&& c.is_edit_change(command_kind, attachment_summary(command_kind, a), document_path)
    &&& c.targets.len() == 3
    &&& c.targets[0].is_instance(a.target.instance_guid, opt_text(a.scene_path))
    &&& c.targets[1].is_script(a.script.path@)
    &&& c.targets[2].is_document(document_path)
}

/// Why attaching `a` to a document holding `s` is refused, if it is.
pub open spec fn attach_rejection(s: Seq<ScriptAttachment>, a: ScriptAttachment) -> Option<
    Seq<char>,
> {
    if attachment_problem(a) is Some {
        attachment_problem(a)
    } else if has_id(s, a.id) {
        Some("script attachment ID already exists: "@ + script_id_text(a.id))
    } else if has_binding(s, a) {
        Some("script '"@ + a.script.path@ + "' is already attached to "@ + target_name(a))
    } else {
        None
    }
}

/// Why detaching `id` from a document holding `s` is refused, if it is.
pub open spec fn detach_rejection(s: Seq<ScriptAttachment>, id: ScriptId) -> Option<Seq<char>> {
    if has_id(s, id) {
        None
    } else {
        Some("script attachment ID is not present: "@ + script_id_text(id))
    }
}

/// Checks the script path and language of an attachment.
fn validate_attachment(command_kind: &str, attachment: &ScriptAttachment) -> (r:
    CommandModelResult<()>)
    ensures
        match attachment_problem(*attachment) {
            None => r is Ok,
            Some(reason) => r is Err && r->Err_0@ == (CommandErrorView::ValidationFailed {
                command_kind: command_kind@,
                reason,
            }),
        },
{
    let path = attachment.script.path.as_str();
    if blank(path) {
        return Err(
            CommandError::ValidationFailed {
                command_kind: owned(command_kind),
                reason: owned("script path must not be empty"),
            },
        );
    }
    proof {
        reveal_strlit("res://");
        assert("res://"@ =~= path_scheme());
    }
    if !starts_with(path, "res://") || str_equal(path, "res://") {
        return Err(
            CommandError::ValidationFailed {
                command_kind: owned(command_kind),
                reason: join2("script path must be a project resource path: ", path),
            },
        );
    }
    if blank(attachment.script.language.as_str()) {
        return Err(
            CommandError::ValidationFailed {
                command_kind: owned(command_kind),
                reason: owned("script language must not be empty"),
            },
        );
    }
    Ok(())
}

/// Names the instance of an attachment: its scene path, else its instance ID.
fn attachment_target_name(attachment: &ScriptAttachment) -> (s: String)
    ensures
        s@ == target_name(*attachment),
{
    match &attachment.scene_path {
        Some(path) => path.clone(),
        None => attachment.target.instance_id.to_string(),
    }
}

/// Builds the change record of attaching or detaching `attachment`.
fn attachment_change_record(
    command_kind: &str,
    attachment: &ScriptAttachment,
    document_path: &str,
) -> (r: CommandModelResult<CommandChangeRecord>)
    ensures
        is_blank(command_kind@) ==> r is Err && r->Err_0@ is EmptyCommandKind,
        !is_blank(command_kind@) ==> r is Ok && is_attachment_change(
            r->Ok_0@,
            command_kind@,
            *attachment,
            document_path@,
        ),
{
    let name = attachment_target_name(attachment);
    let path = attachment.script.path.as_str();
    let summary = if str_equal(command_kind, ATTACH_SCRIPT_COMMAND) {
        join4("attached ", path, " to ", name.as_str())
    } else {
        join4("detached ", path, " from ", name.as_str())
    };
    proof {
        reveal_strlit("attached ");
        reveal_strlit("detached ");
        assert(!is_white_space(summary@[0]));
    }
    let record = match CommandChangeRecord::new(command_kind, CommandTargetMode::Edit, summary.as_str()) {
        Ok(record) => record,
        Err(error) => return Err(error),
    };
    let targets = vec![
        ChangeTarget::Instance {
            guid: attachment.target.instance_guid,
            scene_path: clone_text(&attachment.scene_path),
        },
        ChangeTarget::Script { script_path: owned(path) },
        ChangeTarget::Document { document_path: owned(document_path) },
    ];
    let documents = vec![owned(document_path)];
    assert(texts(documents@) =~= seq![document_path@]);
    Ok(record.with_targets(targets).with_affected_documents(documents))
}

/// Attaches a script asset to an instance through the shared command result model.
///
/// A refused attachment (see [`attach_rejection`]) leaves the document
/// unchanged; an accepted one is appended.
pub fn attach_instance_script(
    document: &mut ScriptAttachmentDocument,
    attachment: ScriptAttachment,
    document_path: &str,
) -> (r: CommandModelResult<ScriptAttachCommandResult>)
    ensures
        match attach_rejection(old(document)@, attachment) {
            Some(reason) => {
                &&& r is Err
                &&& r->Err_0@ == (CommandErrorView::ValidationFailed {
                    command_kind: ATTACH_SCRIPT_COMMAND@,
                    reason,
                })
                &&& final(document)@ == old(document)@
            },
            None => {
                &&& r is Ok
                &&& final(document)@ == old(document)@.push(attachment)
                &&& r->Ok_0.attachment_id == attachment.id
                &&& r->Ok_0.command@.is_single_edit_change(ATTACH_SCRIPT_COMMAND@)
                &&& is_attachment_change(
                    r->Ok_0.command@.changes[0],
                    ATTACH_SCRIPT_COMMAND@,
                    attachment,
                    document_path@,
                )
            },
        },
{
    match validate_attachment(ATTACH_SCRIPT_COMMAND, &attachment) {
        Ok(()) => {},
        Err(error) => return Err(error),
    }
    if document.position(attachment.id).is_some() {
        let id_text = attachment.id.to_string();
        return Err(
            CommandError::ValidationFailed {
                command_kind: owned(ATTACH_SCRIPT_COMMAND),
                reason: join2("script attachment ID already exists: ", id_text.as_str()),
            },
        );
    }
    if document.contains_same_binding(&attachment) {
        let name = attachment_target_name(&attachment);
        return Err(
            CommandError::ValidationFailed {
                command_kind: owned(ATTACH_SCRIPT_COMMAND),
                reason: join4(
                    "script '",
                    attachment.script.path.as_str(),
                    "' is already attached to ",
                    name.as_str(),
                ),
            },
        );
    }
    proof {
        reveal_strlit("AttachScript");
        assert(!is_white_space(ATTACH_SCRIPT_COMMAND@[0]));
    }
    let attachment_id = attachment.id;
    let change = match attachment_change_record(ATTACH_SCRIPT_COMMAND, &attachment, document_path) {
        Ok(change) => change,
        Err(error) => return Err(error),
    };
    let command = match single_edit_result(ATTACH_SCRIPT_COMMAND, change) {
        Ok(command) => command,
        Err(error) => return Err(error),
    };
    document.push(attachment);
    Ok(ScriptAttachCommandResult { attachment_id, command })
}

/// Detaches a script asset from an instance through the shared command result model.
///
/// Detaching an ID that no attachment has is refused and leaves the document
/// unchanged.
pub fn detach_instance_script(
    document: &mut ScriptAttachmentDocument,
    attachment_id: ScriptId,
    document_path: &str,
) -> (r: CommandModelResult<ScriptDetachCommandResult>)
    ensures
        match detach_rejection(old(document)@, attachment_id) {
            Some(reason) => {
                &&& r is Err
                &&& r->Err_0@ == (CommandErrorView::ValidationFailed {
                    command_kind: DETACH_SCRIPT_COMMAND@,
                    reason,
                })
                &&& final(document)@ == old(document)@
            },
            None => {
                &&& r is Ok
                &&& final(document)@ == without_id(old(document)@, attachment_id)
                &&& r->Ok_0.attachment.id == attachment_id
                &&& old(document)@.contains(r->Ok_0.attachment)
                &&& r->Ok_0.command@.is_single_edit_change(DETACH_SCRIPT_COMMAND@)
                &&& is_attachment_change(
                    r->Ok_0.command@.changes[0],
                    DETACH_SCRIPT_COMMAND@,
                    r->Ok_0.attachment,
                    document_path@,
                )
            },
        },
{
    let index = match document.position(attachment_id) {
        Some(index) => index,
        None => {
            let id_text = attachment_id.to_string();
            return Err(
                CommandError::ValidationFailed {
                    command_kind: owned(DETACH_SCRIPT_COMMAND),
                    reason: join2("script attachment ID is not present: ", id_text.as_str()),
                },
            );
        },
    };
    proof {
        reveal_strlit("DetachScript");
        assert(!is_white_space(DETACH_SCRIPT_COMMAND@[0]));
    }
    let ghost before = document@;
    let removed = document.remove_at(index, attachment_id);
    assert(before[index as int] == removed);
    let change = match attachment_change_record(DETACH_SCRIPT_COMMAND, &removed, document_path) {
        Ok(change) => change,
        Err(error) => return Err(error),
    };
    let command = match single_edit_result(DETACH_SCRIPT_COMMAND, change) {
        Ok(command) => command,
        Err(error) => return Err(error),
    };
    Ok(ScriptDetachCommandResult { attachment: removed, command })
}

/// A binding is an instance together with a script path. A well-formed
/// attachment with a fresh ID is accepted exactly when no existing
/// attachment binds the same script path to the same instance; in
/// particular a script already bound to other instances can still be bound
/// to a new one. When one does, the refusal names the script path.
pub proof fn lemma_attach_refuses_only_duplicate_bindings(s: Seq<ScriptAttachment>, a: ScriptAttachment)
    requires
        attachment_problem(a) is None,
        !has_id(s, a.id),
    ensures
        attach_rejection(s, a) is None <==> forall|i: int|
            0 <= i < s.len() ==> (#[trigger] s[i]).target.instance_id != a.target.instance_id
                || s[i].script.path@ != a.script.path@,
        attach_rejection(s, a) is Some ==> exists|i: int|
            0 <= i < s.len() && (#[trigger] s[i]).target.instance_id == a.target.instance_id
                && s[i].script.path@ == a.script.path@,
        attach_rejection(s, a) is Some ==> attach_rejection(s, a)->0 == "script '"@ + a.script.path@
            + "' is already attached to "@ + target_name(a),
{
    if attach_rejection(s, a) is Some {
        let i = choose|i: int| 0 <= i < s.len() && same_binding(#[trigger] s[i], a);
        assert(s[i].target.instance_id == a.target.instance_id && s[i].script.path@ == a.script.path@);
    } else {
        assert forall|i: int|
            0 <= i < s.len() implies (#[trigger] s[i]).target.instance_id != a.target.instance_id
                || s[i].script.path@ != a.script.path@ by {
            if s[i].target.instance_id == a.target.instance_id && s[i].script.path@ == a.script.path@ {
                assert(same_binding(s[i], a));
            }
        }
    }
}

/// Detaching a script right after attaching it gives back the document as it
/// was: for a document holding `s` that accepts `a`, detaching the ID of `a`
/// is accepted, the only attachment it can hand back is `a` itself, and
/// removing that ID from `s` with `a` appended leaves `s`.
pub proof fn lemma_detach_undoes_attach(s: Seq<ScriptAttachment>, a: ScriptAttachment)
    requires
        attachments_consistent(s),
        attach_rejection(s, a) is None,
    ensures
        detach_rejection(s.push(a), a.id) is None,
        forall|x: ScriptAttachment| s.push(a).contains(x) && x.id == a.id ==> x == a,
        without_id(s.push(a), a.id) == s,
{
    assert forall|x: ScriptAttachment| s.push(a).contains(x) && x.id == a.id implies x == a by {
        let k = choose|k: int| 0 <= k < s.push(a).len() && s.push(a)[k] == x;
        if k < s.len() {
            assert(s[k] == x);
            assert(has_id(s, a.id));
        }
    }
    assert(s.push(a)[s.len() as int].id == a.id);
    assert(s.push(a).drop_last() =~= s);
    assert forall|k: int| 0 <= k < s.len() implies #[trigger] s[k].id != a.id by {
        if s[k].id == a.id {
            assert(has_id(s, a.id));
        }
    }
    lemma_without_absent(s, a.id);
}

} // verus!
