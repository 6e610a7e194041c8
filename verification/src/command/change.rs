//! Semantic change records produced by successful commands.

use vstd::prelude::*;

use crate::command::error::{
    validate_command_kind, validate_dirty_summary, CommandError, CommandModelResult,
};
use crate::command::history::UndoGroupId;
use crate::command::mode::CommandTargetMode;
use crate::foundation::id::InstanceGuid;
use crate::reflect::value::PropertyValue;
use crate::text::{clone_text, is_blank, owned};

verus! {

/// Semantic command target affected by a change record.
#[derive(Debug, PartialEq, Eq)]
pub enum ChangeTarget {
    /// Scene instance target.
    Instance {
        /// Stable edit-world instance GUID when known.
        guid: Option<InstanceGuid>,
        /// Human-readable scene path when known.
        scene_path: Option<String>,
    },
    /// Reflected property target.
    Property {
        /// Stable edit-world instance GUID when known.
        instance_guid: Option<InstanceGuid>,
        /// Human-readable scene path when known.
        scene_path: Option<String>,
        /// Canonical reflected property path.
        property_path: String,
    },
    /// Source asset target.
    Asset {
        /// Stable asset GUID string when known.
        asset_guid: Option<String>,
        /// Project resource path such as `res://assets/tree.glb`.
        asset_path: String,
    },
    /// Script source target.
    Script {
        /// Workspace-relative script path.
        script_path: String,
    },
    /// Source document target.
    Document {
        /// Workspace-relative source document path.
        document_path: String,
    },
}

/// The text of optional owned text.
pub open spec fn opt_text(s: Option<String>) -> Option<Seq<char>> {
    match s {
        None => None,
        Some(t) => Some(t@),
    }
}

impl ChangeTarget {
    /// An instance target with this GUID and scene path.
    pub open spec fn is_instance(self, guid: Option<InstanceGuid>, scene_path: Option<Seq<char>>) -> bool {
        self matches ChangeTarget::Instance { guid: g, scene_path: p } && g == guid && opt_text(p)
            == scene_path
    }

    /// A property target on this instance GUID, scene path and property path.
    pub open spec fn is_property(
        self,
        guid: Option<InstanceGuid>,
        scene_path: Option<Seq<char>>,
        property_path: Seq<char>,
    ) -> bool {
        self matches ChangeTarget::Property { instance_guid: g, scene_path: p, property_path: q }
            && g == guid && opt_text(p) == scene_path && q@ == property_path
    }

    /// An asset target with this GUID text and project path.
    pub open spec fn is_asset(self, asset_guid: Option<Seq<char>>, asset_path: Seq<char>) -> bool {
        self matches ChangeTarget::Asset { asset_guid: g, asset_path: p } && opt_text(g)
            == asset_guid && p@ == asset_path
    }

    /// A script target with this script path.
    pub open spec fn is_script(self, script_path: Seq<char>) -> bool {
        self matches ChangeTarget::Script { script_path: p } && p@ == script_path
    }

    /// A document target with this document path.
    pub open spec fn is_document(self, document_path: Seq<char>) -> bool {
        self matches ChangeTarget::Document { document_path: p } && p@ == document_path
    }
}

impl Clone for ChangeTarget {
    fn clone(&self) -> (r: Self)
        ensures
            r == *self,
    {
        match self {
            ChangeTarget::Instance { guid, scene_path } => ChangeTarget::Instance {
                guid: *guid,
                scene_path: clone_text(scene_path),
            },
            ChangeTarget::Property { instance_guid, scene_path, property_path } =>
                ChangeTarget::Property {
                instance_guid: *instance_guid,
                scene_path: clone_text(scene_path),
                property_path: property_path.clone(),
            },
            ChangeTarget::Asset { asset_guid, asset_path } => ChangeTarget::Asset {
                asset_guid: clone_text(asset_guid),
                asset_path: asset_path.clone(),
            },
            ChangeTarget::Script { script_path } => ChangeTarget::Script {
                script_path: script_path.clone(),
            },
            ChangeTarget::Document { document_path } => ChangeTarget::Document {
                document_path: document_path.clone(),
            },
        }
    }
}

/// Reflected property value transition recorded by a semantic change.
#[derive(Debug, PartialEq)]
pub struct PropertyValueChange {
    /// Canonical reflected property path.
    pub property_path: String,
    /// Value before the command when known.
    pub old_value: Option<PropertyValue>,
    /// Value after the command when known.
    pub new_value: Option<PropertyValue>,
}

impl PropertyValueChange {
    /// Creates a reflected property value transition.
    pub fn new(
        property_path: &str,
        old_value: Option<PropertyValue>,
        new_value: Option<PropertyValue>,
    ) -> (c: Self)
        ensures
            c.property_path@ == property_path@,
            c.old_value == old_value,
            c.new_value == new_value,
    {
        PropertyValueChange { property_path: owned(property_path), old_value, new_value }
    }
}

fn clone_value(v: &Option<PropertyValue>) -> (r: Option<PropertyValue>)
    ensures
        r == *v,
{
    match v {
        None => None,
        Some(x) => Some(x.clone()),
    }
}

impl Clone for PropertyValueChange {
    fn clone(&self) -> (r: Self)
        ensures
            r == *self,
    {
        PropertyValueChange {
            property_path: self.property_path.clone(),
            old_value: clone_value(&self.old_value),
            new_value: clone_value(&self.new_value),
        }
    }
}

/// The content of a [`CommandChangeRecord`].
pub struct CommandChangeRecordView {
    pub command_kind: Seq<char>,
    pub target_mode: CommandTargetMode,
    pub targets: Seq<ChangeTarget>,
    pub property_value_change: Option<PropertyValueChange>,
    pub affected_documents: Seq<Seq<char>>,
    pub undo_group: Option<UndoGroupId>,
    pub dirty_summary: Seq<char>,
}

/// The text content of a list of strings.
pub open spec fn texts(v: Seq<String>) -> Seq<Seq<char>> {
    v.map_values(|s: String| s@)
}

/// Semantic change record produced by a successful command.
///
/// The command kind and the dirty-state summary are never blank.
#[derive(Debug, PartialEq)]
pub struct CommandChangeRecord {
    command_kind: String,
    target_mode: CommandTargetMode,
    targets: Vec<ChangeTarget>,
    property_value_change: Option<PropertyValueChange>,
    affected_documents: Vec<String>,
    undo_group: Option<UndoGroupId>,
    dirty_summary: String,
}

impl View for CommandChangeRecord {
    type V = CommandChangeRecordView;

    closed spec fn view(&self) -> CommandChangeRecordView {
        CommandChangeRecordView {
            command_kind: self.command_kind@,
            target_mode: self.target_mode,
            targets: self.targets@,
            property_value_change: self.property_value_change,
            affected_documents: texts(self.affected_documents@),
            undo_group: self.undo_group,
            dirty_summary: self.dirty_summary@,
        }
    }
}

impl CommandChangeRecordView {
    /// The record `CommandChangeRecord::new` builds.
    pub open spec fn is_fresh(
        self,
        command_kind: Seq<char>,
        target_mode: CommandTargetMode,
        dirty_summary: Seq<char>,
    ) -> bool {
        &&& self.command_kind == command_kind
        &&& self.target_mode == target_mode
        &&& self.targets.len() == 0
        &&& self.property_value_change is None
        &&& self.affected_documents.len() == 0
        &&& self.undo_group is None
        &&& self.dirty_summary == dirty_summary
    }

    /// An edit-mode record of `command_kind` with this dirty summary that
    /// affects exactly `document_path`, carries no property value change and
    /// has no undo group yet.
    pub open spec fn is_edit_change(
        self,
        command_kind: Seq<char>,
        dirty_summary: Seq<char>,
        document_path: Seq<char>,
    ) -> bool {
        &&& self.command_kind == command_kind
        &&& self.target_mode == CommandTargetMode::Edit
        &&& self.property_value_change is None
        &&& self.affected_documents == seq![document_path]
        &&& self.undo_group is None
        &&& self.dirty_summary == dirty_summary
    }

    /// The record with its undo group replaced.
    pub open spec fn in_group(self, group: UndoGroupId) -> CommandChangeRecordView {
        CommandChangeRecordView { undo_group: Some(group), ..self }
    }
}

impl CommandChangeRecord {
    #[verifier::type_invariant]
    spec fn well_formed(self) -> bool {
        !is_blank(self.command_kind@) && !is_blank(self.dirty_summary@)
    }

    /// Creates a semantic change record.
    pub fn new(
        command_kind: &str,
        target_mode: CommandTargetMode,
        dirty_summary: &str,
    ) -> (r: CommandModelResult<Self>)
        ensures
            is_blank(command_kind@) ==> r is Err && r->Err_0@ is EmptyCommandKind,
            !is_blank(command_kind@) && is_blank(dirty_summary@) ==> r is Err && r->Err_0@ is EmptyDirtySummary,
            !is_blank(command_kind@) && !is_blank(dirty_summary@) ==> r is Ok && r->Ok_0@.is_fresh(
                command_kind@,
                target_mode,
                dirty_summary@,
            ),
    {
        let command_kind = validate_command_kind(command_kind)?;
        let dirty_summary = validate_dirty_summary(dirty_summary)?;
        let r = CommandChangeRecord {
            command_kind,
            target_mode,
            targets: Vec::new(),
            property_value_change: None,
            affected_documents: Vec::new(),
            undo_group: None,
            dirty_summary,
        };
        assert(texts(r.affected_documents@) =~= Seq::<Seq<char>>::empty());
        Ok(r)
    }

    /// Adds affected semantic targets in deterministic order.
    pub fn with_targets(self, targets: Vec<ChangeTarget>) -> (r: Self)
        ensures
            r@ == (CommandChangeRecordView { targets: targets@, ..self@ }),
    {
        proof {
            use_type_invariant(&self);
        }
        let mut r = self;
        r.targets = targets;
        r
    }

    /// Adds a reflected property value transition.
    pub fn with_property_value_change(self, change: PropertyValueChange) -> (r: Self)
        ensures
            r@ == (CommandChangeRecordView { property_value_change: Some(change), ..self@ }),
    {
        proof {
            use_type_invariant(&self);
        }
        let mut r = self;
        r.property_value_change = Some(change);
        r
    }

    /// Adds affected source documents in deterministic order.
    pub fn with_affected_documents(self, affected_documents: Vec<String>) -> (r: Self)
        ensures
            r@ == (CommandChangeRecordView {
                affected_documents: texts(affected_documents@),
                ..self@
            }),
    {
        proof {
            use_type_invariant(&self);
        }
        let mut r = self;
        r.affected_documents = affected_documents;
        r
    }

    /// Assigns this change record to an undo group.
    pub fn with_undo_group(self, undo_group: UndoGroupId) -> (r: Self)
        ensures
            r@ == self@.in_group(undo_group),
    {
        proof {
            use_type_invariant(&self);
        }
        let mut r = self;
        r.undo_group = Some(undo_group);
        r
    }

    /// Returns the command kind that produced this record.
    pub fn command_kind(&self) -> (s: &str)
        ensures
            s@ == self@.command_kind,
            !is_blank(s@),
    {
        proof {
            use_type_invariant(self);
        }
        self.command_kind.as_str()
    }

    /// Returns the target mode for this semantic change.
    pub fn target_mode(&self) -> (m: CommandTargetMode)
        ensures
            m == self@.target_mode,
    {
        self.target_mode
    }

    /// Returns affected semantic targets in deterministic order.
    pub fn targets(&self) -> (t: &[ChangeTarget])
        ensures
            t@ == self@.targets,
    {
        self.targets.as_slice()
    }

    /// Returns the reflected property value transition when this record has one.
    pub fn property_value_change(&self) -> (c: Option<&PropertyValueChange>)
        ensures
            match self@.property_value_change {
                None => c is None,
                Some(v) => c is Some && *c->0 == v,
            },
    {
        match &self.property_value_change {
            None => None,
            Some(change) => Some(change),
        }
    }

    /// Returns affected source documents in deterministic order.
    pub fn affected_documents(&self) -> (d: &[String])
        ensures
            texts(d@) == self@.affected_documents,
    {
        self.affected_documents.as_slice()
    }

    /// Returns the undo group for this change when present.
    pub fn undo_group(&self) -> (g: Option<UndoGroupId>)
        ensures
            g == self@.undo_group,
    {
        self.undo_group
    }

    /// Returns human-readable dirty-state summary text.
    pub fn dirty_summary(&self) -> (s: &str)
        ensures
            s@ == self@.dirty_summary,
            !is_blank(s@),
    {
        proof {
            use_type_invariant(self);
        }
        self.dirty_summary.as_str()
    }
}

impl Clone for CommandChangeRecord {
    fn clone(&self) -> (r: Self)
        ensures
            r@ == self@,
    {
        proof {
            use_type_invariant(self);
        }
        let targets = self.targets.clone();
        let documents = self.affected_documents.clone();
        proof {
            assert(targets@ =~= self.targets@);
            assert(documents@ =~= self.affected_documents@);
        }
        CommandChangeRecord {
            command_kind: self.command_kind.clone(),
            target_mode: self.target_mode,
            targets,
            property_value_change: match &self.property_value_change {
                None => None,
                Some(change) => Some(change.clone()),
            },
            affected_documents: documents,
            undo_group: self.undo_group,
            dirty_summary: self.dirty_summary.clone(),
        }
    }
}

} // verus!
