//! Runtime provenance attached to diagnostics and chronological log records.

use vstd::prelude::*;

use crate::foundation::diagnostics::{Diagnostic, DiagnosticSource};
use crate::foundation::id::InstanceGuid;
use crate::runtime::world::{RuntimeInstanceId, RuntimeWorldId};
use crate::text::{clone_text, owned};

verus! {

/// Runtime provenance attached to diagnostics and chronological log records.
#[derive(Debug, PartialEq, Eq)]
pub struct RuntimeAttribution {
    /// Runtime world that produced the record.
    pub world_id: RuntimeWorldId,
    /// Runtime frame index when known.
    pub frame_index: Option<u64>,
    /// Fixed-step index when the record was produced inside fixed simulation.
    pub fixed_step_index: Option<u64>,
    /// Runtime subsystem that produced the record.
    pub source: DiagnosticSource,
    /// Runtime instance associated with the record when known.
    pub instance_id: Option<RuntimeInstanceId>,
    /// Saved edit GUID when the runtime instance derives from edit state.
    pub edit_guid: Option<InstanceGuid>,
    /// Script asset path associated with the record when known.
    pub script_path: Option<String>,
}

impl Clone for RuntimeAttribution {
    fn clone(&self) -> (r: Self)
        ensures
            r == *self,
    {
        RuntimeAttribution {
            world_id: self.world_id,
            frame_index: self.frame_index,
            fixed_step_index: self.fixed_step_index,
            source: self.source,
            instance_id: self.instance_id,
            edit_guid: self.edit_guid,
            script_path: clone_text(&self.script_path),
        }
    }
}

impl RuntimeAttribution {
    /// Creates runtime attribution for a world and source subsystem, with no
    /// frame, fixed step, instance or script.
    pub fn new(world_id: RuntimeWorldId, source: DiagnosticSource) -> (a: Self)
        ensures
            a.world_id == world_id,
            a.source == source,
            a.frame_index is None,
            a.fixed_step_index is None,
            a.instance_id is None,
            a.edit_guid is None,
            a.script_path is None,
    {
        RuntimeAttribution {
            world_id,
            frame_index: None,
            fixed_step_index: None,
            source,
            instance_id: None,
            edit_guid: None,
            script_path: None,
        }
    }

    /// Sets the runtime frame index.
    pub fn with_frame_index(self, frame_index: u64) -> (a: Self)
        ensures
            a == (RuntimeAttribution { frame_index: Some(frame_index), ..self }),
    {
        RuntimeAttribution { frame_index: Some(frame_index), ..self }
    }

    /// Sets the fixed-step index.
    pub fn with_fixed_step_index(self, fixed_step_index: u64) -> (a: Self)
        ensures
            a == (RuntimeAttribution { fixed_step_index: Some(fixed_step_index), ..self }),
    {
        RuntimeAttribution { fixed_step_index: Some(fixed_step_index), ..self }
    }

    /// Sets the runtime instance and optional saved edit GUID.
    pub fn with_instance(self, instance_id: RuntimeInstanceId, edit_guid: Option<InstanceGuid>) -> (a:
        Self)
        ensures
            a == (RuntimeAttribution { instance_id: Some(instance_id), edit_guid, ..self }),
    {
        RuntimeAttribution { instance_id: Some(instance_id), edit_guid, ..self }
    }

    /// Sets the script asset path associated with the record.
    pub fn with_script_path(self, script_path: &str) -> (a: Self)
        ensures
            a.script_path is Some,
            a.script_path->0@ == script_path@,
            a == (RuntimeAttribution { script_path: a.script_path, ..self }),
    {
        RuntimeAttribution { script_path: Some(owned(script_path)), ..self }
    }
}

/// Runtime diagnostic with world/frame attribution.
#[derive(Debug, PartialEq, Eq)]
pub struct RuntimeDiagnosticRecord {
    /// Runtime attribution for this diagnostic.
    pub attribution: RuntimeAttribution,
    /// Structured diagnostic payload.
    pub diagnostic: Diagnostic,
}

impl Clone for RuntimeDiagnosticRecord {
    fn clone(&self) -> (r: Self)
        ensures
            r == *self,
    {
        RuntimeDiagnosticRecord {
            attribution: self.attribution.clone(),
            diagnostic: self.diagnostic.clone(),
        }
    }
}

impl RuntimeDiagnosticRecord {
    /// Creates a runtime-attributed diagnostic record.
    pub fn new(diagnostic: Diagnostic, attribution: RuntimeAttribution) -> (r: Self)
        ensures
            r.diagnostic == diagnostic,
            r.attribution == attribution,
    {
        RuntimeDiagnosticRecord { attribution, diagnostic }
    }
}

/// Runtime chronological log severity.
#[derive(Debug, Copy, Clone, PartialEq, Eq, Structural, Hash, PartialOrd, Ord)]
pub enum RuntimeLogLevel {
    /// Detailed diagnostic information for developers.
    Debug,
    /// Informational runtime event.
    Info,
    /// Suspicious runtime event that does not immediately invalidate play.
    Warning,
    /// Runtime failure that may block play or a subsystem.
    Error,
}

/// Runtime log message with world/frame attribution.
#[derive(Debug, PartialEq, Eq)]
pub struct RuntimeLogRecord {
    /// Runtime attribution for this log record.
    pub attribution: RuntimeAttribution,
    /// Runtime log severity.
    pub level: RuntimeLogLevel,
    /// Human-readable log message.
    pub message: String,
}

impl Clone for RuntimeLogRecord {
    fn clone(&self) -> (r: Self)
        ensures
            r == *self,
    {
        RuntimeLogRecord {
            attribution: self.attribution.clone(),
            level: self.level,
            message: self.message.clone(),
        }
    }
}

impl RuntimeLogRecord {
    /// Creates a runtime-attributed log record.
    pub fn new(level: RuntimeLogLevel, attribution: RuntimeAttribution, message: &str) -> (r: Self)
        ensures
            r.level == level,
            r.attribution == attribution,
            r.message@ == message@,
    {
        RuntimeLogRecord { attribution, level, message: owned(message) }
    }
}

} // verus!
