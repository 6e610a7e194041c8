//! Core primitives: typed IDs, diagnostics and the foundational error type.

pub mod diagnostics;
pub mod error;
pub mod id;

pub use diagnostics::{
    AgentRepair, Diagnostic, DiagnosticBlockingScope, DiagnosticCode, DiagnosticLocation,
    DiagnosticSeverity, DiagnosticSource, SourceRange,
};
pub use error::{KinetikError, KinetikResult};
pub use id::{BundleId, InstanceGuid, InstanceId, ResourceId, ScriptId, SignalId};
