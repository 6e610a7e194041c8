//! Runtime app loop and world orchestration contracts.

use vstd::prelude::*;

pub mod diagnostics;
pub mod frame;
pub mod world;

pub use diagnostics::{RuntimeAttribution, RuntimeDiagnosticRecord, RuntimeLogLevel, RuntimeLogRecord};
pub use frame::{FrameCounters, FramePhase, FrameStepRecord};
pub use world::{
    RuntimeInstanceId, RuntimeInstanceRecord, RuntimeWorld, RuntimeWorldError, RuntimeWorldId,
    RuntimeWorldResult, SceneError, SceneInstanceDocument,
};

verus! {

/// Returns the crate name for smoke tests and diagnostics.
pub fn crate_name() -> (s: &'static str)
    ensures
        s@ == "kinetik-app"@,
{
    "kinetik-app"
}

} // verus!
