//! Physics and interaction foundation contracts: gameplay input actions.

use vstd::prelude::*;

pub mod input;

pub use input::{InputAction, InputFrame, MouseCapturePolicy};

verus! {

/// Returns the crate name for smoke tests and early integration checks.
pub fn crate_name() -> (s: &'static str)
    ensures
        s@ == "kinetik-physics"@,
{
    "kinetik-physics"
}

} // verus!
