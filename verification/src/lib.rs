//! Kinetik engine foundation contracts: diagnostics, commands, reflection,
//! project state, runtime worlds and editor session models.

use vstd::prelude::*;

pub mod command;
pub mod editor;
pub mod foundation;
pub mod physics;
pub mod project;
pub mod reflect;
pub mod runtime;
pub mod text;

verus! {

} // verus!
