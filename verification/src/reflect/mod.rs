//! Class-level reflection metadata and reflected values.

use vstd::prelude::*;

pub mod descriptor;
pub mod error;
pub mod value;

pub use descriptor::{
    EditorEditability, EditorHint, PlayMutability, PropertyDefault, PropertyDescriptor,
    ReflectResult, Scriptability, SerializationPolicy, ValidationRule, ValueResult,
};
pub use error::{AssetPathProblem, DescriptorError, ValueError};
pub use value::{AssetReferenceValue, PropertyType, PropertyValue};

verus! {

/// Returns the crate name for smoke tests and diagnostics.
pub fn crate_name() -> (s: &'static str)
    ensures
        s@ == "kinetik-reflect"@,
{
    "kinetik-reflect"
}

} // verus!
