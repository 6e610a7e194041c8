//! Typed non-zero identifiers.

use std::cmp::Ordering;
use vstd::prelude::*;
use vstd::std_specs::cmp::PartialOrdSpecImpl;

use crate::text::{decimal, decimal_string, join3};

verus! {

/// Runtime instance ID.
///
/// Zero is reserved as invalid for every typed ID kind.
#[derive(Debug, Copy, Clone, PartialEq, Eq, Structural, Hash, Ord)]
pub struct InstanceId {
    raw: u64,
}

impl InstanceId {
    /// The raw value of this ID.
    pub closed spec fn value(self) -> u64 {
        self.raw
    }

    #[verifier::type_invariant]
    spec fn non_zero(self) -> bool {
        self.raw != 0
    }

    /// IDs are identified by their raw value: equal raw values give equal IDs.
    pub proof fn lemma_value_injective(a: Self, b: Self)
        ensures
            a.value() == b.value() <==> a == b,
    {
    }

    /// Creates a new typed ID from a non-zero raw value.
    pub fn new(raw: u64) -> (id: Self)
        requires
            raw != 0,
        ensures
            id.value() == raw,
    {
        Self { raw }
    }

    /// Returns the raw numeric value for serialization/debugging.
    pub fn raw(self) -> (r: u64)
        ensures
            r == self.value(),
            r != 0,
    {
        proof {
            use_type_invariant(&self);
        }
        self.raw
    }

    /// Display text: the kind name and the raw value, such as `InstanceId(7)`.
    pub fn to_string(self) -> (s: String)
        ensures
            s@ == "InstanceId("@ + decimal(self.value() as nat) + ")"@,
    {
        let digits = decimal_string(self.raw);
        join3("InstanceId(", digits.as_str(), ")")
    }
}

impl PartialOrd for InstanceId {
    fn partial_cmp(&self, other: &Self) -> (r: Option<Ordering>) {
        if self.raw < other.raw {
            Some(Ordering::Less)
        } else if self.raw == other.raw {
            Some(Ordering::Equal)
        } else {
            Some(Ordering::Greater)
        }
    }
}

impl PartialOrdSpecImpl for InstanceId {
    open spec fn obeys_partial_cmp_spec() -> bool {
        true
    }

    open spec fn partial_cmp_spec(&self, other: &Self) -> Option<Ordering> {
        if self.value() < other.value() {
            Some(Ordering::Less)
        } else if self.value() == other.value() {
            Some(Ordering::Equal)
        } else {
            Some(Ordering::Greater)
        }
    }
}


/// Stable serialized instance GUID surrogate until UUID support lands.
///
/// Zero is reserved as invalid for every typed ID kind.
#[derive(Debug, Copy, Clone, PartialEq, Eq, Structural, Hash, Ord)]
pub struct InstanceGuid {
    raw: u64,
}

impl InstanceGuid {
    /// The raw value of this ID.
    pub closed spec fn value(self) -> u64 {
        self.raw
    }

    #[verifier::type_invariant]
    spec fn non_zero(self) -> bool {
        self.raw != 0
    }

    /// IDs are identified by their raw value: equal raw values give equal IDs.
    pub proof fn lemma_value_injective(a: Self, b: Self)
        ensures
            a.value() == b.value() <==> a == b,
    {
    }

    /// Creates a new typed ID from a non-zero raw value.
    pub fn new(raw: u64) -> (id: Self)
        requires
            raw != 0,
        ensures
            id.value() == raw,
    {
        Self { raw }
    }

    /// Returns the raw numeric value for serialization/debugging.
    pub fn raw(self) -> (r: u64)
        ensures
            r == self.value(),
            r != 0,
    {
        proof {
            use_type_invariant(&self);
        }
        self.raw
    }

    /// Display text: the kind name and the raw value, such as `InstanceGuid(7)`.
    pub fn to_string(self) -> (s: String)
        ensures
            s@ == "InstanceGuid("@ + decimal(self.value() as nat) + ")"@,
    {
        let digits = decimal_string(self.raw);
        join3("InstanceGuid(", digits.as_str(), ")")
    }
}

impl PartialOrd for InstanceGuid {
    fn partial_cmp(&self, other: &Self) -> (r: Option<Ordering>) {
        if self.raw < other.raw {
            Some(Ordering::Less)
        } else if self.raw == other.raw {
            Some(Ordering::Equal)
        } else {
            Some(Ordering::Greater)
        }
    }
}

impl PartialOrdSpecImpl for InstanceGuid {
    open spec fn obeys_partial_cmp_spec() -> bool {
        true
    }

    open spec fn partial_cmp_spec(&self, other: &Self) -> Option<Ordering> {
        if self.value() < other.value() {
            Some(Ordering::Less)
        } else if self.value() == other.value() {
            Some(Ordering::Equal)
        } else {
            Some(Ordering::Greater)
        }
    }
}


/// Runtime resource ID.
///
/// Zero is reserved as invalid for every typed ID kind.
#[derive(Debug, Copy, Clone, PartialEq, Eq, Structural, Hash, Ord)]
pub struct ResourceId {
    raw: u64,
}

impl ResourceId {
    /// The raw value of this ID.
    pub closed spec fn value(self) -> u64 {
        self.raw
    }

    #[verifier::type_invariant]
    spec fn non_zero(self) -> bool {
        self.raw != 0
    }

    /// IDs are identified by their raw value: equal raw values give equal IDs.
    pub proof fn lemma_value_injective(a: Self, b: Self)
        ensures
            a.value() == b.value() <==> a == b,
    {
    }

    /// Creates a new typed ID from a non-zero raw value.
    pub fn new(raw: u64) -> (id: Self)
        requires
            raw != 0,
        ensures
            id.value() == raw,
    {
        Self { raw }
    }

    /// Returns the raw numeric value for serialization/debugging.
    pub fn raw(self) -> (r: u64)
        ensures
            r == self.value(),
            r != 0,
    {
        proof {
            use_type_invariant(&self);
        }
        self.raw
    }

    /// Display text: the kind name and the raw value, such as `ResourceId(7)`.
    pub fn to_string(self) -> (s: String)
        ensures
            s@ == "ResourceId("@ + decimal(self.value() as nat) + ")"@,
    {
        let digits = decimal_string(self.raw);
        join3("ResourceId(", digits.as_str(), ")")
    }
}

impl PartialOrd for ResourceId {
    fn partial_cmp(&self, other: &Self) -> (r: Option<Ordering>) {
        if self.raw < other.raw {
            Some(Ordering::Less)
        } else if self.raw == other.raw {
            Some(Ordering::Equal)
        } else {
            Some(Ordering::Greater)
        }
    }
}

impl PartialOrdSpecImpl for ResourceId {
    open spec fn obeys_partial_cmp_spec() -> bool {
        true
    }

    open spec fn partial_cmp_spec(&self, other: &Self) -> Option<Ordering> {
        if self.value() < other.value() {
            Some(Ordering::Less)
        } else if self.value() == other.value() {
            Some(Ordering::Equal)
        } else {
            Some(Ordering::Greater)
        }
    }
}


/// Runtime signal ID.
///
/// Zero is reserved as invalid for every typed ID kind.
#[derive(Debug, Copy, Clone, PartialEq, Eq, Structural, Hash, Ord)]
pub struct SignalId {
    raw: u64,
}

impl SignalId {
    /// The raw value of this ID.
    pub closed spec fn value(self) -> u64 {
        self.raw
    }

    #[verifier::type_invariant]
    spec fn non_zero(self) -> bool {
        self.raw != 0
    }

    /// IDs are identified by their raw value: equal raw values give equal IDs.
    pub proof fn lemma_value_injective(a: Self, b: Self)
        ensures
            a.value() == b.value() <==> a == b,
    {
    }

    /// Creates a new typed ID from a non-zero raw value.
    pub fn new(raw: u64) -> (id: Self)
        requires
            raw != 0,
        ensures
            id.value() == raw,
    {
        Self { raw }
    }

    /// Returns the raw numeric value for serialization/debugging.
    pub fn raw(self) -> (r: u64)
        ensures
            r == self.value(),
            r != 0,
    {
        proof {
            use_type_invariant(&self);
        }
        self.raw
    }

    /// Display text: the kind name and the raw value, such as `SignalId(7)`.
    pub fn to_string(self) -> (s: String)
        ensures
            s@ == "SignalId("@ + decimal(self.value() as nat) + ")"@,
    {
        let digits = decimal_string(self.raw);
        join3("SignalId(", digits.as_str(), ")")
    }
}

impl PartialOrd for SignalId {
    fn partial_cmp(&self, other: &Self) -> (r: Option<Ordering>) {
        if self.raw < other.raw {
            Some(Ordering::Less)
        } else if self.raw == other.raw {
            Some(Ordering::Equal)
        } else {
            Some(Ordering::Greater)
        }
    }
}

impl PartialOrdSpecImpl for SignalId {
    open spec fn obeys_partial_cmp_spec() -> bool {
        true
    }

    open spec fn partial_cmp_spec(&self, other: &Self) -> Option<Ordering> {
        if self.value() < other.value() {
            Some(Ordering::Less)
        } else if self.value() == other.value() {
            Some(Ordering::Equal)
        } else {
            Some(Ordering::Greater)
        }
    }
}


/// Runtime script ID.
///
/// Zero is reserved as invalid for every typed ID kind.
#[derive(Debug, Copy, Clone, PartialEq, Eq, Structural, Hash, Ord)]
pub struct ScriptId {
    raw: u64,
}

impl ScriptId {
    /// The raw value of this ID.
    pub closed spec fn value(self) -> u64 {
        self.raw
    }

    #[verifier::type_invariant]
    spec fn non_zero(self) -> bool {
        self.raw != 0
    }

    /// IDs are identified by their raw value: equal raw values give equal IDs.
    pub proof fn lemma_value_injective(a: Self, b: Self)
        ensures
            a.value() == b.value() <==> a == b,
    {
    }

    /// Creates a new typed ID from a non-zero raw value.
    pub fn new(raw: u64) -> (id: Self)
        requires
            raw != 0,
        ensures
            id.value() == raw,
    {
        Self { raw }
    }

    /// Returns the raw numeric value for serialization/debugging.
    pub fn raw(self) -> (r: u64)
        ensures
            r == self.value(),
            r != 0,
    {
        proof {
            use_type_invariant(&self);
        }
        self.raw
    }

    /// Display text: the kind name and the raw value, such as `ScriptId(7)`.
    pub fn to_string(self) -> (s: String)
        ensures
            s@ == "ScriptId("@ + decimal(self.value() as nat) + ")"@,
    {
        let digits = decimal_string(self.raw);
        join3("ScriptId(", digits.as_str(), ")")
    }
}

impl PartialOrd for ScriptId {
    fn partial_cmp(&self, other: &Self) -> (r: Option<Ordering>) {
        if self.raw < other.raw {
            Some(Ordering::Less)
        } else if self.raw == other.raw {
            Some(Ordering::Equal)
        } else {
            Some(Ordering::Greater)
        }
    }
}

impl PartialOrdSpecImpl for ScriptId {
    open spec fn obeys_partial_cmp_spec() -> bool {
        true
    }

    open spec fn partial_cmp_spec(&self, other: &Self) -> Option<Ordering> {
        if self.value() < other.value() {
            Some(Ordering::Less)
        } else if self.value() == other.value() {
            Some(Ordering::Equal)
        } else {
            Some(Ordering::Greater)
        }
    }
}


/// Runtime bundle ID.
///
/// Zero is reserved as invalid for every typed ID kind.
#[derive(Debug, Copy, Clone, PartialEq, Eq, Structural, Hash, Ord)]
pub struct BundleId {
    raw: u64,
}

impl BundleId {
    /// The raw value of this ID.
    pub closed spec fn value(self) -> u64 {
        self.raw
    }

    #[verifier::type_invariant]
    spec fn non_zero(self) -> bool {
        self.raw != 0
    }

    /// IDs are identified by their raw value: equal raw values give equal IDs.
    pub proof fn lemma_value_injective(a: Self, b: Self)
        ensures
            a.value() == b.value() <==> a == b,
    {
    }

    /// Creates a new typed ID from a non-zero raw value.
    pub fn new(raw: u64) -> (id: Self)
        requires
            raw != 0,
        ensures
            id.value() == raw,
    {
        Self { raw }
    }

    /// Returns the raw numeric value for serialization/debugging.
    pub fn raw(self) -> (r: u64)
        ensures
            r == self.value(),
            r != 0,
    {
        proof {
            use_type_invariant(&self);
        }
        self.raw
    }

    /// Display text: the kind name and the raw value, such as `BundleId(7)`.
    pub fn to_string(self) -> (s: String)
        ensures
            s@ == "BundleId("@ + decimal(self.value() as nat) + ")"@,
    {
        let digits = decimal_string(self.raw);
        join3("BundleId(", digits.as_str(), ")")
    }
}

impl PartialOrd for BundleId {
    fn partial_cmp(&self, other: &Self) -> (r: Option<Ordering>) {
        if self.raw < other.raw {
            Some(Ordering::Less)
        } else if self.raw == other.raw {
            Some(Ordering::Equal)
        } else {
            Some(Ordering::Greater)
        }
    }
}

impl PartialOrdSpecImpl for BundleId {
    open spec fn obeys_partial_cmp_spec() -> bool {
        true
    }

    open spec fn partial_cmp_spec(&self, other: &Self) -> Option<Ordering> {
        if self.value() < other.value() {
            Some(Ordering::Less)
        } else if self.value() == other.value() {
            Some(Ordering::Equal)
        } else {
            Some(Ordering::Greater)
        }
    }
}


} // verus!
