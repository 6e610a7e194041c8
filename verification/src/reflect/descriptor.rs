//! Class-level property descriptors and their validation.

use vstd::prelude::*;

use crate::reflect::error::{DescriptorError, DescriptorErrorView, ValueError, ValueErrorView};
use crate::reflect::value::{PropertyType, PropertyValue};
use crate::text::{blank, is_alnum_ascii_char, is_ascii_alnum, is_ascii_upper, is_blank, is_upper_ascii_char, owned, split_on};

verus! {

/// Result type for reflection descriptor operations.
pub type ReflectResult<T> = Result<T, DescriptorError>;

/// Result type for reflection value operations.
pub type ValueResult<T> = Result<T, ValueError>;

/// Descriptor-level default value policy.
#[derive(Debug, PartialEq)]
pub enum PropertyDefault {
    /// Use the reflected type's neutral default.
    TypeDefault,
    /// Preserve an explicit literal for future parsing by the value container.
    Literal(String),
    /// An explicit default value, which must match the descriptor type.
    Value(PropertyValue),
}

impl Default for PropertyDefault {
    fn default() -> (d: Self)
        ensures
            d is TypeDefault,
    {
        PropertyDefault::TypeDefault
    }
}

/// Inspector and automation presentation hint.
///
/// Numeric bounds are IEEE-754 binary32 bit patterns (`f32::to_bits`).
#[derive(Debug, PartialEq)]
pub enum EditorHint {
    /// Free-form numeric input.
    FreeNumber,
    /// Numeric slider.
    Slider {
        /// Inclusive minimum.
        min: u32,
        /// Inclusive maximum.
        max: u32,
    },
    /// Angle input.
    Angle,
    /// Color picker.
    ColorPicker,
    /// Asset picker.
    AssetPicker,
    /// Instance reference picker.
    InstanceReferencePicker,
    /// Enum or dropdown.
    Enum {
        /// Allowed option labels.
        options: Vec<String>,
    },
    /// Checkbox input.
    Checkbox,
    /// Advanced or collapsed display.
    Advanced,
    /// Runtime-only display.
    RuntimeOnly,
}

/// Validation rule scaffold consumed by future property value validation.
///
/// Numeric bounds are IEEE-754 binary32 bit patterns (`f32::to_bits`).
#[derive(Debug, PartialEq)]
pub enum ValidationRule {
    /// Value is required.
    Required,
    /// String value must not be empty.
    NonEmpty,
    /// Numeric value must be at least `min`.
    MinF32 {
        /// Inclusive minimum.
        min: u32,
    },
    /// Numeric value must be at most `max`.
    MaxF32 {
        /// Inclusive maximum.
        max: u32,
    },
    /// Numeric value must fall inside an inclusive range.
    RangeF32 {
        /// Inclusive minimum.
        min: u32,
        /// Inclusive maximum.
        max: u32,
    },
    /// String value must match one of the allowed values.
    AllowedValues {
        /// Allowed string values.
        values: Vec<String>,
    },
}

/// Whether a reflected property is part of persisted scene or prefab data.
#[derive(Debug, Copy, Clone, PartialEq, Eq, Structural, Hash, PartialOrd, Ord)]
pub enum SerializationPolicy {
    /// Property is serialized.
    Serialized,
    /// Property is runtime-only and not serialized.
    NotSerialized,
}

/// Whether a reflected property can be edited by editor tooling.
#[derive(Debug, Copy, Clone, PartialEq, Eq, Structural, Hash, PartialOrd, Ord)]
pub enum EditorEditability {
    /// Property is editor-editable.
    Editable,
    /// Property is read-only in editor tooling.
    ReadOnly,
}

/// Whether a reflected property is exposed to scripts.
#[derive(Debug, Copy, Clone, PartialEq, Eq, Structural, Hash, PartialOrd, Ord)]
pub enum Scriptability {
    /// Property is visible to scripts.
    Scriptable,
    /// Property is not visible to scripts.
    NotScriptable,
}

/// Whether a reflected property may be mutated during play mode.
#[derive(Debug, Copy, Clone, PartialEq, Eq, Structural, Hash, PartialOrd, Ord)]
pub enum PlayMutability {
    /// Property may mutate during play mode.
    Mutable,
    /// Property is read-only during play mode.
    ReadOnly,
}

/// One `.`-separated component of a canonical path: an ASCII uppercase
/// letter followed by ASCII letters and digits.
pub open spec fn is_pascal_case_component(c: Seq<char>) -> bool {
    &&& c.len() > 0
    &&& is_ascii_upper(c[0])
    &&& forall|i: int| 1 <= i < c.len() ==> #[trigger] is_ascii_alnum(c[i])
}

/// A canonical property path: non-empty, and every `.`-separated component
/// is `PascalCase`.
pub open spec fn is_canonical_path(p: Seq<char>) -> bool {
    &&& p.len() > 0
    &&& forall|k: int|
        0 <= k < split_on(p, '.').len() ==> #[trigger] is_pascal_case_component(
            split_on(p, '.')[k],
        )
}

/// A component read so far: empty, or a valid start of a component.
spec fn is_pascal_prefix(c: Seq<char>) -> bool {
    c.len() > 0 ==> is_pascal_case_component(c)
}

/// The error, if any, of the canonical path rule.
pub open spec fn path_problem(path: Seq<char>) -> Option<DescriptorErrorView> {
    if path.len() == 0 {
        Some(DescriptorErrorView::EmptyPath)
    } else if !is_canonical_path(path) {
        Some(DescriptorErrorView::InvalidPath { path })
    } else {
        None
    }
}

proof fn lemma_split_step(s: Seq<char>, i: int, sep: char)
    requires
        0 <= i < s.len(),
    ensures
        split_on(s.take(i + 1), sep) == (if s[i] == sep {
            split_on(s.take(i), sep).push(Seq::<char>::empty())
        } else {
            split_on(s.take(i), sep).update(
                split_on(s.take(i), sep).len() - 1,
                split_on(s.take(i), sep).last().push(s[i]),
            )
        }),
{
    assert(s.take(i + 1).drop_last() =~= s.take(i));
}

/// Whether `path` is a canonical `PascalCase` dot-separated property path.
pub fn canonical_path(path: &str) -> (r: bool)
    ensures
        r == is_canonical_path(path@),
{
    let n = path.unicode_len();
    let mut ok = true;
    let mut current_len: usize = 0;
    let mut i: usize = 0;
    while i < n
        invariant
            n == path@.len(),
            i <= n,
            current_len <= i,
            split_on(path@.take(i as int), '.').len() >= 1,
            split_on(path@.take(i as int), '.').last().len() == current_len,
            ok == ((forall|k: int|
                0 <= k < split_on(path@.take(i as int), '.').len() - 1
                    ==> #[trigger] is_pascal_case_component(
                    split_on(path@.take(i as int), '.')[k],
                )) && is_pascal_prefix(split_on(path@.take(i as int), '.').last())),
        decreases n - i,
    {
        let c = path.get_char(i);
        let ghost segs = split_on(path@.take(i as int), '.');
        proof {
            lemma_split_step(path@, i as int, '.');
        }
        let ghost next = split_on(path@.take(i + 1), '.');
        let ghost done_ok = forall|k: int|
            0 <= k < segs.len() - 1 ==> #[trigger] is_pascal_case_component(segs[k]);
        let ghost last = segs.last();
        if c == '.' {
            ok = ok && current_len > 0;
            current_len = 0;
            proof {
                assert(next.len() == segs.len() + 1);
                assert forall|k: int| 0 <= k < next.len() - 1 implies next[k] == segs[k] by {}
                assert(next.last().len() == 0);
                let next_ok = forall|k: int|
                    0 <= k < next.len() - 1 ==> #[trigger] is_pascal_case_component(next[k]);
                if ok {
                    assert forall|k: int| 0 <= k < next.len() - 1 implies #[trigger]
                        is_pascal_case_component(next[k]) by {
                        if k < segs.len() - 1 {
                        } else {
                            assert(next[k] == segs.last());
                        }
                    }
                }
                if next_ok {
                    assert forall|k: int| 0 <= k < segs.len() - 1 implies #[trigger]
                        is_pascal_case_component(segs[k]) by {
                        assert(is_pascal_case_component(next[k]));
                    }
                    assert(is_pascal_case_component(next[segs.len() - 1]));
                }
            }
        } else {
            let good = if current_len == 0 {
                is_upper_ascii_char(c)
            } else {
                is_alnum_ascii_char(c)
            };
            proof {
                let nl = last.push(c);
                assert(next.len() == segs.len());
                assert(next.last() == nl);
                assert forall|k: int| 0 <= k < next.len() - 1 implies next[k] == segs[k] by {}
                if is_pascal_prefix(last) && good {
                    assert forall|j: int| 1 <= j < nl.len() implies #[trigger] is_ascii_alnum(
                        nl[j],
                    ) by {
                        if j < last.len() {
                            assert(nl[j] == last[j]);
                        }
                    }
                    assert(is_pascal_prefix(nl));
                }
                if is_pascal_prefix(nl) {
                    assert(nl[last.len() as int] == c);
                    if last.len() > 0 {
                        assert(nl[0] == last[0]);
                        assert forall|j: int| 1 <= j < last.len() implies #[trigger]
                            is_ascii_alnum(last[j]) by {
                            assert(nl[j] == last[j]);
                        }
                        assert(is_ascii_alnum(nl[last.len() as int]));
                    }
                    assert(good);
                    assert(is_pascal_prefix(last));
                }
                let next_ok = forall|k: int|
                    0 <= k < next.len() - 1 ==> #[trigger] is_pascal_case_component(next[k]);
                assert(next_ok == done_ok);
            }
            ok = ok && good;
            current_len = current_len + 1;
        }
        i = i + 1;
    }
    assert(path@.take(n as int) =~= path@);
    let r = n > 0 && ok && current_len > 0;
    proof {
        let segs = split_on(path@, '.');
        if r {
            assert forall|k: int| 0 <= k < segs.len() implies #[trigger] is_pascal_case_component(
                segs[k],
            ) by {
                if k < segs.len() - 1 {
                } else {
                    assert(segs[k] == segs.last());
                }
            }
        }
        if is_canonical_path(path@) {
            assert(is_pascal_case_component(segs[segs.len() - 1]));
            assert(segs[segs.len() - 1] == segs.last());
        }
    }
    r
}

/// Class-level property descriptor shared by runtime, editor, scripting, and automation.
#[derive(Debug, PartialEq)]
pub struct PropertyDescriptor {
    /// Canonical `PascalCase` property path.
    pub path: String,
    /// Human-readable display name.
    pub display_name: String,
    /// Reflected value type.
    pub value_type: PropertyType,
    /// Descriptor-level default value policy.
    pub default_value: PropertyDefault,
    /// Stable serialization key.
    pub serialization_key: String,
    /// Serialization behavior.
    pub serialization: SerializationPolicy,
    /// Editor editability behavior.
    pub editor_editability: EditorEditability,
    /// Script exposure behavior.
    pub scriptability: Scriptability,
    /// Play-mode mutability behavior.
    pub play_mutability: PlayMutability,
    /// Reason shown when the property is read-only in editor tooling.
    pub read_only_reason: Option<String>,
    /// Inspector and automation presentation hint.
    pub editor_hint: EditorHint,
    /// Validation rules for future value checking.
    pub validation_rules: Vec<ValidationRule>,
    /// Documentation or help text.
    pub documentation: String,
}

impl PropertyDescriptor {
    /// The first descriptor invariant this descriptor breaks, in checking
    /// order: path, display name, serialization key, explicit default type,
    /// read-only reason.
    pub open spec fn problem(self) -> Option<DescriptorErrorView> {
        let path = self.path@;
        if path_problem(path) is Some {
            path_problem(path)
        } else if is_blank(self.display_name@) {
            Some(DescriptorErrorView::EmptyDisplayName { path })
        } else if is_blank(self.serialization_key@) {
            Some(DescriptorErrorView::EmptySerializationKey { path })
        } else if self.default_value matches PropertyDefault::Value(v) && v.spec_type()
            != self.value_type {
            Some(
                DescriptorErrorView::DefaultTypeMismatch {
                    path,
                    expected: self.value_type,
                    actual: self.default_value->Value_0.spec_type(),
                },
            )
        } else if self.editor_editability == EditorEditability::ReadOnly && match self.read_only_reason {
            None => true,
            Some(reason) => is_blank(reason@),
        } {
            Some(DescriptorErrorView::MissingReadOnlyReason { path })
        } else {
            None
        }
    }

    /// The descriptor `new` builds: the given path, display name and type,
    /// the path as serialization key, and the conservative defaults.
    pub open spec fn is_fresh(self, path: Seq<char>, display_name: Seq<char>, value_type: PropertyType) -> bool {
        &&& self.path@ == path
        &&& self.display_name@ == display_name
        &&& self.value_type == value_type
        &&& self.default_value is TypeDefault
        &&& self.serialization_key@ == path
        &&& self.serialization == SerializationPolicy::Serialized
        &&& self.editor_editability == EditorEditability::Editable
        &&& self.scriptability == Scriptability::Scriptable
        &&& self.play_mutability == PlayMutability::Mutable
        &&& self.read_only_reason is None
        &&& self.editor_hint is Advanced
        &&& self.validation_rules@.len() == 0
        &&& self.documentation@.len() == 0
    }

    /// Creates a descriptor with conservative defaults and validates required fields.
    pub fn new(path: &str, display_name: &str, value_type: PropertyType) -> (r: ReflectResult<Self>)
        ensures
            match path_problem(path@) {
                Some(e) => r is Err && r->Err_0@ == e,
                None => if is_blank(display_name@) {
                    r is Err && r->Err_0@ == (DescriptorErrorView::EmptyDisplayName {
                        path: path@,
                    })
                } else {
                    r is Ok && r->Ok_0.is_fresh(path@, display_name@, value_type)
                },
            },
    {
        validate_path(path)?;
        validate_display_name(path, display_name)?;
        Ok(PropertyDescriptor {
            path: owned(path),
            display_name: owned(display_name),
            value_type,
            default_value: PropertyDefault::TypeDefault,
            serialization_key: owned(path),
            serialization: SerializationPolicy::Serialized,
            editor_editability: EditorEditability::Editable,
            scriptability: Scriptability::Scriptable,
            play_mutability: PlayMutability::Mutable,
            read_only_reason: None,
            editor_hint: EditorHint::Advanced,
            validation_rules: Vec::new(),
            documentation: String::new(),
        })
    }

    /// Sets the descriptor-level default value policy.
    pub fn with_default_value(self, default_value: PropertyDefault) -> (d: Self)
        ensures
            d == (PropertyDescriptor { default_value, ..self }),
    {
        let mut d = self;
        d.default_value = default_value;
        d
    }

    /// Sets the stable serialization key.
    pub fn with_serialization_key(self, serialization_key: &str) -> (d: Self)
        ensures
            d.serialization_key@ == serialization_key@,
            d == (PropertyDescriptor { serialization_key: d.serialization_key, ..self }),
    {
        let mut d = self;
        d.serialization_key = owned(serialization_key);
        d
    }

    /// Sets whether this property is serialized.
    pub fn with_serialized(self, serialized: bool) -> (d: Self)
        ensures
            d == (PropertyDescriptor {
                serialization: if serialized {
                    SerializationPolicy::Serialized
                } else {
                    SerializationPolicy::NotSerialized
                },
                ..self
            }),
    {
        let mut d = self;
        d.serialization = if serialized {
            SerializationPolicy::Serialized
        } else {
            SerializationPolicy::NotSerialized
        };
        d
    }

    /// Sets whether this property is editor-editable.
    pub fn with_editor_editable(self, editor_editable: bool) -> (d: Self)
        ensures
            d == (PropertyDescriptor {
                editor_editability: if editor_editable {
                    EditorEditability::Editable
                } else {
                    EditorEditability::ReadOnly
                },
                ..self
            }),
    {
        let mut d = self;
        d.editor_editability = if editor_editable {
            EditorEditability::Editable
        } else {
            EditorEditability::ReadOnly
        };
        d
    }

    /// Sets whether this property is scriptable.
    pub fn with_scriptable(self, scriptable: bool) -> (d: Self)
        ensures
            d == (PropertyDescriptor {
                scriptability: if scriptable {
                    Scriptability::Scriptable
                } else {
                    Scriptability::NotScriptable
                },
                ..self
            }),
    {
        let mut d = self;
        d.scriptability = if scriptable {
            Scriptability::Scriptable
        } else {
            Scriptability::NotScriptable
        };
        d
    }

    /// Sets whether this property may mutate during play mode.
    pub fn with_mutable_during_play(self, mutable_during_play: bool) -> (d: Self)
        ensures
            d == (PropertyDescriptor {
                play_mutability: if mutable_during_play {
                    PlayMutability::Mutable
                } else {
                    PlayMutability::ReadOnly
                },
                ..self
            }),
    {
        let mut d = self;
        d.play_mutability = if mutable_during_play {
            PlayMutability::Mutable
        } else {
            PlayMutability::ReadOnly
        };
        d
    }

    /// Sets the read-only reason.
    pub fn with_read_only_reason(self, read_only_reason: &str) -> (d: Self)
        ensures
            d.read_only_reason is Some,
            d.read_only_reason->0@ == read_only_reason@,
            d == (PropertyDescriptor { read_only_reason: d.read_only_reason, ..self }),
    {
        let mut d = self;
        d.read_only_reason = Some(owned(read_only_reason));
        d
    }

    /// Sets the editor hint.
    pub fn with_editor_hint(self, editor_hint: EditorHint) -> (d: Self)
        ensures
            d == (PropertyDescriptor { editor_hint, ..self }),
    {
        let mut d = self;
        d.editor_hint = editor_hint;
        d
    }

    /// Sets validation rules.
    pub fn with_validation_rules(self, validation_rules: Vec<ValidationRule>) -> (d: Self)
        ensures
            d == (PropertyDescriptor { validation_rules, ..self }),
    {
        let mut d = self;
        d.validation_rules = validation_rules;
        d
    }

    /// Sets documentation or help text.
    pub fn with_documentation(self, documentation: &str) -> (d: Self)
        ensures
            d.documentation@ == documentation@,
            d == (PropertyDescriptor { documentation: d.documentation, ..self }),
    {
        let mut d = self;
        d.documentation = owned(documentation);
        d
    }

    /// Validates descriptor invariants after builder-style changes.
    pub fn validate(&self) -> (r: ReflectResult<()>)
        ensures
            match self.problem() {
                None => r is Ok,
                Some(e) => r is Err && r->Err_0@ == e,
            },
    {
        validate_path(self.path.as_str())?;
        validate_display_name(self.path.as_str(), self.display_name.as_str())?;
        if blank(self.serialization_key.as_str()) {
            return Err(DescriptorError::EmptySerializationKey { path: self.path.clone() });
        }
        if let PropertyDefault::Value(value) = &self.default_value {
            let actual = value.property_type();
            if actual != self.value_type {
                return Err(
                    DescriptorError::DefaultTypeMismatch {
                        path: self.path.clone(),
                        expected: self.value_type,
                        actual,
                    },
                );
            }
        }
        if self.editor_editability == EditorEditability::ReadOnly {
            let missing = match &self.read_only_reason {
                None => true,
                Some(reason) => blank(reason.as_str()),
            };
            if missing {
                return Err(DescriptorError::MissingReadOnlyReason { path: self.path.clone() });
            }
        }
        Ok(())
    }

    /// Returns whether this property is serialized.
    pub fn is_serialized(&self) -> (r: bool)
        ensures
            r == (self.serialization == SerializationPolicy::Serialized),
    {
        match self.serialization {
            SerializationPolicy::Serialized => true,
            SerializationPolicy::NotSerialized => false,
        }
    }

    /// Returns whether this property is editable in editor tooling.
    pub fn is_editor_editable(&self) -> (r: bool)
        ensures
            r == (self.editor_editability == EditorEditability::Editable),
    {
        match self.editor_editability {
            EditorEditability::Editable => true,
            EditorEditability::ReadOnly => false,
        }
    }

    /// Returns whether this property is visible to scripts.
    pub fn is_scriptable(&self) -> (r: bool)
        ensures
            r == (self.scriptability == Scriptability::Scriptable),
    {
        match self.scriptability {
            Scriptability::Scriptable => true,
            Scriptability::NotScriptable => false,
        }
    }

    /// Returns whether this property may mutate during play mode.
    pub fn is_mutable_during_play(&self) -> (r: bool)
        ensures
            r == (self.play_mutability == PlayMutability::Mutable),
    {
        match self.play_mutability {
            PlayMutability::Mutable => true,
            PlayMutability::ReadOnly => false,
        }
    }
}

fn validate_path(path: &str) -> (r: ReflectResult<()>)
    ensures
        match path_problem(path@) {
            None => r is Ok,
            Some(e) => r is Err && r->Err_0@ == e,
        },
{
    if path.unicode_len() == 0 {
        return Err(DescriptorError::EmptyPath);
    }
    if canonical_path(path) {
        return Ok(());
    }
    Err(DescriptorError::InvalidPath { path: owned(path) })
}

fn validate_display_name(path: &str, display_name: &str) -> (r: ReflectResult<()>)
    ensures
        is_blank(display_name@) ==> r is Err && r->Err_0@ == (DescriptorErrorView::EmptyDisplayName {
            path: path@,
        }),
        !is_blank(display_name@) ==> r is Ok,
{
    if blank(display_name) {
        return Err(DescriptorError::EmptyDisplayName { path: owned(path) });
    }
    Ok(())
}

impl PropertyValue {
    /// Returns whether this value's type matches the descriptor's type.
    pub fn is_compatible_with(&self, descriptor: &PropertyDescriptor) -> (r: bool)
        ensures
            r == (self.spec_type() == descriptor.value_type),
    {
        self.property_type() == descriptor.value_type
    }

    /// Validates this value against a property descriptor: the descriptor
    /// must be valid, then the value's type must be the descriptor's.
    pub fn validate_for_descriptor(&self, descriptor: &PropertyDescriptor) -> (r: ValueResult<()>)
        ensures
            match descriptor.problem() {
                Some(e) => r is Err && r->Err_0@ == ValueErrorView::InvalidDescriptor(e),
                None => if self.spec_type() == descriptor.value_type {
                    r is Ok
                } else {
                    r is Err && r->Err_0@ == (ValueErrorView::TypeMismatch {
                        path: descriptor.path@,
                        expected: descriptor.value_type,
                        actual: self.spec_type(),
                    })
                },
            },
    {
        match descriptor.validate() {
            Err(e) => {
                return Err(ValueError::InvalidDescriptor(e));
            },
            Ok(()) => {},
        }
        if self.is_compatible_with(descriptor) {
            return Ok(());
        }
        Err(
            ValueError::TypeMismatch {
                path: descriptor.path.clone(),
                expected: descriptor.value_type,
                actual: self.property_type(),
            },
        )
    }
}

} // verus!
