//! Reflection descriptor and value errors.

use vstd::prelude::*;

use crate::foundation::diagnostics::{
    Diagnostic, DiagnosticCode, DiagnosticLocation, DiagnosticSeverity, DiagnosticSource,
};
use crate::reflect::value::PropertyType;
use crate::text::{decimal, decimal_string, join2, join3, owned};

verus! {

/// Errors returned when descriptor metadata violates the reflection contract.
#[derive(Debug, PartialEq, Eq)]
pub enum DescriptorError {
    /// Canonical property path was empty.
    EmptyPath,
    /// Canonical property path was not `PascalCase` dot-separated text.
    InvalidPath {
        /// Invalid path value.
        path: String,
    },
    /// Display name was empty.
    EmptyDisplayName {
        /// Property path being described.
        path: String,
    },
    /// Serialization key was empty.
    EmptySerializationKey {
        /// Property path being described.
        path: String,
    },
    /// Explicit default value type did not match the descriptor type.
    DefaultTypeMismatch {
        /// Property path being described.
        path: String,
        /// Expected descriptor type.
        expected: PropertyType,
        /// Actual default value type.
        actual: PropertyType,
    },
    /// A read-only editor property did not explain why it is locked.
    MissingReadOnlyReason {
        /// Property path being described.
        path: String,
    },
}

/// The content of a [`DescriptorError`], with text as character sequences.
pub enum DescriptorErrorView {
    EmptyPath,
    InvalidPath { path: Seq<char> },
    EmptyDisplayName { path: Seq<char> },
    EmptySerializationKey { path: Seq<char> },
    DefaultTypeMismatch { path: Seq<char>, expected: PropertyType, actual: PropertyType },
    MissingReadOnlyReason { path: Seq<char> },
}

impl View for DescriptorError {
    type V = DescriptorErrorView;

    open spec fn view(&self) -> DescriptorErrorView {
        match self {
            DescriptorError::EmptyPath => DescriptorErrorView::EmptyPath,
            DescriptorError::InvalidPath { path } => DescriptorErrorView::InvalidPath {
                path: path@,
            },
            DescriptorError::EmptyDisplayName { path } => DescriptorErrorView::EmptyDisplayName {
                path: path@,
            },
            DescriptorError::EmptySerializationKey { path } =>
                DescriptorErrorView::EmptySerializationKey { path: path@ },
            DescriptorError::DefaultTypeMismatch { path, expected, actual } =>
                DescriptorErrorView::DefaultTypeMismatch {
                path: path@,
                expected: *expected,
                actual: *actual,
            },
            DescriptorError::MissingReadOnlyReason { path } =>
                DescriptorErrorView::MissingReadOnlyReason { path: path@ },
        }
    }
}

impl DescriptorErrorView {
    /// The human-readable message of a descriptor error.
    pub open spec fn message(self) -> Seq<char> {
        match self {
            DescriptorErrorView::EmptyPath => "property descriptor path must not be empty"@,
            DescriptorErrorView::InvalidPath { path } =>
                "property descriptor path must be PascalCase: "@ + path,
            DescriptorErrorView::EmptyDisplayName { path } =>
                "property descriptor display name must not be empty: "@ + path,
            DescriptorErrorView::EmptySerializationKey { path } =>
                "property descriptor serialization key must not be empty: "@ + path,
            DescriptorErrorView::DefaultTypeMismatch { path, expected, actual } =>
                "property descriptor default for "@ + path + " expected "@ + expected.name()
                + ", got "@ + actual.name(),
            DescriptorErrorView::MissingReadOnlyReason { path } =>
                "read-only property must include a reason: "@ + path,
        }
    }
}

impl DescriptorError {
    /// Returns the human-readable message of this error.
    pub fn to_string(&self) -> (s: String)
        ensures
            s@ == self@.message(),
    {
        match self {
            DescriptorError::EmptyPath => owned("property descriptor path must not be empty"),
            DescriptorError::InvalidPath { path } => join2(
                "property descriptor path must be PascalCase: ",
                path.as_str(),
            ),
            DescriptorError::EmptyDisplayName { path } => join2(
                "property descriptor display name must not be empty: ",
                path.as_str(),
            ),
            DescriptorError::EmptySerializationKey { path } => join2(
                "property descriptor serialization key must not be empty: ",
                path.as_str(),
            ),
            DescriptorError::DefaultTypeMismatch { path, expected, actual } => {
                let mut s = join3("property descriptor default for ", path.as_str(), " expected ");
                s.append(expected.as_str());
                s.append(", got ");
                s.append(actual.as_str());
                s
            },
            DescriptorError::MissingReadOnlyReason { path } => join2(
                "read-only property must include a reason: ",
                path.as_str(),
            ),
        }
    }
}

impl Clone for DescriptorError {
    fn clone(&self) -> (r: Self)
        ensures
            r == *self,
    {
        match self {
            DescriptorError::EmptyPath => DescriptorError::EmptyPath,
            DescriptorError::InvalidPath { path } => DescriptorError::InvalidPath {
                path: path.clone(),
            },
            DescriptorError::EmptyDisplayName { path } => DescriptorError::EmptyDisplayName {
                path: path.clone(),
            },
            DescriptorError::EmptySerializationKey { path } =>
                DescriptorError::EmptySerializationKey { path: path.clone() },
            DescriptorError::DefaultTypeMismatch { path, expected, actual } =>
                DescriptorError::DefaultTypeMismatch {
                path: path.clone(),
                expected: *expected,
                actual: *actual,
            },
            DescriptorError::MissingReadOnlyReason { path } =>
                DescriptorError::MissingReadOnlyReason { path: path.clone() },
        }
    }
}

/// The rule of the `res://` asset path contract that a path breaks.
#[derive(Debug, Copy, Clone, PartialEq, Eq, Structural)]
pub enum AssetPathProblem {
    /// The path is empty.
    Empty,
    /// The path has leading or trailing whitespace.
    Untrimmed,
    /// The path does not start with `res://`.
    MissingScheme,
    /// Nothing follows `res://`.
    MissingRelativePath,
    /// The relative path starts with `/`.
    AbsolutePath,
    /// The relative path contains a backslash.
    Backslash,
    /// A segment is empty.
    EmptySegment,
    /// A segment is `.` or `..`.
    RelativeSegment,
    /// A segment has leading or trailing whitespace.
    UntrimmedSegment,
}

impl AssetPathProblem {
    /// The stable explanation of a broken rule.
    pub open spec fn reason(self) -> Seq<char> {
        match self {
            AssetPathProblem::Empty => "asset reference path must not be empty"@,
            AssetPathProblem::Untrimmed => "must not contain leading or trailing whitespace"@,
            AssetPathProblem::MissingScheme => "must start with res://"@,
            AssetPathProblem::MissingRelativePath =>
                "must include a project-relative path after res://"@,
            AssetPathProblem::AbsolutePath => "must not contain an absolute path after res://"@,
            AssetPathProblem::Backslash => "must use '/' separators, not backslashes"@,
            AssetPathProblem::EmptySegment => "must not contain empty path segments"@,
            AssetPathProblem::RelativeSegment => "must not contain relative path segments"@,
            AssetPathProblem::UntrimmedSegment =>
                "path segments must not contain leading or trailing whitespace"@,
        }
    }

    /// Returns the stable explanation of this broken rule.
    pub fn reason_str(self) -> (s: &'static str)
        ensures
            s@ == self.reason(),
    {
        match self {
            AssetPathProblem::Empty => "asset reference path must not be empty",
            AssetPathProblem::Untrimmed => "must not contain leading or trailing whitespace",
            AssetPathProblem::MissingScheme => "must start with res://",
            AssetPathProblem::MissingRelativePath =>
                "must include a project-relative path after res://",
            AssetPathProblem::AbsolutePath => "must not contain an absolute path after res://",
            AssetPathProblem::Backslash => "must use '/' separators, not backslashes",
            AssetPathProblem::EmptySegment => "must not contain empty path segments",
            AssetPathProblem::RelativeSegment => "must not contain relative path segments",
            AssetPathProblem::UntrimmedSegment =>
                "path segments must not contain leading or trailing whitespace",
        }
    }
}

/// Errors returned when reflected values violate descriptor contracts.
#[derive(Debug, PartialEq)]
pub enum ValueError {
    /// Descriptor validation failed before value validation.
    InvalidDescriptor(DescriptorError),
    /// Reflected type has no meaningful neutral default value.
    NoTypeDefault {
        /// Reflected type without a neutral default.
        value_type: PropertyType,
    },
    /// Asset reference GUID was zero.
    InvalidAssetReferenceGuid {
        /// Invalid raw GUID value.
        raw: u64,
    },
    /// Asset reference path was empty.
    EmptyAssetReferencePath,
    /// Asset reference path violated the `res://` contract.
    InvalidAssetReferencePath {
        /// Invalid path value.
        path: String,
        /// Stable explanation for the validation failure.
        reason: &'static str,
    },
    /// Value type did not match the descriptor type.
    TypeMismatch {
        /// Canonical property path.
        path: String,
        /// Expected descriptor type.
        expected: PropertyType,
        /// Actual value type.
        actual: PropertyType,
    },
}

/// The content of a [`ValueError`], with text as character sequences.
pub enum ValueErrorView {
    InvalidDescriptor(DescriptorErrorView),
    NoTypeDefault { value_type: PropertyType },
    InvalidAssetReferenceGuid { raw: u64 },
    EmptyAssetReferencePath,
    InvalidAssetReferencePath { path: Seq<char>, reason: Seq<char> },
    TypeMismatch { path: Seq<char>, expected: PropertyType, actual: PropertyType },
}

impl View for ValueError {
    type V = ValueErrorView;

    open spec fn view(&self) -> ValueErrorView {
        match self {
            ValueError::InvalidDescriptor(e) => ValueErrorView::InvalidDescriptor(e@),
            ValueError::NoTypeDefault { value_type } => ValueErrorView::NoTypeDefault {
                value_type: *value_type,
            },
            ValueError::InvalidAssetReferenceGuid { raw } =>
                ValueErrorView::InvalidAssetReferenceGuid { raw: *raw },
            ValueError::EmptyAssetReferencePath => ValueErrorView::EmptyAssetReferencePath,
            ValueError::InvalidAssetReferencePath { path, reason } =>
                ValueErrorView::InvalidAssetReferencePath { path: path@, reason: reason@ },
            ValueError::TypeMismatch { path, expected, actual } => ValueErrorView::TypeMismatch {
                path: path@,
                expected: *expected,
                actual: *actual,
            },
        }
    }
}

impl ValueErrorView {
    /// The human-readable message of a value error.
    pub open spec fn message(self) -> Seq<char> {
        match self {
            ValueErrorView::InvalidDescriptor(e) => "invalid property descriptor: "@ + e.message(),
            ValueErrorView::NoTypeDefault { value_type } =>
                "reflected type has no neutral default: "@ + value_type.name(),
            ValueErrorView::InvalidAssetReferenceGuid { raw } =>
                "asset reference GUID must be non-zero: "@ + decimal(raw as nat),
            ValueErrorView::EmptyAssetReferencePath => "asset reference path must not be empty"@,
            ValueErrorView::InvalidAssetReferencePath { path, reason } =>
                "asset reference path is invalid: "@ + path + " ("@ + reason + ")"@,
            ValueErrorView::TypeMismatch { path, expected, actual } => "property "@ + path
                + " expected value type "@ + expected.name() + ", got "@ + actual.name(),
        }
    }

    /// The stable diagnostic code text of a value error.
    pub open spec fn code_text(self) -> Seq<char> {
        match self {
            ValueErrorView::InvalidDescriptor(_) => "KT_REFLECT_INVALID_DESCRIPTOR"@,
            ValueErrorView::NoTypeDefault { .. } => "KT_REFLECT_NO_TYPE_DEFAULT"@,
            ValueErrorView::TypeMismatch { .. } => "KT_REFLECT_TYPE_MISMATCH"@,
            _ => "KT_REFLECT_INVALID_ASSET_REFERENCE"@,
        }
    }
}

impl ValueError {
    /// The error reporting that asset path `path` breaks rule `problem`.
    pub open spec fn is_path_error(self, problem: AssetPathProblem, path: Seq<char>) -> bool {
        if problem is Empty {
            self is EmptyAssetReferencePath
        } else {
            self@ == (ValueErrorView::InvalidAssetReferencePath {
                path,
                reason: problem.reason(),
            })
        }
    }

    pub(crate) fn from_path_problem(problem: AssetPathProblem, path: &str) -> (e: Self)
        ensures
            e.is_path_error(problem, path@),
    {
        match problem {
            AssetPathProblem::Empty => ValueError::EmptyAssetReferencePath,
            _ => ValueError::InvalidAssetReferencePath {
                path: owned(path),
                reason: problem.reason_str(),
            },
        }
    }

    /// Stable diagnostic code for invalid descriptors during value validation.
    pub fn invalid_descriptor_code() -> (c: DiagnosticCode)
        ensures
            c.text() == "KT_REFLECT_INVALID_DESCRIPTOR"@,
    {
        DiagnosticCode::new("KT_REFLECT_INVALID_DESCRIPTOR")
    }

    /// Stable diagnostic code for missing reflected type defaults.
    pub fn no_type_default_code() -> (c: DiagnosticCode)
        ensures
            c.text() == "KT_REFLECT_NO_TYPE_DEFAULT"@,
    {
        DiagnosticCode::new("KT_REFLECT_NO_TYPE_DEFAULT")
    }

    /// Stable diagnostic code for reflected value type mismatches.
    pub fn type_mismatch_code() -> (c: DiagnosticCode)
        ensures
            c.text() == "KT_REFLECT_TYPE_MISMATCH"@,
    {
        DiagnosticCode::new("KT_REFLECT_TYPE_MISMATCH")
    }

    /// Stable diagnostic code for invalid reflected asset references.
    pub fn invalid_asset_reference_code() -> (c: DiagnosticCode)
        ensures
            c.text() == "KT_REFLECT_INVALID_ASSET_REFERENCE"@,
    {
        DiagnosticCode::new("KT_REFLECT_INVALID_ASSET_REFERENCE")
    }

    /// Returns the stable diagnostic code for this value error.
    pub fn diagnostic_code(&self) -> (c: DiagnosticCode)
        ensures
            c.text() == self@.code_text(),
    {
        match self {
            ValueError::InvalidDescriptor(_) => Self::invalid_descriptor_code(),
            ValueError::NoTypeDefault { .. } => Self::no_type_default_code(),
            ValueError::TypeMismatch { .. } => Self::type_mismatch_code(),
            _ => Self::invalid_asset_reference_code(),
        }
    }

    /// Returns the human-readable message of this error.
    pub fn to_string(&self) -> (s: String)
        ensures
            s@ == self@.message(),
    {
        match self {
            ValueError::InvalidDescriptor(e) => {
                let inner = e.to_string();
                join2("invalid property descriptor: ", inner.as_str())
            },
            ValueError::NoTypeDefault { value_type } => join2(
                "reflected type has no neutral default: ",
                value_type.as_str(),
            ),
            ValueError::InvalidAssetReferenceGuid { raw } => {
                let digits = decimal_string(*raw);
                join2("asset reference GUID must be non-zero: ", digits.as_str())
            },
            ValueError::EmptyAssetReferencePath => owned("asset reference path must not be empty"),
            ValueError::InvalidAssetReferencePath { path, reason } => {
                let mut s = join3("asset reference path is invalid: ", path.as_str(), " (");
                s.append(reason);
                s.append(")");
                s
            },
            ValueError::TypeMismatch { path, expected, actual } => {
                let mut s = join3("property ", path.as_str(), " expected value type ");
                s.append(expected.as_str());
                s.append(", got ");
                s.append(actual.as_str());
                s
            },
        }
    }

    /// Converts this error into a structured diagnostic: reflection source,
    /// error severity, and the offending property or asset path as location.
    pub fn to_diagnostic(&self) -> (d: Diagnostic)
        ensures
            d.code.text() == self@.code_text(),
            d.severity == DiagnosticSeverity::Error,
            d.source.text() == "Reflection"@,
            d.message@ == self@.message(),
            d.blocking is None,
            d.suggested_fix is None,
            d.agent_repair == crate::foundation::diagnostics::AgentRepair::NotAllowed,
            d.location.instance_guid is None,
            d.location.scene_path is None,
            d.location.script_path is None,
            d.location.source_range is None,
            match self@ {
                ValueErrorView::TypeMismatch { path, .. } => d.location.property_path is Some
                    && d.location.property_path->0@ == path && d.location.asset_path is None,
                ValueErrorView::InvalidAssetReferencePath { path, .. } => d.location.asset_path
                    is Some && d.location.asset_path->0@ == path && d.location.property_path
                    is None,
                _ => d.location.asset_path is None && d.location.property_path is None,
            },
    {
        let mut location = DiagnosticLocation::new();
        match self {
            ValueError::TypeMismatch { path, .. } => {
                location.property_path = Some(path.clone());
            },
            ValueError::InvalidAssetReferencePath { path, .. } => {
                location.asset_path = Some(path.clone());
            },
            _ => {},
        }
        let message = self.to_string();
        Diagnostic::new(
            self.diagnostic_code(),
            DiagnosticSeverity::Error,
            DiagnosticSource::new("Reflection"),
            message.as_str(),
        ).with_location(location)
    }
}

} // verus!
