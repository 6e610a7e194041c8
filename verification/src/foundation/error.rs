//! Foundational engine error and its diagnostic form.

use vstd::prelude::*;

use crate::foundation::diagnostics::{
    Diagnostic, DiagnosticBlockingScope, DiagnosticCode, DiagnosticSeverity, DiagnosticSource,
};
use crate::text::{decimal, decimal_string, owned};

verus! {

/// Standard result type used by Kinetik crates.
pub type KinetikResult<T> = Result<T, KinetikError>;

/// Foundational engine error.
#[derive(Debug, PartialEq, Eq)]
pub enum KinetikError {
    /// A handle or ID was not valid in the receiving system.
    InvalidHandle {
        /// Human-readable handle kind, such as `InstanceId`.
        kind: &'static str,
        /// Raw handle value that failed validation.
        id: u64,
    },
    /// A requested item was not found.
    NotFound {
        /// Human-readable item kind, such as `Resource`.
        kind: &'static str,
        /// Requested item name or path.
        name: String,
    },
    /// The operation is not implemented yet.
    NotImplemented {
        /// Feature name that is not implemented yet.
        feature: &'static str,
    },
}

impl Clone for KinetikError {
    fn clone(&self) -> (r: Self)
        ensures
            r == *self,
    {
        match self {
            KinetikError::InvalidHandle { kind, id } => KinetikError::InvalidHandle {
                kind: *kind,
                id: *id,
            },
            KinetikError::NotFound { kind, name } => KinetikError::NotFound {
                kind: *kind,
                name: name.clone(),
            },
            KinetikError::NotImplemented { feature } => KinetikError::NotImplemented {
                feature: *feature,
            },
        }
    }
}

impl KinetikError {
    /// The human-readable message of this error.
    pub open spec fn message(self) -> Seq<char> {
        match self {
            KinetikError::InvalidHandle { kind, id } => "invalid "@ + kind@ + " handle: "@
                + decimal(id as nat),
            KinetikError::NotFound { kind, name } => kind@ + " not found: "@ + name@,
            KinetikError::NotImplemented { feature } => "feature not implemented: "@ + feature@,
        }
    }

    /// The stable diagnostic code text of this error.
    pub open spec fn code_text(self) -> Seq<char> {
        match self {
            KinetikError::InvalidHandle { .. } => "KT_CORE_INVALID_HANDLE"@,
            KinetikError::NotFound { .. } => "KT_CORE_NOT_FOUND"@,
            KinetikError::NotImplemented { .. } => "KT_CORE_NOT_IMPLEMENTED"@,
        }
    }

    /// Returns the stable diagnostic code for this error.
    pub fn diagnostic_code(&self) -> (c: DiagnosticCode)
        ensures
            c.text() == self.code_text(),
    {
        match self {
            KinetikError::InvalidHandle { .. } => DiagnosticCode::core_invalid_handle(),
            KinetikError::NotFound { .. } => DiagnosticCode::core_not_found(),
            KinetikError::NotImplemented { .. } => DiagnosticCode::core_not_implemented(),
        }
    }

    /// Returns the human-readable message of this error.
    pub fn to_string(&self) -> (s: String)
        ensures
            s@ == self.message(),
    {
        match self {
            KinetikError::InvalidHandle { kind, id } => {
                let mut s = owned("invalid ");
                s.append(kind);
                s.append(" handle: ");
                let digits = decimal_string(*id);
                s.append(digits.as_str());
                s
            },
            KinetikError::NotFound { kind, name } => {
                let mut s = owned(kind);
                s.append(" not found: ");
                s.append(name.as_str());
                s
            },
            KinetikError::NotImplemented { feature } => {
                let mut s = owned("feature not implemented: ");
                s.append(feature);
                s
            },
        }
    }

    /// Converts this error into a structured diagnostic with the provided source.
    pub fn to_diagnostic(
        &self,
        source: DiagnosticSource,
        blocking: Option<DiagnosticBlockingScope>,
    ) -> (d: Diagnostic)
        ensures
            d.code.text() == self.code_text(),
            d.severity == DiagnosticSeverity::Error,
            d.source == source,
            d.message@ == self.message(),
            d.blocking == blocking,
            d.location.is_empty(),
            d.suggested_fix is None,
            d.agent_repair == crate::foundation::diagnostics::AgentRepair::NotAllowed,
    {
        let message = self.to_string();
        let mut diagnostic = Diagnostic::new(
            self.diagnostic_code(),
            DiagnosticSeverity::Error,
            source,
            message.as_str(),
        );
        diagnostic.blocking = blocking;
        diagnostic
    }
}

impl From<KinetikError> for Diagnostic {
    /// Converts with the core diagnostic source and no blocking scope: an
    /// error diagnostic with the error's code and message and nothing else.
    fn from(error: KinetikError) -> (d: Self)
        ensures
            d.code.text() == error.code_text(),
            d.severity == DiagnosticSeverity::Error,
            d.source.text() == "Core"@,
            d.message@ == error.message(),
            d.blocking is None,
            d.location.is_empty(),
            d.suggested_fix is None,
            d.agent_repair == crate::foundation::diagnostics::AgentRepair::NotAllowed,
    {
        error.to_diagnostic(DiagnosticSource::core_source(), None)
    }
}

impl vstd::std_specs::convert::FromSpecImpl<KinetikError> for Diagnostic {
    open spec fn obeys_from_spec() -> bool {
        false
    }

    open spec fn from_spec(v: KinetikError) -> Diagnostic {
        arbitrary()
    }
}

} // verus!
