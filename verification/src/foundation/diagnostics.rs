//! Structured diagnostics shared by editor, runtime, build and agent workflows.

use vstd::prelude::*;

use crate::foundation::id::InstanceGuid;
use crate::text::{clone_text, owned, str_equal};

verus! {

/// Stable diagnostic code used by tests, tools, editor panels, and agents.
#[derive(Debug, Copy, Clone, Eq, Hash)]
pub struct DiagnosticCode {
    pub(crate) code: &'static str,
}

impl PartialEq for DiagnosticCode {
    fn eq(&self, other: &Self) -> (r: bool) {
        str_equal(self.code, other.code)
    }
}

impl vstd::std_specs::cmp::PartialEqSpecImpl for DiagnosticCode {
    open spec fn obeys_eq_spec() -> bool {
        true
    }

    open spec fn eq_spec(&self, other: &Self) -> bool {
        self.text() == other.text()
    }
}

impl DiagnosticCode {
    /// `KinetikError` code for an invalid typed handle.
    pub fn core_invalid_handle() -> (c: Self)
        ensures
            c.text() == "KT_CORE_INVALID_HANDLE"@,
    {
        Self { code: "KT_CORE_INVALID_HANDLE" }
    }

    /// `KinetikError` code for a missing item.
    pub fn core_not_found() -> (c: Self)
        ensures
            c.text() == "KT_CORE_NOT_FOUND"@,
    {
        Self { code: "KT_CORE_NOT_FOUND" }
    }

    /// `KinetikError` code for a feature that is not implemented yet.
    pub fn core_not_implemented() -> (c: Self)
        ensures
            c.text() == "KT_CORE_NOT_IMPLEMENTED"@,
    {
        Self { code: "KT_CORE_NOT_IMPLEMENTED" }
    }

    /// The stable code text.
    pub closed spec fn text(self) -> Seq<char> {
        self.code@
    }

    /// Creates a diagnostic code from a stable string.
    pub fn new(code: &'static str) -> (c: Self)
        ensures
            c.text() == code@,
    {
        Self { code }
    }

    /// Returns the stable diagnostic code string.
    pub fn as_str(self) -> (s: &'static str)
        ensures
            s@ == self.text(),
    {
        self.code
    }

    /// Returns the stable diagnostic code string as owned text.
    pub fn to_string(self) -> (s: String)
        ensures
            s@ == self.text(),
    {
        owned(self.code)
    }
}

/// System that produced a diagnostic.
#[derive(Debug, Copy, Clone, Eq, Hash)]
pub struct DiagnosticSource {
    pub(crate) source: &'static str,
}

impl PartialEq for DiagnosticSource {
    fn eq(&self, other: &Self) -> (r: bool) {
        str_equal(self.source, other.source)
    }
}

impl vstd::std_specs::cmp::PartialEqSpecImpl for DiagnosticSource {
    open spec fn obeys_eq_spec() -> bool {
        true
    }

    open spec fn eq_spec(&self, other: &Self) -> bool {
        self.text() == other.text()
    }
}

impl DiagnosticSource {
    /// Core foundation source used for core-owned errors and diagnostics.
    pub fn core_source() -> (c: Self)
        ensures
            c.text() == "Core"@,
    {
        Self { source: "Core" }
    }

    /// The stable source name.
    pub closed spec fn text(self) -> Seq<char> {
        self.source@
    }

    /// Creates a diagnostic source from a stable source name.
    pub fn new(source: &'static str) -> (s: Self)
        ensures
            s.text() == source@,
    {
        Self { source }
    }

    /// Returns the stable source name.
    pub fn as_str(self) -> (s: &'static str)
        ensures
            s@ == self.text(),
    {
        self.source
    }

    /// Whether two sources have the same name.
    pub fn same_as(self, other: Self) -> (r: bool)
        ensures
            r == (self.text() == other.text()),
    {
        str_equal(self.source, other.source)
    }

    /// Returns the stable source name as owned text.
    pub fn to_string(self) -> (s: String)
        ensures
            s@ == self.text(),
    {
        owned(self.source)
    }
}

/// Severity of a current project or runtime health diagnostic.
#[derive(Debug, Copy, Clone, PartialEq, Eq, Structural, Hash, PartialOrd, Ord)]
pub enum DiagnosticSeverity {
    /// Useful state that does not require action.
    Info,
    /// Suspicious state that may become a problem.
    Warning,
    /// Invalid state that blocks at least one workflow.
    Error,
    /// Unrecoverable state that prevents safe continuation.
    Fatal,
}

/// Workflow blocked by a diagnostic.
#[derive(Debug, Copy, Clone, PartialEq, Eq, Structural, Hash, PartialOrd, Ord)]
pub enum DiagnosticBlockingScope {
    /// Blocks editing.
    Edit,
    /// Blocks saving.
    Save,
    /// Blocks play mode.
    Play,
    /// Blocks import.
    Import,
    /// Blocks builds.
    Build,
    /// Blocks bundle generation.
    Bundle,
    /// Blocks publishing.
    Publish,
    /// Blocks tests.
    Test,
}

/// Source text range associated with a diagnostic.
#[derive(Debug, Copy, Clone, PartialEq, Eq, Structural, Hash, PartialOrd, Ord)]
pub struct SourceRange {
    /// One-based starting line.
    pub start_line: u32,
    /// One-based starting column.
    pub start_column: u32,
    /// One-based ending line.
    pub end_line: u32,
    /// One-based ending column.
    pub end_column: u32,
}

impl SourceRange {
    /// Creates a source range from one-based line and column values.
    pub fn new(start_line: u32, start_column: u32, end_line: u32, end_column: u32) -> (r: Self)
        ensures
            r == (SourceRange { start_line, start_column, end_line, end_column }),
    {
        Self { start_line, start_column, end_line, end_column }
    }
}

/// Optional target details for a diagnostic.
#[derive(Debug, PartialEq, Eq)]
pub struct DiagnosticLocation {
    /// Related instance GUID when applicable.
    pub instance_guid: Option<InstanceGuid>,
    /// Related scene path when applicable.
    pub scene_path: Option<String>,
    /// Related asset project path when applicable.
    pub asset_path: Option<String>,
    /// Related script path when applicable.
    pub script_path: Option<String>,
    /// Related script or source range when applicable.
    pub source_range: Option<SourceRange>,
    /// Related reflected property path when applicable.
    pub property_path: Option<String>,
}

impl DiagnosticLocation {
    /// A location with no details.
    pub open spec fn is_empty(self) -> bool {
        &&& self.instance_guid is None
        &&& self.scene_path is None
        &&& self.asset_path is None
        &&& self.script_path is None
        &&& self.source_range is None
        &&& self.property_path is None
    }

    /// Creates an empty diagnostic location.
    pub fn new() -> (l: Self)
        ensures
            l.is_empty(),
    {
        DiagnosticLocation {
            instance_guid: None,
            scene_path: None,
            asset_path: None,
            script_path: None,
            source_range: None,
            property_path: None,
        }
    }
}

impl Clone for DiagnosticLocation {
    fn clone(&self) -> (r: Self)
        ensures
            r == *self,
    {
        DiagnosticLocation {
            instance_guid: self.instance_guid,
            scene_path: clone_text(&self.scene_path),
            asset_path: clone_text(&self.asset_path),
            script_path: clone_text(&self.script_path),
            source_range: self.source_range,
            property_path: clone_text(&self.property_path),
        }
    }
}

impl Default for DiagnosticLocation {
    fn default() -> (l: Self)
        ensures
            l.is_empty(),
    {
        Self::new()
    }
}

/// Whether an automated agent may attempt a diagnostic repair.
#[derive(Debug, Copy, Clone, PartialEq, Eq, Structural, Hash, PartialOrd, Ord)]
pub enum AgentRepair {
    /// Automated repair is not allowed without higher-level approval.
    NotAllowed,
    /// Automated repair is allowed through validated commands.
    Allowed,
}

impl Default for AgentRepair {
    fn default() -> (r: Self)
        ensures
            r == AgentRepair::NotAllowed,
    {
        AgentRepair::NotAllowed
    }
}

/// Structured current health record for editor, runtime, build, and agent workflows.
#[derive(Debug, PartialEq, Eq)]
pub struct Diagnostic {
    /// Stable code for tests and tools.
    pub code: DiagnosticCode,
    /// Diagnostic severity.
    pub severity: DiagnosticSeverity,
    /// Human-readable diagnostic message.
    pub message: String,
    /// System that produced the diagnostic.
    pub source: DiagnosticSource,
    /// Workflow blocked by this diagnostic when known.
    pub blocking: Option<DiagnosticBlockingScope>,
    /// Optional location details.
    pub location: DiagnosticLocation,
    /// Safe suggested fix when available.
    pub suggested_fix: Option<String>,
    /// Whether an automated agent may attempt repair.
    pub agent_repair: AgentRepair,
}

impl Clone for Diagnostic {
    fn clone(&self) -> (r: Self)
        ensures
            r == *self,
    {
        Diagnostic {
            code: self.code,
            severity: self.severity,
            message: self.message.clone(),
            source: self.source,
            blocking: self.blocking,
            location: self.location.clone(),
            suggested_fix: clone_text(&self.suggested_fix),
            agent_repair: self.agent_repair,
        }
    }
}

impl Diagnostic {
    /// The shape `Diagnostic::new` produces: the given core fields, no
    /// blocking scope, location, suggested fix or agent repair permission.
    pub open spec fn is_plain(
        self,
        code: DiagnosticCode,
        severity: DiagnosticSeverity,
        source: DiagnosticSource,
        message: Seq<char>,
    ) -> bool {
        &&& self.code == code
        &&& self.severity == severity
        &&& self.source == source
        &&& self.message@ == message
        &&& self.blocking is None
        &&& self.location.is_empty()
        &&& self.suggested_fix is None
        &&& self.agent_repair == AgentRepair::NotAllowed
    }

    /// Creates a diagnostic with no location, suggested fix, or agent repair permission.
    pub fn new(
        code: DiagnosticCode,
        severity: DiagnosticSeverity,
        source: DiagnosticSource,
        message: &str,
    ) -> (d: Self)
        ensures
            d.is_plain(code, severity, source, message@),
    {
        Diagnostic {
            code,
            severity,
            message: owned(message),
            source,
            blocking: None,
            location: DiagnosticLocation::new(),
            suggested_fix: None,
            agent_repair: AgentRepair::NotAllowed,
        }
    }

    /// Sets the blocking workflow scope.
    pub fn with_blocking_scope(self, blocking: DiagnosticBlockingScope) -> (d: Self)
        ensures
            d == (Diagnostic { blocking: Some(blocking), ..self }),
    {
        let mut d = self;
        d.blocking = Some(blocking);
        d
    }

    /// Sets the diagnostic location.
    pub fn with_location(self, location: DiagnosticLocation) -> (d: Self)
        ensures
            d == (Diagnostic { location, ..self }),
    {
        let mut d = self;
        d.location = location;
        d
    }

    /// Sets a safe suggested fix.
    pub fn with_suggested_fix(self, suggested_fix: &str) -> (d: Self)
        ensures
            d.suggested_fix is Some,
            d.suggested_fix->0@ == suggested_fix@,
            d == (Diagnostic { suggested_fix: d.suggested_fix, ..self }),
    {
        let mut d = self;
        d.suggested_fix = Some(owned(suggested_fix));
        d
    }

    /// Marks the diagnostic as repairable by automated agents through validated commands.
    pub fn allow_agent_repair(self) -> (d: Self)
        ensures
            d == (Diagnostic { agent_repair: AgentRepair::Allowed, ..self }),
    {
        let mut d = self;
        d.agent_repair = AgentRepair::Allowed;
        d
    }
}

} // verus!
