//! Project identity, settings and workspace document references.

use vstd::prelude::*;

use crate::foundation::diagnostics::{
    AgentRepair, Diagnostic, DiagnosticBlockingScope, DiagnosticCode, DiagnosticSeverity,
    DiagnosticSource,
};
use crate::text::{blank, is_blank, join2, owned};

verus! {

/// Result type for project model operations.
pub type ProjectResult<T> = Result<T, ProjectError>;

/// Errors returned by project identity and settings validation.
#[derive(Debug, Copy, Clone, PartialEq, Eq)]
pub enum ProjectError {
    /// Project display name was empty.
    EmptyProjectName,
    /// Engine compatibility string was empty.
    EmptyEngineCompatibility,
    /// Workspace-relative document path was empty.
    EmptyDocumentPath {
        /// Logical document path field.
        field: &'static str,
    },
}

impl ProjectError {
    /// The human-readable message of a project error.
    pub open spec fn message(self) -> Seq<char> {
        match self {
            ProjectError::EmptyProjectName => "project name must not be empty"@,
            ProjectError::EmptyEngineCompatibility =>
                "project engine compatibility must not be empty"@,
            ProjectError::EmptyDocumentPath { field } =>
                "project document path must not be empty: "@ + field@,
        }
    }

    /// The stable diagnostic code text of a project error.
    pub open spec fn code_text(self) -> Seq<char> {
        match self {
            ProjectError::EmptyProjectName => "KT_PROJECT_EMPTY_NAME"@,
            ProjectError::EmptyEngineCompatibility => "KT_PROJECT_EMPTY_ENGINE_COMPATIBILITY"@,
            ProjectError::EmptyDocumentPath { .. } => "KT_PROJECT_EMPTY_DOCUMENT_PATH"@,
        }
    }

    /// Stable diagnostic code for empty project names.
    pub fn empty_project_name_code() -> (c: DiagnosticCode)
        ensures
            c.text() == "KT_PROJECT_EMPTY_NAME"@,
    {
        DiagnosticCode::new("KT_PROJECT_EMPTY_NAME")
    }

    /// Stable diagnostic code for empty engine compatibility.
    pub fn empty_engine_compatibility_code() -> (c: DiagnosticCode)
        ensures
            c.text() == "KT_PROJECT_EMPTY_ENGINE_COMPATIBILITY"@,
    {
        DiagnosticCode::new("KT_PROJECT_EMPTY_ENGINE_COMPATIBILITY")
    }

    /// Stable diagnostic code for empty document references.
    pub fn empty_document_path_code() -> (c: DiagnosticCode)
        ensures
            c.text() == "KT_PROJECT_EMPTY_DOCUMENT_PATH"@,
    {
        DiagnosticCode::new("KT_PROJECT_EMPTY_DOCUMENT_PATH")
    }

    /// Diagnostic source for project-owned validation.
    pub fn project_source() -> (s: DiagnosticSource)
        ensures
            s.text() == "Project"@,
    {
        DiagnosticSource::new("Project")
    }

    /// Returns the stable diagnostic code for this project error.
    pub fn diagnostic_code(&self) -> (c: DiagnosticCode)
        ensures
            c.text() == self.code_text(),
    {
        match self {
            ProjectError::EmptyProjectName => Self::empty_project_name_code(),
            ProjectError::EmptyEngineCompatibility => Self::empty_engine_compatibility_code(),
            ProjectError::EmptyDocumentPath { .. } => Self::empty_document_path_code(),
        }
    }

    /// Returns the human-readable message of this error.
    pub fn to_string(&self) -> (s: String)
        ensures
            s@ == self.message(),
    {
        match self {
            ProjectError::EmptyProjectName => owned("project name must not be empty"),
            ProjectError::EmptyEngineCompatibility => owned(
                "project engine compatibility must not be empty",
            ),
            ProjectError::EmptyDocumentPath { field } => join2(
                "project document path must not be empty: ",
                field,
            ),
        }
    }

    /// Converts this error into a structured diagnostic that blocks builds.
    pub fn to_diagnostic(&self) -> (d: Diagnostic)
        ensures
            d.code.text() == self.code_text(),
            d.severity == DiagnosticSeverity::Error,
            d.source.text() == "Project"@,
            d.message@ == self.message(),
            d.blocking == Some(DiagnosticBlockingScope::Build),
            d.location.is_empty(),
            d.suggested_fix is None,
            d.agent_repair == AgentRepair::NotAllowed,
    {
        let message = self.to_string();
        Diagnostic::new(
            self.diagnostic_code(),
            DiagnosticSeverity::Error,
            Self::project_source(),
            message.as_str(),
        ).with_blocking_scope(DiagnosticBlockingScope::Build)
    }
}

/// Project identity fields owned by the future `Kinetik.toml` contract.
/// Neither field is ever blank.
#[derive(Debug, PartialEq, Eq)]
pub struct ProjectIdentity {
    name: String,
    engine_compatibility: String,
}

impl ProjectIdentity {
    #[verifier::type_invariant]
    spec fn well_formed(self) -> bool {
        !is_blank(self.name@) && !is_blank(self.engine_compatibility@)
    }

    /// The project display name.
    pub closed spec fn spec_name(self) -> Seq<char> {
        self.name@
    }

    /// The engine compatibility string.
    pub closed spec fn spec_engine_compatibility(self) -> Seq<char> {
        self.engine_compatibility@
    }

    /// Creates a project identity after validating required text fields.
    pub fn new(name: &str, engine_compatibility: &str) -> (r: ProjectResult<Self>)
        ensures
            is_blank(name@) ==> r == Err::<Self, ProjectError>(ProjectError::EmptyProjectName),
            !is_blank(name@) && is_blank(engine_compatibility@) ==> r == Err::<Self, ProjectError>(
                ProjectError::EmptyEngineCompatibility,
            ),
            !is_blank(name@) && !is_blank(engine_compatibility@) ==> r is Ok
                && r->Ok_0.spec_name() == name@ && r->Ok_0.spec_engine_compatibility()
                == engine_compatibility@,
    {
        if blank(name) {
            return Err(ProjectError::EmptyProjectName);
        }
        if blank(engine_compatibility) {
            return Err(ProjectError::EmptyEngineCompatibility);
        }
        Ok(ProjectIdentity { name: owned(name), engine_compatibility: owned(engine_compatibility) })
    }

    /// Returns the project display name.
    pub fn name(&self) -> (s: &str)
        ensures
            s@ == self.spec_name(),
            !is_blank(s@),
    {
        proof {
            use_type_invariant(self);
        }
        self.name.as_str()
    }

    /// Returns the engine compatibility string.
    pub fn engine_compatibility(&self) -> (s: &str)
        ensures
            s@ == self.spec_engine_compatibility(),
            !is_blank(s@),
    {
        proof {
            use_type_invariant(self);
        }
        self.engine_compatibility.as_str()
    }
}

impl Clone for ProjectIdentity {
    fn clone(&self) -> (r: Self)
        ensures
            r == *self,
    {
        proof {
            use_type_invariant(self);
        }
        ProjectIdentity {
            name: self.name.clone(),
            engine_compatibility: self.engine_compatibility.clone(),
        }
    }
}

/// Dependency-free future `Kinetik.toml` settings document contract.
#[derive(Debug, PartialEq, Eq)]
pub struct ProjectSettingsDocument {
    identity: ProjectIdentity,
}

impl ProjectSettingsDocument {
    /// The project identity settings.
    pub closed spec fn spec_identity(self) -> ProjectIdentity {
        self.identity
    }

    /// Creates project settings from validated identity.
    pub fn new(identity: ProjectIdentity) -> (s: Self)
        ensures
            s.spec_identity() == identity,
    {
        ProjectSettingsDocument { identity }
    }

    /// Returns project identity settings.
    pub fn identity(&self) -> (i: &ProjectIdentity)
        ensures
            *i == self.spec_identity(),
    {
        &self.identity
    }
}

impl Clone for ProjectSettingsDocument {
    fn clone(&self) -> (r: Self)
        ensures
            r == *self,
    {
        ProjectSettingsDocument { identity: self.identity.clone() }
    }
}

/// Workspace-relative source document references owned by project state.
/// No path is ever blank.
#[derive(Debug, PartialEq, Eq)]
pub struct ProjectDocumentRefs {
    active_scene: String,
    assets_manifest: String,
    instances_manifest: String,
}

impl ProjectDocumentRefs {
    #[verifier::type_invariant]
    spec fn well_formed(self) -> bool {
        &&& !is_blank(self.active_scene@)
        &&& !is_blank(self.assets_manifest@)
        &&& !is_blank(self.instances_manifest@)
    }

    /// The active scene source path.
    pub closed spec fn spec_active_scene(self) -> Seq<char> {
        self.active_scene@
    }

    /// The asset manifest source path.
    pub closed spec fn spec_assets_manifest(self) -> Seq<char> {
        self.assets_manifest@
    }

    /// The instance manifest source path.
    pub closed spec fn spec_instances_manifest(self) -> Seq<char> {
        self.instances_manifest@
    }

    /// Creates document references after validating required paths, which
    /// are checked in argument order.
    pub fn new(active_scene: &str, assets_manifest: &str, instances_manifest: &str) -> (r:
        ProjectResult<Self>)
        ensures
            is_blank(active_scene@) ==> (r is Err && (r->Err_0 matches ProjectError::EmptyDocumentPath { field } && field@ == "active_scene"@)),
            !is_blank(active_scene@) && is_blank(assets_manifest@) ==> (r is Err && (r->Err_0 matches ProjectError::EmptyDocumentPath { field }
                && field@ == "assets_manifest"@)),
            !is_blank(active_scene@) && !is_blank(assets_manifest@) && is_blank(
                instances_manifest@,
            ) ==> (r is Err && (r->Err_0 matches ProjectError::EmptyDocumentPath { field }
                && field@ == "instances_manifest"@)),
            !is_blank(active_scene@) && !is_blank(assets_manifest@) && !is_blank(
                instances_manifest@,
            ) ==> r is Ok && r->Ok_0.spec_active_scene() == active_scene@
                && r->Ok_0.spec_assets_manifest() == assets_manifest@
                && r->Ok_0.spec_instances_manifest() == instances_manifest@,
    {
        if blank(active_scene) {
            return Err(ProjectError::EmptyDocumentPath { field: "active_scene" });
        }
        if blank(assets_manifest) {
            return Err(ProjectError::EmptyDocumentPath { field: "assets_manifest" });
        }
        if blank(instances_manifest) {
            return Err(ProjectError::EmptyDocumentPath { field: "instances_manifest" });
        }
        Ok(
            ProjectDocumentRefs {
                active_scene: owned(active_scene),
                assets_manifest: owned(assets_manifest),
                instances_manifest: owned(instances_manifest),
            },
        )
    }

    /// Creates the default project document references of the canonical
    /// project layout.
    pub fn from_default_layout() -> (r: Self)
        ensures
            r.spec_active_scene() == "scenes/main.ktscene"@,
            r.spec_assets_manifest() == "project/assets.ktmanifest"@,
            r.spec_instances_manifest() == "project/instances.ktmanifest"@,
    {
        proof {
            reveal_strlit("scenes/main.ktscene");
            reveal_strlit("project/assets.ktmanifest");
            reveal_strlit("project/instances.ktmanifest");
            assert(!crate::text::is_white_space('s'));
            assert(!crate::text::is_white_space('p'));
            assert("scenes/main.ktscene"@[0] == 's');
            assert("project/assets.ktmanifest"@[0] == 'p');
            assert("project/instances.ktmanifest"@[0] == 'p');
        }
        ProjectDocumentRefs {
            active_scene: owned("scenes/main.ktscene"),
            assets_manifest: owned("project/assets.ktmanifest"),
            instances_manifest: owned("project/instances.ktmanifest"),
        }
    }

    /// Returns the active scene source path.
    pub fn active_scene(&self) -> (s: &str)
        ensures
            s@ == self.spec_active_scene(),
            !is_blank(s@),
    {
        proof {
            use_type_invariant(self);
        }
        self.active_scene.as_str()
    }

    /// Returns the asset manifest source path.
    pub fn assets_manifest(&self) -> (s: &str)
        ensures
            s@ == self.spec_assets_manifest(),
            !is_blank(s@),
    {
        proof {
            use_type_invariant(self);
        }
        self.assets_manifest.as_str()
    }

    /// Returns the instance manifest source path.
    pub fn instances_manifest(&self) -> (s: &str)
        ensures
            s@ == self.spec_instances_manifest(),
            !is_blank(s@),
    {
        proof {
            use_type_invariant(self);
        }
        self.instances_manifest.as_str()
    }
}

impl Clone for ProjectDocumentRefs {
    fn clone(&self) -> (r: Self)
        ensures
            r == *self,
    {
        proof {
            use_type_invariant(self);
        }
        ProjectDocumentRefs {
            active_scene: self.active_scene.clone(),
            assets_manifest: self.assets_manifest.clone(),
            instances_manifest: self.instances_manifest.clone(),
        }
    }
}

impl Default for ProjectDocumentRefs {
    fn default() -> (r: Self)
        ensures
            r.spec_active_scene() == "scenes/main.ktscene"@,
            r.spec_assets_manifest() == "project/assets.ktmanifest"@,
            r.spec_instances_manifest() == "project/instances.ktmanifest"@,
    {
        Self::from_default_layout()
    }
}

/// Returns the crate name for smoke tests and early integration checks.
pub fn crate_name() -> (s: &'static str)
    ensures
        s@ == "kinetik-project"@,
{
    "kinetik-project"
}

} // verus!
