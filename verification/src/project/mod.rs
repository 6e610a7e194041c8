//! Project identity, settings, document references, and health contracts.

pub mod diagnostics_store;
pub mod model;
pub mod project_model;

pub use diagnostics_store::{DiagnosticQuery, DiagnosticsStore};
pub use model::{
    crate_name, ProjectDocumentRefs, ProjectError, ProjectIdentity, ProjectResult,
    ProjectSettingsDocument,
};
pub use project_model::ProjectModel;
