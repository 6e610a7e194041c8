//! The open project: settings, document references and health diagnostics.

use vstd::prelude::*;

use crate::foundation::diagnostics::{Diagnostic, DiagnosticSource};
use crate::project::diagnostics_store::DiagnosticsStore;
use crate::project::model::{ProjectDocumentRefs, ProjectSettingsDocument};

verus! {

/// The diagnostics that a workspace layout check produces: none when the
/// layout is complete, else the one diagnostic of what is missing.
pub open spec fn layout_diagnostics(layout_diagnostic: Option<Diagnostic>) -> Seq<Diagnostic> {
    match layout_diagnostic {
        None => Seq::empty(),
        Some(d) => seq![d],
    }
}

/// The name of the resource layer, the source of layout diagnostics.
pub open spec fn layout_source_text() -> Seq<char> {
    "Resource"@
}

/// Whether a diagnostic comes from a source other than the resource layer.
pub open spec fn outside_layout_source(d: Diagnostic) -> bool {
    d.source.text() != layout_source_text()
}

/// The project diagnostics after a layout check: those of every other
/// source stay in order, and the resource layer's are replaced by the
/// check's outcome.
pub open spec fn after_layout_check(before: Seq<Diagnostic>, layout_diagnostic: Option<Diagnostic>) -> Seq<
    Diagnostic,
> {
    before.filter(|d: Diagnostic| outside_layout_source(d)) + layout_diagnostics(layout_diagnostic)
}

/// The diagnostic source of the resource layer, which owns the workspace
/// layout check.
pub fn layout_source() -> (s: DiagnosticSource)
    ensures
        s.text() == layout_source_text(),
{
    proof {
        reveal_strlit("Resource");
    }
    DiagnosticSource::new("Resource")
}

/// Project settings, document references and project health diagnostics.
///
/// The workspace layout itself is checked by the resource layer; the model
/// keeps the outcome of the latest check among its diagnostics, beside the
/// diagnostics of every other source.
#[derive(Debug)]
pub struct ProjectModel {
    settings: ProjectSettingsDocument,
    documents: ProjectDocumentRefs,
    diagnostics: DiagnosticsStore,
}

impl ProjectModel {
    /// The project settings.
    pub closed spec fn spec_settings(self) -> ProjectSettingsDocument {
        self.settings
    }

    /// The active project document references.
    pub closed spec fn spec_documents(self) -> ProjectDocumentRefs {
        self.documents
    }

    /// The project health diagnostics, in order.
    pub closed spec fn spec_diagnostics(self) -> Seq<Diagnostic> {
        self.diagnostics@
    }

    /// Creates a project model without running workspace layout validation.
    pub fn new(settings: ProjectSettingsDocument, documents: ProjectDocumentRefs) -> (m: Self)
        ensures
            m.spec_settings() == settings,
            m.spec_documents() == documents,
            m.spec_diagnostics() == Seq::<Diagnostic>::empty(),
    {
        ProjectModel { settings, documents, diagnostics: DiagnosticsStore::new() }
    }

    /// Creates a project model and records the outcome of the workspace
    /// layout check: `layout_diagnostic` is the diagnostic of the missing
    /// required paths, or `None` when the layout is complete.
    pub fn with_layout_validation(
        settings: ProjectSettingsDocument,
        documents: ProjectDocumentRefs,
        layout_diagnostic: Option<Diagnostic>,
    ) -> (m: Self)
        ensures
            m.spec_settings() == settings,
            m.spec_documents() == documents,
            m.spec_diagnostics() == layout_diagnostics(layout_diagnostic),
    {
        let mut model = Self::new(settings, documents);
        model.validate_layout(layout_diagnostic);
        proof {
            reveal(Seq::filter);
            assert(Seq::<Diagnostic>::empty().filter(|d: Diagnostic| outside_layout_source(d))
                =~= Seq::<Diagnostic>::empty());
        }
        model
    }

    /// Records the outcome of a workspace layout check: stale layout
    /// diagnostics of the resource layer are replaced by the new outcome,
    /// and the diagnostics of every other source stay, in order.
    pub fn validate_layout(&mut self, layout_diagnostic: Option<Diagnostic>)
        ensures
            final(self).spec_settings() == old(self).spec_settings(),
            final(self).spec_documents() == old(self).spec_documents(),
            final(self).spec_diagnostics() == after_layout_check(old(self).spec_diagnostics(), layout_diagnostic),
    {
        let mut outcome: Vec<Diagnostic> = Vec::new();
        match layout_diagnostic {
            None => {},
            Some(d) => outcome.push(d),
        }
        let source = layout_source();
        assert(outcome@ =~= layout_diagnostics(layout_diagnostic));
        self.diagnostics.replace_source(source, outcome);
        assert((|d: Diagnostic| d.source.text() != source.text()) =~= (|d: Diagnostic| outside_layout_source(d)));
    }

    /// Records a project health diagnostic after those already present.
    pub fn push_diagnostic(&mut self, diagnostic: Diagnostic)
        ensures
            final(self).spec_settings() == old(self).spec_settings(),
            final(self).spec_documents() == old(self).spec_documents(),
            final(self).spec_diagnostics() == old(self).spec_diagnostics().push(diagnostic),
    {
        self.diagnostics.push(diagnostic);
    }

    /// Returns project settings.
    pub fn settings(&self) -> (s: &ProjectSettingsDocument)
        ensures
            *s == self.spec_settings(),
    {
        &self.settings
    }

    /// Returns active project document references.
    pub fn documents(&self) -> (d: &ProjectDocumentRefs)
        ensures
            *d == self.spec_documents(),
    {
        &self.documents
    }

    /// Returns project health diagnostics.
    pub fn diagnostics(&self) -> (d: &DiagnosticsStore)
        ensures
            d@ == self.spec_diagnostics(),
    {
        &self.diagnostics
    }
}

} // verus!
