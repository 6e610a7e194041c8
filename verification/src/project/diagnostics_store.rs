//! Deterministic current-health diagnostics store.

use vstd::prelude::*;

use crate::foundation::diagnostics::{
    AgentRepair, Diagnostic, DiagnosticBlockingScope, DiagnosticSeverity, DiagnosticSource,
};
use crate::foundation::id::InstanceGuid;
use crate::text::str_equal;

verus! {

broadcast use vstd::seq_lib::group_seq_properties;

/// A diagnostic selector: which field is compared, and with what.
pub enum DiagnosticQuery<'a> {
    /// Diagnostics of one severity.
    Severity(DiagnosticSeverity),
    /// Diagnostics that block one workflow.
    Blocking(DiagnosticBlockingScope),
    /// Diagnostics produced by one system.
    Source(DiagnosticSource),
    /// Diagnostics located at one instance.
    InstanceGuid(InstanceGuid),
    /// Diagnostics located at one scene path.
    ScenePath(&'a str),
    /// Diagnostics located at one asset path.
    AssetPath(&'a str),
    /// Diagnostics located at one script path.
    ScriptPath(&'a str),
    /// Diagnostics located at one property path.
    PropertyPath(&'a str),
    /// Diagnostics with one agent repair permission.
    AgentRepair(AgentRepair),
}

/// Whether an optional location text is present and equal to `text`.
pub open spec fn located_at(field: Option<String>, text: Seq<char>) -> bool {
    field matches Some(s) && s@ == text
}

impl<'a> DiagnosticQuery<'a> {
    /// Whether `d` is selected by this query.
    pub open spec fn selects(self, d: Diagnostic) -> bool {
        match self {
            DiagnosticQuery::Severity(s) => d.severity == s,
            DiagnosticQuery::Blocking(b) => d.blocking == Some(b),
            DiagnosticQuery::Source(s) => d.source.text() == s.text(),
            DiagnosticQuery::InstanceGuid(g) => d.location.instance_guid == Some(g),
            DiagnosticQuery::ScenePath(p) => located_at(d.location.scene_path, p@),
            DiagnosticQuery::AssetPath(p) => located_at(d.location.asset_path, p@),
            DiagnosticQuery::ScriptPath(p) => located_at(d.location.script_path, p@),
            DiagnosticQuery::PropertyPath(p) => located_at(d.location.property_path, p@),
            DiagnosticQuery::AgentRepair(a) => d.agent_repair == a,
        }
    }

    /// Whether `d` is selected by this query.
    pub fn matches(&self, d: &Diagnostic) -> (r: bool)
        ensures
            r == self.selects(*d),
    {
        match self {
            DiagnosticQuery::Severity(s) => d.severity == *s,
            DiagnosticQuery::Blocking(b) => match d.blocking {
                Some(x) => x == *b,
                None => false,
            },
            DiagnosticQuery::Source(s) => d.source.same_as(*s),
            DiagnosticQuery::InstanceGuid(g) => match d.location.instance_guid {
                Some(x) => x == *g,
                None => false,
            },
            DiagnosticQuery::ScenePath(p) => text_at(&d.location.scene_path, p),
            DiagnosticQuery::AssetPath(p) => text_at(&d.location.asset_path, p),
            DiagnosticQuery::ScriptPath(p) => text_at(&d.location.script_path, p),
            DiagnosticQuery::PropertyPath(p) => text_at(&d.location.property_path, p),
            DiagnosticQuery::AgentRepair(a) => d.agent_repair == *a,
        }
    }
}

fn text_at(field: &Option<String>, text: &str) -> (r: bool)
    ensures
        r == located_at(*field, text@),
{
    match field {
        Some(s) => str_equal(s.as_str(), text),
        None => false,
    }
}

/// The diagnostics themselves behind a list of references.
pub open spec fn derefs(v: Seq<&Diagnostic>) -> Seq<Diagnostic> {
    v.map_values(|d: &Diagnostic| *d)
}

/// Deterministic current-health diagnostics store for project state.
#[derive(Debug, PartialEq, Eq)]
pub struct DiagnosticsStore {
    diagnostics: Vec<Diagnostic>,
}

impl Clone for DiagnosticsStore {
    fn clone(&self) -> (r: Self)
        ensures
            r@ == self@,
    {
        DiagnosticsStore { diagnostics: self.diagnostics.clone() }
    }
}

impl View for DiagnosticsStore {
    type V = Seq<Diagnostic>;

    closed spec fn view(&self) -> Seq<Diagnostic> {
        self.diagnostics@
    }
}

impl DiagnosticsStore {
    /// Creates an empty diagnostics store.
    pub fn new() -> (s: Self)
        ensures
            s@ == Seq::<Diagnostic>::empty(),
    {
        let s = DiagnosticsStore { diagnostics: Vec::new() };
        assert(s@ =~= Seq::<Diagnostic>::empty());
        s
    }

    /// Creates a diagnostics store from deterministic diagnostic order.
    pub fn from_diagnostics(diagnostics: Vec<Diagnostic>) -> (s: Self)
        ensures
            s@ == diagnostics@,
    {
        DiagnosticsStore { diagnostics }
    }

    /// Adds a diagnostic to the store.
    pub fn push(&mut self, diagnostic: Diagnostic)
        ensures
            final(self)@ == old(self)@.push(diagnostic),
    {
        self.diagnostics.push(diagnostic);
    }

    /// Clears all diagnostics.
    pub fn clear(&mut self)
        ensures
            final(self)@ == Seq::<Diagnostic>::empty(),
    {
        self.diagnostics.clear();
    }

    /// Returns all diagnostics in deterministic insertion order.
    pub fn diagnostics(&self) -> (d: &[Diagnostic])
        ensures
            d@ == self@,
    {
        self.diagnostics.as_slice()
    }

    /// Returns the number of current diagnostics.
    pub fn len(&self) -> (n: usize)
        ensures
            n == self@.len(),
    {
        self.diagnostics.len()
    }

    /// Returns whether the store has no diagnostics.
    pub fn is_empty(&self) -> (b: bool)
        ensures
            b == (self@.len() == 0),
    {
        self.diagnostics.len() == 0
    }

    /// Returns the diagnostics a query selects, in deterministic order.
    pub fn select(&self, query: &DiagnosticQuery) -> (r: Vec<&Diagnostic>)
        ensures
            derefs(r@) == self@.filter(|d: Diagnostic| query.selects(d)),
    {
        let ghost pred = |d: Diagnostic| query.selects(d);
        let mut r: Vec<&Diagnostic> = Vec::new();
        let mut i: usize = 0;
        while i < self.diagnostics.len()
            invariant
                i <= self.diagnostics@.len(),
                pred == (|d: Diagnostic| query.selects(d)),
                derefs(r@) == self.diagnostics@.take(i as int).filter(pred),
            decreases self.diagnostics@.len() - i,
        {
            let d = &self.diagnostics[i];
            proof {
                assert(self.diagnostics@.take(i + 1) =~= self.diagnostics@.take(i as int).push(*d));
                self.diagnostics@.take(i as int).lemma_filter_push(*d, pred);
            }
            if query.matches(d) {
                let ghost before = r@;
                r.push(d);
                proof {
                    assert(derefs(r@) =~= derefs(before).push(*d));
                }
            }
            i = i + 1;
        }
        proof {
            assert(self.diagnostics@.take(i as int) =~= self.diagnostics@);
        }
        r
    }

    /// Returns diagnostics matching `severity` in deterministic order.
    pub fn by_severity(&self, severity: DiagnosticSeverity) -> (r: Vec<&Diagnostic>)
        ensures
            derefs(r@) == self@.filter(|d: Diagnostic| d.severity == severity),
    {
        let query = DiagnosticQuery::Severity(severity);
        let r = self.select(&query);
        assert((|d: Diagnostic| query.selects(d)) =~= (|d: Diagnostic| d.severity == severity));
        r
    }

    /// Returns diagnostics matching `blocking` in deterministic order.
    pub fn by_blocking_scope(&self, blocking: DiagnosticBlockingScope) -> (r: Vec<&Diagnostic>)
        ensures
            derefs(r@) == self@.filter(|d: Diagnostic| d.blocking == Some(blocking)),
    {
        let query = DiagnosticQuery::Blocking(blocking);
        let r = self.select(&query);
        assert((|d: Diagnostic| query.selects(d)) =~= (|d: Diagnostic| d.blocking == Some(blocking)));
        r
    }

    /// Returns diagnostics produced by `source` in deterministic order.
    pub fn by_source(&self, source: DiagnosticSource) -> (r: Vec<&Diagnostic>)
        ensures
            derefs(r@) == self@.filter(|d: Diagnostic| d.source.text() == source.text()),
    {
        let query = DiagnosticQuery::Source(source);
        let r = self.select(&query);
        assert((|d: Diagnostic| query.selects(d)) =~= (|d: Diagnostic| d.source.text()
            == source.text()));
        r
    }

    /// Returns diagnostics located at instance `guid` in deterministic order.
    pub fn by_instance_guid(&self, guid: InstanceGuid) -> (r: Vec<&Diagnostic>)
        ensures
            derefs(r@) == self@.filter(|d: Diagnostic| d.location.instance_guid == Some(guid)),
    {
        let query = DiagnosticQuery::InstanceGuid(guid);
        let r = self.select(&query);
        assert((|d: Diagnostic| query.selects(d)) =~= (|d: Diagnostic| d.location.instance_guid
            == Some(guid)));
        r
    }

    /// Returns diagnostics located at scene path `path` in deterministic order.
    pub fn by_scene_path(&self, path: &str) -> (r: Vec<&Diagnostic>)
        ensures
            derefs(r@) == self@.filter(|d: Diagnostic| located_at(d.location.scene_path, path@)),
    {
        let query = DiagnosticQuery::ScenePath(path);
        let r = self.select(&query);
        assert((|d: Diagnostic| query.selects(d)) =~= (|d: Diagnostic| located_at(
            d.location.scene_path,
            path@,
        )));
        r
    }

    /// Returns diagnostics located at asset path `path` in deterministic order.
    pub fn by_asset_path(&self, path: &str) -> (r: Vec<&Diagnostic>)
        ensures
            derefs(r@) == self@.filter(|d: Diagnostic| located_at(d.location.asset_path, path@)),
    {
        let query = DiagnosticQuery::AssetPath(path);
        let r = self.select(&query);
        assert((|d: Diagnostic| query.selects(d)) =~= (|d: Diagnostic| located_at(
            d.location.asset_path,
            path@,
        )));
        r
    }

    /// Returns diagnostics located at script path `path` in deterministic order.
    pub fn by_script_path(&self, path: &str) -> (r: Vec<&Diagnostic>)
        ensures
            derefs(r@) == self@.filter(|d: Diagnostic| located_at(d.location.script_path, path@)),
    {
        let query = DiagnosticQuery::ScriptPath(path);
        let r = self.select(&query);
        assert((|d: Diagnostic| query.selects(d)) =~= (|d: Diagnostic| located_at(
            d.location.script_path,
            path@,
        )));
        r
    }

    /// Returns diagnostics located at property path `path` in deterministic order.
    pub fn by_property_path(&self, path: &str) -> (r: Vec<&Diagnostic>)
        ensures
            derefs(r@) == self@.filter(
                |d: Diagnostic| located_at(d.location.property_path, path@),
            ),
    {
        let query = DiagnosticQuery::PropertyPath(path);
        let r = self.select(&query);
        assert((|d: Diagnostic| query.selects(d)) =~= (|d: Diagnostic| located_at(
            d.location.property_path,
            path@,
        )));
        r
    }

    /// Returns diagnostics with agent repair permission `repair` in deterministic order.
    pub fn by_agent_repair(&self, repair: AgentRepair) -> (r: Vec<&Diagnostic>)
        ensures
            derefs(r@) == self@.filter(|d: Diagnostic| d.agent_repair == repair),
    {
        let query = DiagnosticQuery::AgentRepair(repair);
        let r = self.select(&query);
        assert((|d: Diagnostic| query.selects(d)) =~= (|d: Diagnostic| d.agent_repair == repair));
        r
    }

    /// Removes the diagnostics produced by `source`, keeping the others in order.
    pub fn clear_source(&mut self, source: DiagnosticSource)
        ensures
            final(self)@ == old(self)@.filter(|d: Diagnostic| d.source.text() != source.text()),
    {
        let ghost keep = |d: Diagnostic| d.source.text() != source.text();
        let mut existing: Vec<Diagnostic> = Vec::new();
        std::mem::swap(&mut existing, &mut self.diagnostics);
        let mut kept: Vec<Diagnostic> = Vec::new();
        let mut i: usize = 0;
        while i < existing.len()
            invariant
                0 <= i <= existing.len(),
                existing@ == old(self)@,
                keep == (|d: Diagnostic| d.source.text() != source.text()),
                kept@ == existing@.take(i as int).filter(keep),
            decreases existing.len() - i,
        {
            proof {
                assert(existing@.take(i + 1) =~= existing@.take(i as int).push(existing@[i as int]));
                existing@.take(i as int).lemma_filter_push(existing@[i as int], keep);
            }
            if !existing[i].source.same_as(source) {
                kept.push(existing[i].clone());
            }
            i = i + 1;
        }
        proof {
            assert(existing@.take(i as int) =~= existing@);
        }
        self.diagnostics = kept;
    }

    /// Replaces the diagnostics produced by `source` with `diagnostics`: the
    /// other sources' diagnostics keep their order, and the new ones follow.
    pub fn replace_source(&mut self, source: DiagnosticSource, diagnostics: Vec<Diagnostic>)
        ensures
            final(self)@ == old(self)@.filter(|d: Diagnostic| d.source.text() != source.text())
                + diagnostics@,
    {
        self.clear_source(source);
        let mut diagnostics = diagnostics;
        self.diagnostics.append(&mut diagnostics);
    }
}

proof fn lemma_filter_twice<A>(s: Seq<A>, pred: spec_fn(A) -> bool)
    ensures
        s.filter(pred).filter(pred) == s.filter(pred),
    decreases s.len(),
{
    reveal(Seq::filter);
    if s.len() > 0 {
        lemma_filter_twice(s.drop_last(), pred);
        let f = s.drop_last().filter(pred);
        if pred(s.last()) {
            f.lemma_filter_push(s.last(), pred);
        }
    }
}

/// Clearing a source twice is clearing it once: the second clear finds no
/// diagnostic of that source and changes nothing.
pub proof fn lemma_clear_source_idempotent(diagnostics: Seq<Diagnostic>, source: DiagnosticSource)
    ensures
        ({
            let keep = |d: Diagnostic| d.source.text() != source.text();
            diagnostics.filter(keep).filter(keep) == diagnostics.filter(keep)
        }),
{
    lemma_filter_twice(diagnostics, |d: Diagnostic| d.source.text() != source.text());
}

/// After replacing a source, the store holds that source's replacement
/// diagnostics and nothing else of that source, and every other source's
/// diagnostics as before, in order.
pub proof fn lemma_replace_source_selects(
    diagnostics: Seq<Diagnostic>,
    source: DiagnosticSource,
    replacement: Seq<Diagnostic>,
)
    ensures
        ({
            let keep = |d: Diagnostic| d.source.text() != source.text();
            let own = |d: Diagnostic| d.source.text() == source.text();
            let after = diagnostics.filter(keep) + replacement;
            &&& after.filter(own) == replacement.filter(own)
            &&& after.filter(keep) == diagnostics.filter(keep) + replacement.filter(keep)
        }),
{
    let keep = |d: Diagnostic| d.source.text() != source.text();
    let own = |d: Diagnostic| d.source.text() == source.text();
    let kept = diagnostics.filter(keep);
    Seq::filter_distributes_over_add(kept, replacement, own);
    Seq::filter_distributes_over_add(kept, replacement, keep);
    lemma_filter_twice(diagnostics, keep);
    assert forall|i: int| 0 <= i < kept.len() implies !own(#[trigger] kept[i]) by {
        diagnostics.lemma_filter_pred(keep, i);
    }
    kept.lemma_all_neg_filter_empty(own);
}

impl Default for DiagnosticsStore {
    fn default() -> (s: Self)
        ensures
            s@ == Seq::<Diagnostic>::empty(),
    {
        Self::new()
    }
}

} // verus!
