//! Read-only dirty-state explanations derived from command history.

use vstd::prelude::*;

use crate::command::change::{texts, CommandChangeRecordView};
use crate::command::history::{
    group_order, history_consistent, history_views, CommandHistory, CommandHistoryView,
    UndoGroupId, UndoRedoRecordView,
};
use crate::command::mode::CommandTargetMode;
use crate::command::result::record_views;
use crate::text::{owned, str_equal};

verus! {

/// The content of a [`DirtyDocumentExplanation`].
pub struct DirtyDocumentView {
    pub document_path: Seq<char>,
    pub summaries: Seq<Seq<char>>,
}

/// The content of a [`DirtyChangeExplanation`].
pub struct DirtyChangeView {
    pub undo_group: UndoGroupId,
    pub target_mode: CommandTargetMode,
    pub command_summary: Seq<char>,
    pub change_summary: Seq<char>,
    pub affected_documents: Seq<Seq<char>>,
}

/// The content of a [`DirtyStateExplanation`].
pub struct DirtyStateView {
    pub documents: Seq<DirtyDocumentView>,
    pub changes: Seq<DirtyChangeView>,
}

/// One reason a document is dirty: the document path and the summary of the
/// change that touched it.
pub type DirtyEvent = (Seq<char>, Seq<char>);

/// The explanation of each change of one history record.
pub open spec fn record_explanations(r: UndoRedoRecordView) -> Seq<DirtyChangeView> {
    r.changes.map_values(
        |c: CommandChangeRecordView|
            DirtyChangeView {
                undo_group: r.group_id,
                target_mode: r.target_mode,
                command_summary: r.summary,
                change_summary: c.dirty_summary,
                affected_documents: c.affected_documents,
            },
    )
}

/// The explanations of all changes of `undo`, in history order.
pub open spec fn dirty_changes(undo: Seq<UndoRedoRecordView>) -> Seq<DirtyChangeView>
    decreases undo.len(),
{
    if undo.len() == 0 {
        Seq::empty()
    } else {
        dirty_changes(undo.drop_last()) + record_explanations(undo.last())
    }
}

/// The dirty events of one change: each affected document with the
/// change's summary.
pub open spec fn change_events(c: CommandChangeRecordView) -> Seq<DirtyEvent> {
    c.affected_documents.map_values(|d: Seq<char>| (d, c.dirty_summary))
}

/// The dirty events of a list of changes, in order.
pub open spec fn changes_events(cs: Seq<CommandChangeRecordView>) -> Seq<DirtyEvent>
    decreases cs.len(),
{
    if cs.len() == 0 {
        Seq::empty()
    } else {
        changes_events(cs.drop_last()) + change_events(cs.last())
    }
}

/// The dirty events of a list of history records, in history order.
pub open spec fn history_events(undo: Seq<UndoRedoRecordView>) -> Seq<DirtyEvent>
    decreases undo.len(),
{
    if undo.len() == 0 {
        Seq::empty()
    } else {
        history_events(undo.drop_last()) + changes_events(undo.last().changes)
    }
}

/// The position of the first document explanation for `path`.
pub open spec fn first_document_index(docs: Seq<DirtyDocumentView>, path: Seq<char>) -> Option<int>
    decreases docs.len(),
{
    if docs.len() == 0 {
        None
    } else {
        let before = first_document_index(docs.drop_last(), path);
        if before is Some {
            before
        } else if docs.last().document_path == path {
            Some(docs.len() - 1)
        } else {
            None
        }
    }
}

/// Records one dirty event: the summary joins the explanation of its
/// document, which is created at the end when the document is new.
pub open spec fn add_event(docs: Seq<DirtyDocumentView>, e: DirtyEvent) -> Seq<DirtyDocumentView> {
    match first_document_index(docs, e.0) {
        Some(i) => docs.update(
            i,
            DirtyDocumentView { document_path: docs[i].document_path, summaries: docs[i].summaries.push(e.1) },
        ),
        None => docs.push(DirtyDocumentView { document_path: e.0, summaries: seq![e.1] }),
    }
}

/// The document explanations built from a sequence of dirty events.
pub open spec fn fold_documents(events: Seq<DirtyEvent>) -> Seq<DirtyDocumentView>
    decreases events.len(),
{
    if events.len() == 0 {
        Seq::empty()
    } else {
        add_event(fold_documents(events.drop_last()), events.last())
    }
}

/// The dirty-state explanation of a command history: its committed undo
/// records, their changes in order, and the documents those changes touched.
pub open spec fn explain(h: CommandHistoryView) -> DirtyStateView {
    DirtyStateView {
        documents: fold_documents(history_events(h.undo)),
        changes: dirty_changes(h.undo),
    }
}

/// Dirty-state explanation for one affected source document.
#[derive(Debug, PartialEq, Eq)]
pub struct DirtyDocumentExplanation {
    document_path: String,
    summaries: Vec<String>,
}

impl View for DirtyDocumentExplanation {
    type V = DirtyDocumentView;

    closed spec fn view(&self) -> DirtyDocumentView {
        DirtyDocumentView { document_path: self.document_path@, summaries: texts(self.summaries@) }
    }
}

impl DirtyDocumentExplanation {
    /// Returns the affected workspace-relative document path.
    pub fn document_path(&self) -> (p: &str)
        ensures
            p@ == self@.document_path,
    {
        self.document_path.as_str()
    }

    /// Returns summaries that explain why this document is dirty.
    pub fn summaries(&self) -> (s: &[String])
        ensures
            texts(s@) == self@.summaries,
    {
        self.summaries.as_slice()
    }
}

/// Dirty-state explanation for one committed semantic change.
#[derive(Debug, PartialEq, Eq)]
pub struct DirtyChangeExplanation {
    undo_group: UndoGroupId,
    target_mode: CommandTargetMode,
    command_summary: String,
    change_summary: String,
    affected_documents: Vec<String>,
}

impl View for DirtyChangeExplanation {
    type V = DirtyChangeView;

    closed spec fn view(&self) -> DirtyChangeView {
        DirtyChangeView {
            undo_group: self.undo_group,
            target_mode: self.target_mode,
            command_summary: self.command_summary@,
            change_summary: self.change_summary@,
            affected_documents: texts(self.affected_documents@),
        }
    }
}

impl DirtyChangeExplanation {
    /// Returns the undo group that produced this dirty change.
    pub fn undo_group(&self) -> (g: UndoGroupId)
        ensures
            g == self@.undo_group,
    {
        self.undo_group
    }

    /// Returns the target mode for the command that produced this change.
    pub fn target_mode(&self) -> (m: CommandTargetMode)
        ensures
            m == self@.target_mode,
    {
        self.target_mode
    }

    /// Returns the user-facing command summary.
    pub fn command_summary(&self) -> (s: &str)
        ensures
            s@ == self@.command_summary,
    {
        self.command_summary.as_str()
    }

    /// Returns the user-facing semantic change summary.
    pub fn change_summary(&self) -> (s: &str)
        ensures
            s@ == self@.change_summary,
    {
        self.change_summary.as_str()
    }

    /// Returns affected source documents in deterministic record order.
    pub fn affected_documents(&self) -> (d: &[String])
        ensures
            texts(d@) == self@.affected_documents,
    {
        self.affected_documents.as_slice()
    }
}

/// The views of a list of document explanations.
pub open spec fn document_views(v: Seq<DirtyDocumentExplanation>) -> Seq<DirtyDocumentView> {
    v.map_values(|d: DirtyDocumentExplanation| d@)
}

/// The views of a list of change explanations.
pub open spec fn change_views(v: Seq<DirtyChangeExplanation>) -> Seq<DirtyChangeView> {
    v.map_values(|d: DirtyChangeExplanation| d@)
}

/// Read-only dirty-state explanation derived from command history.
#[derive(Debug, PartialEq, Eq)]
pub struct DirtyStateExplanation {
    documents: Vec<DirtyDocumentExplanation>,
    changes: Vec<DirtyChangeExplanation>,
}

impl View for DirtyStateExplanation {
    type V = DirtyStateView;

    closed spec fn view(&self) -> DirtyStateView {
        DirtyStateView {
            documents: document_views(self.documents@),
            changes: change_views(self.changes@),
        }
    }
}

proof fn lemma_first_index_found(docs: Seq<DirtyDocumentView>, path: Seq<char>, i: int)
    requires
        0 <= i < docs.len(),
        forall|j: int| 0 <= j < i ==> #[trigger] docs[j].document_path != path,
        docs[i].document_path == path,
    ensures
        first_document_index(docs, path) == Some(i),
    decreases docs.len(),
{
    if i == docs.len() - 1 {
        lemma_first_index_absent(docs.drop_last(), path);
    } else {
        lemma_first_index_found(docs.drop_last(), path, i);
    }
}

proof fn lemma_first_index_absent(docs: Seq<DirtyDocumentView>, path: Seq<char>)
    requires
        forall|j: int| 0 <= j < docs.len() ==> #[trigger] docs[j].document_path != path,
    ensures
        first_document_index(docs, path) is None,
    decreases docs.len(),
{
    if docs.len() > 0 {
        lemma_first_index_absent(docs.drop_last(), path);
    }
}

/// The summaries of the events that touched `path`, in event order.
pub open spec fn summaries_for(events: Seq<DirtyEvent>, path: Seq<char>) -> Seq<Seq<char>>
    decreases events.len(),
{
    if events.len() == 0 {
        Seq::empty()
    } else if events.last().0 == path {
        summaries_for(events.drop_last(), path).push(events.last().1)
    } else {
        summaries_for(events.drop_last(), path)
    }
}

/// Whether some event touched `path`.
pub open spec fn touched(events: Seq<DirtyEvent>, path: Seq<char>) -> bool {
    exists|k: int| 0 <= k < events.len() && #[trigger] events[k].0 == path
}

proof fn lemma_untouched_has_no_summaries(events: Seq<DirtyEvent>, path: Seq<char>)
    requires
        !touched(events, path),
    ensures
        summaries_for(events, path) == Seq::<Seq<char>>::empty(),
    decreases events.len(),
{
    if events.len() > 0 {
        assert(events[events.len() - 1].0 != path);
        assert(!touched(events.drop_last(), path)) by {
            if touched(events.drop_last(), path) {
                let k = choose|k: int| 0 <= k < events.drop_last().len() && #[trigger] events.drop_last()[k].0 == path;
                assert(events[k].0 == path);
            }
        }
        lemma_untouched_has_no_summaries(events.drop_last(), path);
    }
}

/// Dirty documents are explained once each: the explained paths are
/// distinct and are exactly the paths some change touched, and each
/// document's summaries are the summaries of the changes that touched it,
/// in history order.
pub proof fn lemma_dirty_documents_explain_events(events: Seq<DirtyEvent>)
    ensures
        ({
            let docs = fold_documents(events);
            &&& forall|i: int, j: int|
                0 <= i < j < docs.len() ==> (#[trigger] docs[i]).document_path != (
                #[trigger] docs[j]).document_path
            &&& forall|i: int|
                0 <= i < docs.len() ==> (#[trigger] docs[i]).summaries == summaries_for(
                    events,
                    docs[i].document_path,
                )
            &&& forall|path: Seq<char>|
                touched(events, path) <==> exists|i: int|
                    0 <= i < docs.len() && (#[trigger] docs[i]).document_path == path
        }),
    decreases events.len(),
{
    if events.len() > 0 {
        let prev = events.drop_last();
        let e = events.last();
        lemma_dirty_documents_explain_events(prev);
        let before = fold_documents(prev);
        let docs = fold_documents(events);
        assert(docs == add_event(before, e));
        assert forall|path: Seq<char>| touched(events, path) <==> touched(prev, path) || e.0 == path by {
            if touched(events, path) {
                let k = choose|k: int| 0 <= k < events.len() && #[trigger] events[k].0 == path;
                if k < events.len() - 1 {
                    assert(prev[k].0 == path);
                }
            }
            if touched(prev, path) {
                let k = choose|k: int| 0 <= k < prev.len() && #[trigger] prev[k].0 == path;
                assert(events[k].0 == path);
            }
            if e.0 == path {
                assert(events[events.len() - 1].0 == path);
            }
        }
        if exists|i: int| 0 <= i < before.len() && (#[trigger] before[i]).document_path == e.0 {
            let i = choose|i: int| 0 <= i < before.len() && (#[trigger] before[i]).document_path == e.0;
            assert forall|j: int| 0 <= j < i implies #[trigger] before[j].document_path != e.0 by {}
            lemma_first_index_found(before, e.0, i);
            assert forall|k: int| 0 <= k < docs.len() implies (#[trigger] docs[k]).summaries
                == summaries_for(events, docs[k].document_path) by {
                if k != i {
                    assert(docs[k] == before[k]);
                }
            }
        } else {
            assert forall|j: int| 0 <= j < before.len() implies #[trigger] before[j].document_path != e.0 by {}
            lemma_first_index_absent(before, e.0);
            assert(!touched(prev, e.0));
            lemma_untouched_has_no_summaries(prev, e.0);
            assert forall|k: int| 0 <= k < docs.len() implies (#[trigger] docs[k]).summaries
                == summaries_for(events, docs[k].document_path) by {
                if k == before.len() {
                    assert(summaries_for(prev, e.0).push(e.1) =~= seq![e.1]);
                } else {
                    assert(docs[k] == before[k]);
                }
            }
        }
        assert forall|path: Seq<char>| touched(events, path) <==> exists|i: int|
            0 <= i < docs.len() && (#[trigger] docs[i]).document_path == path by {
            assert forall|k: int| 0 <= k < before.len() implies (#[trigger] docs[k]).document_path
                == before[k].document_path by {}
            if touched(prev, path) {
                let i = choose|i: int| 0 <= i < before.len() && (#[trigger] before[i]).document_path == path;
                assert(docs[i].document_path == path);
            }
            if path == e.0 {
                if exists|i: int| 0 <= i < before.len() && (#[trigger] before[i]).document_path == e.0 {
                    let i = choose|i: int| 0 <= i < before.len() && (#[trigger] before[i]).document_path == e.0;
                    assert(docs[i].document_path == path);
                } else {
                    assert(docs[before.len() as int].document_path == path);
                }
            }
            if exists|i: int| 0 <= i < docs.len() && (#[trigger] docs[i]).document_path == path {
                let i = choose|i: int| 0 <= i < docs.len() && (#[trigger] docs[i]).document_path == path;
                if i < before.len() {
                    assert(before[i].document_path == path);
                }
            }
        }
    }
}

/// Dirty documents come in order of first occurrence, and each has at
/// least one summary: any prefix of the events that touches a later
/// document has already touched every earlier one.
pub proof fn lemma_dirty_documents_first_seen_order(events: Seq<DirtyEvent>)
    ensures
        ({
            let docs = fold_documents(events);
            &&& forall|i: int| 0 <= i < docs.len() ==> (#[trigger] docs[i]).summaries.len() > 0
            &&& forall|i: int, j: int, k: int|
                #![trigger docs[i], docs[j], events.take(k)]
                0 <= i < j < docs.len() && 0 <= k <= events.len() && touched(
                    events.take(k),
                    docs[j].document_path,
                ) ==> touched(events.take(k), docs[i].document_path)
        }),
    decreases events.len(),
{
    if events.len() > 0 {
        let prev = events.drop_last();
        let e = events.last();
        lemma_dirty_documents_first_seen_order(prev);
        lemma_dirty_documents_explain_events(prev);
        lemma_dirty_documents_explain_events(events);
        let before = fold_documents(prev);
        let docs = fold_documents(events);
        assert(docs == add_event(before, e));
        let known = exists|i: int| 0 <= i < before.len() && (#[trigger] before[i]).document_path == e.0;
        if known {
            let i0 = choose|i: int| 0 <= i < before.len() && (#[trigger] before[i]).document_path == e.0;
            assert forall|j: int| 0 <= j < i0 implies #[trigger] before[j].document_path != e.0 by {}
            lemma_first_index_found(before, e.0, i0);
        } else {
            assert forall|j: int| 0 <= j < before.len() implies #[trigger] before[j].document_path != e.0 by {}
            lemma_first_index_absent(before, e.0);
        }
        assert forall|i: int| 0 <= i < before.len() implies (#[trigger] docs[i]).document_path
            == before[i].document_path && docs[i].summaries.len() >= before[i].summaries.len() by {}
        assert forall|i: int| 0 <= i < docs.len() implies (#[trigger] docs[i]).summaries.len() > 0 by {
            if i < before.len() {
                assert(before[i].summaries.len() > 0);
            }
        }
        assert forall|i: int, j: int, k: int|
            #![trigger docs[i], docs[j], events.take(k)]
            0 <= i < j < docs.len() && 0 <= k <= events.len() && touched(
                events.take(k),
                docs[j].document_path,
            ) implies touched(events.take(k), docs[i].document_path) by {
            if k <= prev.len() {
                assert(events.take(k) =~= prev.take(k));
                let m = choose|m: int| 0 <= m < prev.take(k).len() && #[trigger] prev.take(k)[m].0
                    == docs[j].document_path;
                assert(prev[m].0 == docs[j].document_path);
                if j >= before.len() {
                    assert(!known);
                    assert(docs[j].document_path == e.0);
                    assert(touched(prev, e.0));
                }
            } else {
                assert(events.take(k) =~= events);
            }
        }
    }
}

/// When every record carries a change, the change explanations of an undo
/// stack are empty exactly when the stack is.
proof fn lemma_dirty_changes_empty(undo: Seq<UndoRedoRecordView>)
    requires
        forall|i: int| 0 <= i < undo.len() ==> (#[trigger] undo[i]).changes.len() > 0,
    ensures
        dirty_changes(undo).len() == 0 <==> undo.len() == 0,
{
    if undo.len() > 0 {
        assert(record_explanations(undo.last()).len() == undo.last().changes.len());
    }
}

/// The dirty state of a consistent history is clean exactly when its undo
/// stack is empty; the redo stack plays no part.
pub proof fn lemma_clean_exactly_without_undo(h: CommandHistoryView)
    requires
        history_consistent(h),
    ensures
        explain(h).changes.len() == 0 <==> h.undo.len() == 0,
        (explain(h).documents.len() == 0 && explain(h).changes.len() == 0) <==> h.undo.len() == 0,
{
    let order = group_order(h);
    assert forall|i: int| 0 <= i < h.undo.len() implies (#[trigger] h.undo[i]).changes.len() > 0 by {
        assert(order[i] == h.undo[i]);
    }
    lemma_dirty_changes_empty(h.undo);
    if h.undo.len() == 0 {
        assert(history_events(h.undo) =~= Seq::<DirtyEvent>::empty());
    }
}

proof fn lemma_changes_events_summaries(cs: Seq<CommandChangeRecordView>)
    ensures
        forall|m: int|
            0 <= m < changes_events(cs).len() ==> exists|q: int|
                0 <= q < cs.len() && #[trigger] cs[q].dirty_summary == (#[trigger] changes_events(cs)[m]).1,
    decreases cs.len(),
{
    if cs.len() > 0 {
        let rest = cs.drop_last();
        lemma_changes_events_summaries(rest);
        let a = changes_events(rest);
        let b = change_events(cs.last());
        assert(changes_events(cs) == a + b);
        assert forall|m: int| 0 <= m < changes_events(cs).len() implies exists|q: int|
            0 <= q < cs.len() && #[trigger] cs[q].dirty_summary == (#[trigger] changes_events(cs)[m]).1 by {
            if m < a.len() {
                assert(changes_events(cs)[m] == a[m]);
                let q = choose|q: int| 0 <= q < rest.len() && #[trigger] rest[q].dirty_summary == (#[trigger] a[m]).1;
                assert(cs[q] == rest[q]);
            } else {
                assert(changes_events(cs)[m] == b[m - a.len()]);
                assert(cs[cs.len() - 1].dirty_summary == b[m - a.len()].1);
            }
        }
    }
}

/// Whether the summary of event `k` of the undo stack is the summary of
/// some change explanation.
spec fn event_summary_explained(undo: Seq<UndoRedoRecordView>, k: int) -> bool {
    exists|j: int|
        0 <= j < dirty_changes(undo).len() && #[trigger] dirty_changes(undo)[j].change_summary
            == history_events(undo)[k].1
}

proof fn lemma_history_events_summaries(undo: Seq<UndoRedoRecordView>)
    ensures
        forall|k: int| 0 <= k < history_events(undo).len() ==> #[trigger] event_summary_explained(undo, k),
    decreases undo.len(),
{
    if undo.len() > 0 {
        let rest = undo.drop_last();
        let r = undo.last();
        lemma_history_events_summaries(rest);
        lemma_changes_events_summaries(r.changes);
        let ea = history_events(rest);
        let eb = changes_events(r.changes);
        let ca = dirty_changes(rest);
        let cb = record_explanations(r);
        assert(history_events(undo) == ea + eb);
        assert(dirty_changes(undo) == ca + cb);
        assert forall|k: int| 0 <= k < history_events(undo).len() implies #[trigger] event_summary_explained(
            undo,
            k,
        ) by {
            if k < ea.len() {
                assert(event_summary_explained(rest, k));
                assert(history_events(undo)[k] == ea[k]);
                let j = choose|j: int| 0 <= j < ca.len() && #[trigger] ca[j].change_summary == ea[k].1;
                assert(dirty_changes(undo)[j] == ca[j]);
                assert(dirty_changes(undo)[j].change_summary == history_events(undo)[k].1);
            } else {
                assert(history_events(undo)[k] == eb[k - ea.len()]);
                let q = choose|q: int|
                    0 <= q < r.changes.len() && #[trigger] r.changes[q].dirty_summary == (#[trigger] eb[k - ea.len()]).1;
                let j = ca.len() + q;
                assert(dirty_changes(undo)[j] == cb[q]);
                assert(cb[q].change_summary == r.changes[q].dirty_summary);
                assert(dirty_changes(undo)[j].change_summary == history_events(undo)[k].1);
            }
        }
    }
}

/// Whether some event carries `summary`.
spec fn summary_of_some_event(events: Seq<DirtyEvent>, summary: Seq<char>) -> bool {
    exists|m: int| 0 <= m < events.len() && #[trigger] events[m].1 == summary
}

proof fn lemma_summaries_for_come_from_events(events: Seq<DirtyEvent>, path: Seq<char>)
    ensures
        forall|k: int|
            0 <= k < summaries_for(events, path).len() ==> summary_of_some_event(
                events,
                #[trigger] summaries_for(events, path)[k],
            ),
    decreases events.len(),
{
    if events.len() > 0 {
        let rest = events.drop_last();
        lemma_summaries_for_come_from_events(rest, path);
        let sr = summaries_for(rest, path);
        assert forall|k: int| 0 <= k < summaries_for(events, path).len() implies summary_of_some_event(
            events,
            #[trigger] summaries_for(events, path)[k],
        ) by {
            if k < sr.len() {
                assert(summaries_for(events, path)[k] == sr[k]);
                assert(summary_of_some_event(rest, sr[k]));
                let m = choose|m: int| 0 <= m < rest.len() && #[trigger] rest[m].1 == sr[k];
                assert(events[m] == rest[m]);
            } else {
                assert(events[events.len() - 1].1 == summaries_for(events, path)[k]);
            }
        }
    }
}

/// Whether some change explanation carries `summary`.
pub open spec fn summary_of_some_change(changes: Seq<DirtyChangeView>, summary: Seq<char>) -> bool {
    exists|j: int| 0 <= j < changes.len() && #[trigger] changes[j].change_summary == summary
}

/// Every summary of a dirty document is the summary of some explained
/// change.
pub proof fn lemma_document_summaries_come_from_changes(h: CommandHistoryView)
    ensures
        ({
            let e = explain(h);
            forall|i: int, k: int|
                0 <= i < e.documents.len() && 0 <= k < e.documents[i].summaries.len()
                    ==> summary_of_some_change(e.changes, #[trigger] e.documents[i].summaries[k])
        }),
{
    let events = history_events(h.undo);
    let e = explain(h);
    lemma_dirty_documents_explain_events(events);
    lemma_history_events_summaries(h.undo);
    assert forall|i: int, k: int|
        0 <= i < e.documents.len() && 0 <= k < e.documents[i].summaries.len()
            implies summary_of_some_change(e.changes, #[trigger] e.documents[i].summaries[k]) by {
        let path = e.documents[i].document_path;
        assert(e.documents[i].summaries == summaries_for(events, path));
        lemma_summaries_for_come_from_events(events, path);
        assert(summary_of_some_event(events, summaries_for(events, path)[k]));
        let m = choose|m: int| 0 <= m < events.len() && #[trigger] events[m].1 == summaries_for(events, path)[k];
        assert(event_summary_explained(h.undo, m));
        let j = choose|j: int|
            0 <= j < dirty_changes(h.undo).len() && #[trigger] dirty_changes(h.undo)[j].change_summary
                == events[m].1;
        assert(e.changes[j].change_summary == e.documents[i].summaries[k]);
    }
}

fn copy_texts(s: &[String]) -> (r: Vec<String>)
    ensures
        texts(r@) == texts(s@),
{
    let mut r: Vec<String> = Vec::new();
    let mut i: usize = 0;
    while i < s.len()
        invariant
            i <= s@.len(),
            texts(r@) == texts(s@).take(i as int),
        decreases s@.len() - i,
    {
        let ghost before = r@;
        r.push(s[i].clone());
        proof {
            assert(r@ =~= before.push(s@[i as int]));
            assert(texts(s@)[i as int] == s@[i as int]@);
            assert(texts(before.push(s@[i as int])) =~= texts(before).push(s@[i as int]@));
            assert(texts(r@) =~= texts(s@).take(i + 1));
        }
        i = i + 1;
    }
    proof {
        assert(texts(s@).take(i as int) =~= texts(s@));
    }
    r
}

fn push_document_summary(
    documents: &mut Vec<DirtyDocumentExplanation>,
    document_path: &str,
    summary: &str,
)
    ensures
        document_views(final(documents)@) == add_event(
            document_views(old(documents)@),
            (document_path@, summary@),
        ),
{
    let ghost docs = document_views(documents@);
    let mut i: usize = 0;
    while i < documents.len()
        invariant
            i <= documents@.len(),
            docs == document_views(documents@),
            documents@ == old(documents)@,
            forall|j: int| 0 <= j < i ==> #[trigger] docs[j].document_path != document_path@,
        decreases documents@.len() - i,
    {
        if str_equal(documents[i].document_path.as_str(), document_path) {
            proof {
                lemma_first_index_found(docs, document_path@, i as int);
            }
            let mut document = documents.remove(i);
            assert(document@ == docs[i as int]);
            let ghost old_summaries = document.summaries@;
            document.summaries.push(owned(summary));
            proof {
                assert(document.summaries@ =~= old_summaries.push(document.summaries@.last()));
                assert(texts(old_summaries.push(document.summaries@.last())) =~= texts(
                    old_summaries,
                ).push(summary@));
            }
            let ghost updated = document@;
            documents.insert(i, document);
            proof {
                assert(updated.summaries =~= docs[i as int].summaries.push(summary@));
                assert(updated == DirtyDocumentView {
                    document_path: docs[i as int].document_path,
                    summaries: docs[i as int].summaries.push(summary@),
                });
                assert(document_views(documents@) =~= docs.update(i as int, updated));
            }
            return;
        }
        i = i + 1;
    }
    proof {
        lemma_first_index_absent(docs, document_path@);
    }
    let mut summaries: Vec<String> = Vec::new();
    summaries.push(owned(summary));
    let document = DirtyDocumentExplanation { document_path: owned(document_path), summaries };
    proof {
        assert(texts(summaries@) =~= seq![summary@]);
    }
    documents.push(document);
    proof {
        assert(document_views(documents@) =~= docs.push(document@));
    }
}

impl DirtyStateExplanation {
    /// Creates a dirty-state explanation from committed undo history: every
    /// change of the undo stack in history order, and every document they
    /// touched in first-seen order with the summaries of the changes that
    /// touched it.
    pub fn from_history(history: &CommandHistory) -> (e: Self)
        ensures
            e@ == explain(history@),
            (e@.documents.len() == 0 && e@.changes.len() == 0) <==> history@.undo.len() == 0,
    {
        let undo = history.undo_stack();
        let ghost u = history@.undo;
        let mut documents: Vec<DirtyDocumentExplanation> = Vec::new();
        let mut changes: Vec<DirtyChangeExplanation> = Vec::new();
        proof {
            assert(document_views(documents@) =~= fold_documents(history_events(u.take(0))));
            assert(change_views(changes@) =~= dirty_changes(u.take(0)));
        }
        let mut i: usize = 0;
        while i < undo.len()
            invariant
                i <= undo@.len(),
                history_views(undo@) == u,
                document_views(documents@) == fold_documents(history_events(u.take(i as int))),
                change_views(changes@) == dirty_changes(u.take(i as int)),
            decreases undo@.len() - i,
        {
            let record = &undo[i];
            let ghost r = u[i as int];
            assert(record@ == r);
            let record_changes = record.changes();
            let ghost cs = r.changes;
            let ghost base_events = history_events(u.take(i as int));
            let ghost base_changes = dirty_changes(u.take(i as int));
            proof {
                assert(base_events + changes_events(cs.take(0)) =~= base_events);
                assert(base_changes + record_explanations(r).take(0) =~= base_changes);
            }
            let mut j: usize = 0;
            while j < record_changes.len()
                invariant
                    j <= record_changes@.len(),
                    record_views(record_changes@) == cs,
                    cs == r.changes,
                    record@ == r,
                    document_views(documents@) == fold_documents(
                        base_events + changes_events(cs.take(j as int)),
                    ),
                    change_views(changes@) == base_changes + record_explanations(r).take(j as int),
                decreases record_changes@.len() - j,
            {
                let change = &record_changes[j];
                let ghost c = cs[j as int];
                assert(change@ == c);
                let affected = change.affected_documents();
                let summary = change.dirty_summary();
                let ghost prefix = base_events + changes_events(cs.take(j as int));
                proof {
                    assert(prefix + change_events(c).take(0) =~= prefix);
                }
                let mut k: usize = 0;
                while k < affected.len()
                    invariant
                        k <= affected@.len(),
                        texts(affected@) == c.affected_documents,
                        summary@ == c.dirty_summary,
                        record@ == r,
                        record_views(record_changes@) == cs,
                        cs == r.changes,
                        j < cs.len(),
                        c == cs[j as int],
                        document_views(documents@) == fold_documents(
                            prefix + change_events(c).take(k as int),
                        ),
                    decreases affected@.len() - k,
                {
                    push_document_summary(&mut documents, affected[k].as_str(), summary);
                    proof {
                        let before = prefix + change_events(c).take(k as int);
                        let after = prefix + change_events(c).take(k + 1);
                        assert(texts(affected@)[k as int] == affected@[k as int]@);
                        assert(after.drop_last() =~= before);
                        assert(after.last() == (affected@[k as int]@, summary@));
                    }
                    k = k + 1;
                }
                proof {
                    assert(change_events(c).take(k as int) =~= change_events(c));
                    assert(cs.take(j + 1).drop_last() =~= cs.take(j as int));
                    assert(prefix + change_events(c) =~= base_events + changes_events(
                        cs.take(j + 1),
                    ));
                }
                let explanation = DirtyChangeExplanation {
                    undo_group: record.group_id(),
                    target_mode: record.target_mode(),
                    command_summary: owned(record.summary()),
                    change_summary: owned(summary),
                    affected_documents: copy_texts(affected),
                };
                let ghost before = changes@;
                changes.push(explanation);
                proof {
                    assert(changes@ =~= before.push(explanation));
                    assert(change_views(changes@) =~= change_views(before).push(explanation@));
                    assert(record_explanations(r)[j as int] == explanation@);
                    assert(base_changes + record_explanations(r).take(j + 1) =~= (base_changes
                        + record_explanations(r).take(j as int)).push(explanation@));
                }
                j = j + 1;
            }
            proof {
                assert(cs.take(j as int) =~= cs);
                assert(record_explanations(r).take(j as int) =~= record_explanations(r));
                assert(u.take(i + 1).drop_last() =~= u.take(i as int));
                assert(u.take(i + 1).last() == r);
            }
            i = i + 1;
        }
        proof {
            assert(u.take(i as int) =~= u);
        }
        proof {
            lemma_clean_exactly_without_undo(history@);
        }
        DirtyStateExplanation { documents, changes }
    }

    /// Returns whether the explanation has no dirty documents or changes.
    pub fn is_clean(&self) -> (b: bool)
        ensures
            b == (self@.documents.len() == 0 && self@.changes.len() == 0),
    {
        self.documents.len() == 0 && self.changes.len() == 0
    }

    /// Returns dirty document explanations in deterministic first-seen order.
    pub fn documents(&self) -> (d: &[DirtyDocumentExplanation])
        ensures
            document_views(d@) == self@.documents,
    {
        self.documents.as_slice()
    }

    /// Returns dirty change explanations in deterministic command history order.
    pub fn changes(&self) -> (c: &[DirtyChangeExplanation])
        ensures
            change_views(c@) == self@.changes,
    {
        self.changes.as_slice()
    }
}

} // verus!
