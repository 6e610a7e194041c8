//! Deterministic undo/redo history of committed commands.

use vstd::prelude::*;

use crate::command::change::{CommandChangeRecord, CommandChangeRecordView};
use crate::command::error::{validate_dirty_summary, CommandError, CommandModelResult};
use crate::command::mode::{CommandStatus, CommandTargetMode};
use crate::command::result::{record_views, CommandResult, CommandResultView};
use crate::text::{decimal, decimal_string, is_blank, join3};

verus! {

/// User-facing undo group identity; never zero.
#[derive(Debug, Copy, Clone, PartialEq, Eq, Structural, Hash, PartialOrd, Ord)]
pub struct UndoGroupId {
    raw: u64,
}

impl UndoGroupId {
    /// The raw value of this ID.
    pub closed spec fn value(self) -> u64 {
        self.raw
    }

    #[verifier::type_invariant]
    spec fn non_zero(self) -> bool {
        self.raw != 0
    }

    /// Undo group IDs are identified by their raw value.
    pub proof fn lemma_value_injective(a: UndoGroupId, b: UndoGroupId)
        ensures
            a.value() == b.value() <==> a == b,
    {
    }

    /// Creates an undo group ID from a non-zero raw value.
    pub fn new(raw: u64) -> (id: Self)
        requires
            raw != 0,
        ensures
            id.value() == raw,
    {
        UndoGroupId { raw }
    }

    /// Returns the raw non-zero ID value.
    pub fn raw(self) -> (r: u64)
        ensures
            r == self.value(),
            r != 0,
    {
        proof {
            use_type_invariant(&self);
        }
        self.raw
    }

    /// Display text, such as `UndoGroupId(7)`.
    pub fn to_string(self) -> (s: String)
        ensures
            s@ == "UndoGroupId("@ + decimal(self.value() as nat) + ")"@,
    {
        let digits = decimal_string(self.raw);
        join3("UndoGroupId(", digits.as_str(), ")")
    }
}

/// The content of an [`UndoRedoRecord`].
pub struct UndoRedoRecordView {
    pub group_id: UndoGroupId,
    pub target_mode: CommandTargetMode,
    pub summary: Seq<char>,
    pub changes: Seq<CommandChangeRecordView>,
}

/// Undoable command history record. Its summary is never blank.
#[derive(Debug, PartialEq)]
pub struct UndoRedoRecord {
    group_id: UndoGroupId,
    target_mode: CommandTargetMode,
    summary: String,
    changes: Vec<CommandChangeRecord>,
}

impl View for UndoRedoRecord {
    type V = UndoRedoRecordView;

    closed spec fn view(&self) -> UndoRedoRecordView {
        UndoRedoRecordView {
            group_id: self.group_id,
            target_mode: self.target_mode,
            summary: self.summary@,
            changes: record_views(self.changes@),
        }
    }
}

impl UndoRedoRecord {
    #[verifier::type_invariant]
    spec fn well_formed(self) -> bool {
        !is_blank(self.summary@)
    }

    /// Creates an undoable command history record.
    pub fn new(
        group_id: UndoGroupId,
        target_mode: CommandTargetMode,
        summary: &str,
        changes: Vec<CommandChangeRecord>,
    ) -> (r: CommandModelResult<Self>)
        ensures
            is_blank(summary@) ==> r is Err && r->Err_0@ is EmptyDirtySummary,
            !is_blank(summary@) ==> r is Ok && r->Ok_0@ == (UndoRedoRecordView {
                group_id,
                target_mode,
                summary: summary@,
                changes: record_views(changes@),
            }),
    {
        let summary = validate_dirty_summary(summary)?;
        Ok(UndoRedoRecord { group_id, target_mode, summary, changes })
    }

    /// Returns the undo group ID.
    pub fn group_id(&self) -> (g: UndoGroupId)
        ensures
            g == self@.group_id,
    {
        self.group_id
    }

    /// Returns the command target mode.
    pub fn target_mode(&self) -> (m: CommandTargetMode)
        ensures
            m == self@.target_mode,
    {
        self.target_mode
    }

    /// Returns the user-facing undo/redo summary.
    pub fn summary(&self) -> (s: &str)
        ensures
            s@ == self@.summary,
    {
        self.summary.as_str()
    }

    /// Returns semantic changes in deterministic command execution order.
    pub fn changes(&self) -> (c: &[CommandChangeRecord])
        ensures
            record_views(c@) == self@.changes,
    {
        self.changes.as_slice()
    }
}

impl Clone for UndoRedoRecord {
    fn clone(&self) -> (r: Self)
        ensures
            r@ == self@,
    {
        proof {
            use_type_invariant(self);
        }
        let mut changes: Vec<CommandChangeRecord> = Vec::new();
        let mut i: usize = 0;
        while i < self.changes.len()
            invariant
                i <= self.changes@.len(),
                record_views(changes@) == record_views(self.changes@).take(i as int),
            decreases self.changes@.len() - i,
        {
            let c = self.changes[i].clone();
            let ghost before = changes@;
            changes.push(c);
            proof {
                assert(record_views(self.changes@)[i as int] == self.changes@[i as int]@);
                assert(changes@ =~= before.push(c));
                assert(record_views(before.push(c)) =~= record_views(before).push(c@));
                assert(record_views(changes@) =~= record_views(self.changes@).take(i + 1));
            }
            i = i + 1;
        }
        proof {
            assert(record_views(self.changes@).take(i as int) =~= record_views(self.changes@));
        }
        UndoRedoRecord {
            group_id: self.group_id,
            target_mode: self.target_mode,
            summary: self.summary.clone(),
            changes,
        }
    }
}

/// The content of a [`CommandHistory`].
pub struct CommandHistoryView {
    pub undo: Seq<UndoRedoRecordView>,
    pub redo: Seq<UndoRedoRecordView>,
    pub next_group: u64,
}

/// The views of a list of history records.
pub open spec fn history_views(v: Seq<UndoRedoRecord>) -> Seq<UndoRedoRecordView> {
    v.map_values(|r: UndoRedoRecord| r@)
}

/// Undo group IDs in chronological commit order: the undo stack bottom to
/// top, then the redo stack top to bottom.
pub open spec fn group_order(h: CommandHistoryView) -> Seq<UndoRedoRecordView> {
    h.undo + h.redo.reverse()
}

/// Every change of a record belongs to the record's undo group.
pub open spec fn changes_in_group(r: UndoRedoRecordView) -> bool {
    forall|j: int| 0 <= j < r.changes.len() ==> #[trigger] r.changes[j].undo_group == Some(r.group_id)
}

/// The history invariant: group IDs in chronological order are strictly
/// increasing and below the next group ID to assign, which is at least one,
/// every record carries at least one change, and every change belongs to its
/// record's group.
pub open spec fn history_consistent(h: CommandHistoryView) -> bool {
    let order = group_order(h);
    &&& h.next_group >= 1
    &&& forall|i: int, j: int|
        0 <= i < j < order.len() ==> #[trigger] order[i].group_id.value()
            < #[trigger] order[j].group_id.value()
    &&& forall|i: int| 0 <= i < order.len() ==> #[trigger] order[i].group_id.value() < h.next_group
    &&& forall|i: int| 0 <= i < order.len() ==> #[trigger] changes_in_group(order[i])
    &&& forall|i: int| 0 <= i < order.len() ==> (#[trigger] order[i]).changes.len() > 0
}

/// Whether committing `result` adds an undo record: it succeeded, has a
/// target mode and carries at least one change.
pub open spec fn is_undoable(result: CommandResultView) -> bool {
    &&& result.status == CommandStatus::Succeeded
    &&& result.changes.len() > 0
    &&& result.target_mode is Some
}

/// The history after undoing: the newest undo record moves to the top of
/// the redo stack.
pub open spec fn undone(h: CommandHistoryView) -> CommandHistoryView {
    CommandHistoryView {
        undo: h.undo.drop_last(),
        redo: h.redo.push(h.undo.last()),
        next_group: h.next_group,
    }
}

/// The history after redoing: the top redo record moves back to the top of
/// the undo stack.
pub open spec fn redone(h: CommandHistoryView) -> CommandHistoryView {
    CommandHistoryView {
        undo: h.undo.push(h.redo.last()),
        redo: h.redo.drop_last(),
        next_group: h.next_group,
    }
}

/// Redo undoes an undo: undoing then redoing restores the history exactly.
pub proof fn lemma_redo_after_undo(h: CommandHistoryView)
    requires
        h.undo.len() > 0,
    ensures
        redone(undone(h)) == h,
{
    assert(h.undo.drop_last().push(h.undo.last()) =~= h.undo);
    assert(h.redo.push(h.undo.last()).drop_last() =~= h.redo);
}

/// Undo undoes a redo: redoing then undoing restores the history exactly.
pub proof fn lemma_undo_after_redo(h: CommandHistoryView)
    requires
        h.redo.len() > 0,
    ensures
        undone(redone(h)) == h,
{
    assert(h.redo.drop_last().push(h.redo.last()) =~= h.redo);
    assert(h.undo.push(h.redo.last()).drop_last() =~= h.undo);
}

/// Undo and redo never change the chronological order of the records nor
/// the next group ID: the records read oldest to newest stay the same.
pub proof fn lemma_undo_redo_keep_group_order(h: CommandHistoryView)
    ensures
        h.undo.len() > 0 ==> group_order(undone(h)) == group_order(h),
        h.redo.len() > 0 ==> group_order(redone(h)) == group_order(h),
{
    if h.undo.len() > 0 {
        lemma_push_reverse(h.redo, h.undo.last());
        assert(h.undo.drop_last() + h.redo.push(h.undo.last()).reverse() =~= h.undo + h.redo.reverse());
    }
    if h.redo.len() > 0 {
        lemma_push_reverse(h.redo.drop_last(), h.redo.last());
        assert(h.redo.drop_last().push(h.redo.last()) =~= h.redo);
        assert(h.undo.push(h.redo.last()) + h.redo.drop_last().reverse() =~= h.undo + h.redo.reverse());
    }
}

/// Deterministic command history stacks for undo and redo.
#[derive(Debug, PartialEq)]
pub struct CommandHistory {
    undo_stack: Vec<UndoRedoRecord>,
    redo_stack: Vec<UndoRedoRecord>,
    next_undo_group_id: u64,
}

impl View for CommandHistory {
    type V = CommandHistoryView;

    closed spec fn view(&self) -> CommandHistoryView {
        CommandHistoryView {
            undo: history_views(self.undo_stack@),
            redo: history_views(self.redo_stack@),
            next_group: self.next_undo_group_id,
        }
    }
}

proof fn lemma_push_reverse<A>(s: Seq<A>, x: A)
    ensures
        s.push(x).reverse() =~= seq![x] + s.reverse(),
{
    assert forall|i: int| 0 <= i < s.len() + 1 implies #[trigger] s.push(x).reverse()[i] == (
    seq![x] + s.reverse())[i] by {
        if i == 0 {
        } else {
        }
    }
}

/// Pushing a record with the next group ID onto a consistent history and
/// clearing its redo stack keeps the history invariant.
proof fn lemma_commit_consistent(h: CommandHistoryView, record: UndoRedoRecordView, next: u64)
    requires
        history_consistent(h),
        record.group_id.value() == h.next_group,
        next == h.next_group + 1,
        changes_in_group(record),
        record.changes.len() > 0,
    ensures
        history_consistent(
            CommandHistoryView { undo: h.undo.push(record), redo: Seq::empty(), next_group: next },
        ),
{
    let n = CommandHistoryView { undo: h.undo.push(record), redo: Seq::empty(), next_group: next };
    let old_order = group_order(h);
    let order = group_order(n);
    assert(n.redo.reverse() =~= Seq::<UndoRedoRecordView>::empty());
    assert(order =~= h.undo.push(record));
    assert forall|k: int| 0 <= k < h.undo.len() implies h.undo[k] == #[trigger] old_order[k] by {}
    assert forall|i: int, j: int| 0 <= i < j < order.len() implies #[trigger] order[i].group_id.value()
        < #[trigger] order[j].group_id.value() by {
        assert(order[i] == old_order[i]);
        if j < h.undo.len() {
            assert(order[j] == old_order[j]);
        }
    }
    assert forall|i: int| 0 <= i < order.len() implies #[trigger] order[i].group_id.value() < next by {
        if i < h.undo.len() {
            assert(order[i] == old_order[i]);
        }
    }
    assert forall|i: int| 0 <= i < order.len() implies #[trigger] changes_in_group(order[i]) by {
        if i < h.undo.len() {
            assert(order[i] == old_order[i]);
        }
    }
    assert forall|i: int| 0 <= i < order.len() implies (#[trigger] order[i]).changes.len() > 0 by {
        if i < h.undo.len() {
            assert(order[i] == old_order[i]);
        }
    }
}

impl CommandHistory {
    #[verifier::type_invariant]
    spec fn well_formed(self) -> bool {
        history_consistent(self@)
    }

    /// Creates an empty command history whose first undo group will be 1.
    pub fn new() -> (h: Self)
        ensures
            h@.undo.len() == 0,
            h@.redo.len() == 0,
            h@.next_group == 1,
    {
        let h = CommandHistory { undo_stack: Vec::new(), redo_stack: Vec::new(), next_undo_group_id: 1 };
        assert(h@.undo =~= Seq::<UndoRedoRecordView>::empty());
        assert(h@.redo =~= Seq::<UndoRedoRecordView>::empty());
        assert(group_order(h@) =~= Seq::<UndoRedoRecordView>::empty());
        h
    }

    /// Commits a successful command result as an undoable history record.
    ///
    /// Failed results, results without a target mode, and successful results
    /// without changes are not undoable: they return `None` and leave the
    /// history unchanged. Otherwise the next undo group is assigned to the
    /// record and to each of its changes, the record is pushed on the undo
    /// stack, and the redo stack is cleared. A blank summary is rejected
    /// after the group ID has been consumed.
    pub fn commit_result(&mut self, summary: &str, result: &CommandResult) -> (r: CommandModelResult<
        Option<UndoRedoRecord>,
    >)
        requires
            is_undoable(result@) ==> old(self)@.next_group < u64::MAX,
        ensures
            !is_undoable(result@) ==> r is Ok && r->Ok_0 is None && final(self)@ == old(self)@,
            is_undoable(result@) && is_blank(summary@) ==> r is Err && r->Err_0@ is EmptyDirtySummary
                && final(self)@ == (CommandHistoryView {
                next_group: (old(self)@.next_group + 1) as u64,
                ..old(self)@
            }),
            is_undoable(result@) && !is_blank(summary@) ==> r is Ok && r->Ok_0 is Some && ({
                let record = r->Ok_0->0@;
                &&& record.group_id.value() == old(self)@.next_group
                &&& record.target_mode == result@.target_mode->0
                &&& record.summary == summary@
                &&& record.changes == result@.changes.map_values(
                    |c: CommandChangeRecordView| c.in_group(record.group_id),
                )
                &&& final(self)@ == (CommandHistoryView {
                    undo: old(self)@.undo.push(record),
                    redo: Seq::empty(),
                    next_group: (old(self)@.next_group + 1) as u64,
                })
            }),
    {
        proof {
            use_type_invariant(&*self);
        }
        if !result.is_success() || result.changes().len() == 0 {
            return Ok(None);
        }
        let target_mode = match result.target_mode() {
            None => {
                return Ok(None);
            },
            Some(mode) => mode,
        };
        let mut taken = CommandHistory::new();
        core::mem::swap(self, &mut taken);
        let CommandHistory { undo_stack, redo_stack, next_undo_group_id } = taken;
        let group_id = UndoGroupId::new(next_undo_group_id);
        let next = next_undo_group_id + 1;
        let source = result.changes();
        let mut changes: Vec<CommandChangeRecord> = Vec::new();
        let mut i: usize = 0;
        while i < source.len()
            invariant
                i <= source@.len(),
                record_views(source@) == result@.changes,
                record_views(changes@) == result@.changes.take(i as int).map_values(
                    |c: CommandChangeRecordView| c.in_group(group_id),
                ),
            decreases source@.len() - i,
        {
            let change = source[i].clone().with_undo_group(group_id);
            let ghost before = changes@;
            changes.push(change);
            proof {
                assert(record_views(source@)[i as int] == source@[i as int]@);
                assert(changes@ =~= before.push(change));
                assert(record_views(before.push(change)) =~= record_views(before).push(change@));
                assert(record_views(changes@) =~= result@.changes.take(i + 1).map_values(
                    |c: CommandChangeRecordView| c.in_group(group_id),
                ));
            }
            i = i + 1;
        }
        proof {
            assert(result@.changes.take(i as int) =~= result@.changes);
        }
        let record = match UndoRedoRecord::new(group_id, target_mode, summary, changes) {
            Err(e) => {
                *self = CommandHistory { undo_stack, redo_stack, next_undo_group_id: next };
                return Err(e);
            },
            Ok(record) => record,
        };
        let copy = record.clone();
        let mut undo_stack = undo_stack;
        let ghost old_undo = history_views(undo_stack@);
        let ghost old_order = group_order(old(self)@);
        undo_stack.push(copy);
        proof {
            assert(history_views(undo_stack@) =~= old_undo.push(record@));
            assert forall|j: int| 0 <= j < record@.changes.len() implies #[trigger]
                record@.changes[j].undo_group == Some(record@.group_id) by {}
            lemma_commit_consistent(old(self)@, record@, next);
        }
        let empty: Vec<UndoRedoRecord> = Vec::new();
        assert(history_views(empty@) =~= Seq::<UndoRedoRecordView>::empty());
        *self = CommandHistory { undo_stack, redo_stack: empty, next_undo_group_id: next };
        proof {
            assert(self@.redo =~= Seq::<UndoRedoRecordView>::empty());
        }
        Ok(Some(record))
    }

    /// Moves the most recent undo record to the redo stack and returns it.
    pub fn pop_undo(&mut self) -> (r: Option<UndoRedoRecord>)
        ensures
            old(self)@.undo.len() == 0 ==> r is None && final(self)@ == old(self)@,
            old(self)@.undo.len() > 0 ==> r is Some && r->0@ == old(self)@.undo.last()
                && final(self)@ == undone(old(self)@),
    {
        proof {
            use_type_invariant(&*self);
        }
        if self.undo_stack.len() == 0 {
            return None;
        }
        let mut taken = CommandHistory::new();
        core::mem::swap(self, &mut taken);
        let CommandHistory { undo_stack, redo_stack, next_undo_group_id } = taken;
        let mut undo_stack = undo_stack;
        let mut redo_stack = redo_stack;
        let ghost u = history_views(undo_stack@);
        let ghost d = history_views(redo_stack@);
        let record = undo_stack.pop().unwrap();
        let copy = record.clone();
        redo_stack.push(record);
        proof {
            assert(history_views(undo_stack@) =~= u.drop_last());
            assert(history_views(redo_stack@) =~= d.push(u.last()));
            lemma_push_reverse(d, u.last());
            assert(u.drop_last() + d.push(u.last()).reverse() =~= u + d.reverse());
        }
        *self = CommandHistory { undo_stack, redo_stack, next_undo_group_id };
        Some(copy)
    }

    /// Moves the most recent redo record back to the undo stack and returns it.
    pub fn pop_redo(&mut self) -> (r: Option<UndoRedoRecord>)
        ensures
            old(self)@.redo.len() == 0 ==> r is None && final(self)@ == old(self)@,
            old(self)@.redo.len() > 0 ==> r is Some && r->0@ == old(self)@.redo.last()
                && final(self)@ == redone(old(self)@),
    {
        proof {
            use_type_invariant(&*self);
        }
        if self.redo_stack.len() == 0 {
            return None;
        }
        let mut taken = CommandHistory::new();
        core::mem::swap(self, &mut taken);
        let CommandHistory { undo_stack, redo_stack, next_undo_group_id } = taken;
        let mut undo_stack = undo_stack;
        let mut redo_stack = redo_stack;
        let ghost u = history_views(undo_stack@);
        let ghost d = history_views(redo_stack@);
        let record = redo_stack.pop().unwrap();
        let copy = record.clone();
        undo_stack.push(record);
        proof {
            assert(history_views(redo_stack@) =~= d.drop_last());
            assert(history_views(undo_stack@) =~= u.push(d.last()));
            lemma_push_reverse(d.drop_last(), d.last());
            assert(d.drop_last().push(d.last()) =~= d);
            assert(u.push(d.last()) + d.drop_last().reverse() =~= u + d.reverse());
        }
        *self = CommandHistory { undo_stack, redo_stack, next_undo_group_id };
        Some(copy)
    }

    /// Returns undo records in oldest-to-newest order.
    pub fn undo_stack(&self) -> (s: &[UndoRedoRecord])
        ensures
            history_views(s@) == self@.undo,
            history_consistent(self@),
    {
        proof {
            use_type_invariant(self);
        }
        self.undo_stack.as_slice()
    }

    /// Returns redo records in oldest-to-newest order.
    pub fn redo_stack(&self) -> (s: &[UndoRedoRecord])
        ensures
            history_views(s@) == self@.redo,
            history_consistent(self@),
    {
        proof {
            use_type_invariant(self);
        }
        self.redo_stack.as_slice()
    }

    /// Returns whether no undo or redo records are stored.
    pub fn is_empty(&self) -> (b: bool)
        ensures
            b == (self@.undo.len() == 0 && self@.redo.len() == 0),
    {
        self.undo_stack.len() == 0 && self.redo_stack.len() == 0
    }
}

impl Default for CommandHistory {
    fn default() -> (h: Self)
        ensures
            h@.undo.len() == 0,
            h@.redo.len() == 0,
            h@.next_group == 1,
    {
        Self::new()
    }
}

} // verus!
