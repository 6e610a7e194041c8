//! Sandboxed runtime worlds derived from edit scene state.
//!
//! A world owns runtime instance identity: every instance has a runtime ID
//! that is unique in the world, parents precede their children in ID order,
//! and the parent and child links of every instance agree.

use std::cmp::Ordering;
use vstd::prelude::*;
use vstd::std_specs::cmp::PartialOrdSpecImpl;

use crate::foundation::id::InstanceGuid;
use crate::text::{blank, contains_char, decimal, decimal_string, is_blank, join2, join3, owned};

verus! {

broadcast use vstd::seq_lib::group_seq_properties;

/// Runtime world ID. Zero is reserved as invalid. World IDs are ordered by
/// their raw values.
#[derive(Debug, Copy, Clone, PartialEq, Eq, Structural, Hash, Ord)]
pub struct RuntimeWorldId {
    raw: u64,
}

impl RuntimeWorldId {
    /// The raw value of this ID.
    pub closed spec fn value(self) -> u64 {
        self.raw
    }

    #[verifier::type_invariant]
    spec fn non_zero(self) -> bool {
        self.raw != 0
    }

    /// World IDs are identified by their raw value: equal raw values give equal IDs.
    pub proof fn lemma_value_injective(a: Self, b: Self)
        ensures
            a.value() == b.value() <==> a == b,
    {
    }

    /// Creates a runtime world ID from a non-zero raw value.
    pub fn new(raw: u64) -> (id: Self)
        requires
            raw != 0,
        ensures
            id.value() == raw,
    {
        Self { raw }
    }

    /// Returns the raw non-zero ID value.
    pub fn raw(self) -> (r: u64)
        ensures
            r == self.value(),
            r != 0,
    {
        proof {
            use_type_invariant(&self);
        }
        self.raw
    }

    /// Display text, such as `RuntimeWorldId(7)`.
    pub fn to_string(self) -> (s: String)
        ensures
            s@ == "RuntimeWorldId("@ + decimal(self.value() as nat) + ")"@,
    {
        let digits = decimal_string(self.raw);
        join3("RuntimeWorldId(", digits.as_str(), ")")
    }
}

impl PartialOrd for RuntimeWorldId {
    fn partial_cmp(&self, other: &Self) -> (r: Option<Ordering>) {
        if self.raw < other.raw {
            Some(Ordering::Less)
        } else if self.raw == other.raw {
            Some(Ordering::Equal)
        } else {
            Some(Ordering::Greater)
        }
    }
}

impl PartialOrdSpecImpl for RuntimeWorldId {
    open spec fn obeys_partial_cmp_spec() -> bool {
        true
    }

    open spec fn partial_cmp_spec(&self, other: &Self) -> Option<Ordering> {
        if self.value() < other.value() {
            Some(Ordering::Less)
        } else if self.value() == other.value() {
            Some(Ordering::Equal)
        } else {
            Some(Ordering::Greater)
        }
    }
}

/// Runtime instance ID owned by a runtime world. Zero is reserved as invalid.
#[derive(Debug, Copy, Clone, PartialEq, Eq, Structural, Hash, Ord)]
pub struct RuntimeInstanceId {
    raw: u64,
}

/// The runtime instance ID with raw value `n`.
pub closed spec fn runtime_id(n: int) -> RuntimeInstanceId {
    RuntimeInstanceId { raw: n as u64 }
}

/// Runtime instance IDs are their raw values.
pub proof fn lemma_runtime_id_value(n: int)
    requires
        0 <= n <= u64::MAX,
    ensures
        runtime_id(n).value() == n,
{
}

/// Two runtime instance IDs are equal exactly when their raw values are.
pub broadcast proof fn lemma_runtime_id_eq(a: RuntimeInstanceId, b: RuntimeInstanceId)
    ensures
        #![trigger a.value(), b.value()]
        (a == b) == (a.value() == b.value()),
{
}

impl RuntimeInstanceId {
    /// The raw value of this ID.
    pub closed spec fn value(self) -> u64 {
        self.raw
    }

    #[verifier::type_invariant]
    spec fn non_zero(self) -> bool {
        self.raw != 0
    }

    /// Creates a runtime instance ID from a non-zero raw value.
    pub fn new(raw: u64) -> (id: Self)
        requires
            raw != 0,
        ensures
            id.value() == raw,
            id == runtime_id(raw as int),
    {
        Self { raw }
    }

    /// Returns the raw non-zero ID value.
    pub fn raw(self) -> (r: u64)
        ensures
            r == self.value(),
            r != 0,
    {
        proof {
            use_type_invariant(&self);
        }
        self.raw
    }

    /// Display text, such as `RuntimeInstanceId(7)`.
    pub fn to_string(self) -> (s: String)
        ensures
            s@ == "RuntimeInstanceId("@ + decimal(self.value() as nat) + ")"@,
    {
        let digits = decimal_string(self.raw);
        join3("RuntimeInstanceId(", digits.as_str(), ")")
    }
}

impl PartialOrd for RuntimeInstanceId {
    fn partial_cmp(&self, other: &Self) -> (r: Option<Ordering>) {
        if self.raw < other.raw {
            Some(Ordering::Less)
        } else if self.raw == other.raw {
            Some(Ordering::Equal)
        } else {
            Some(Ordering::Greater)
        }
    }
}

impl PartialOrdSpecImpl for RuntimeInstanceId {
    open spec fn obeys_partial_cmp_spec() -> bool {
        true
    }

    open spec fn partial_cmp_spec(&self, other: &Self) -> Option<Ordering> {
        if self.value() < other.value() {
            Some(Ordering::Less)
        } else if self.value() == other.value() {
            Some(Ordering::Equal)
        } else {
            Some(Ordering::Greater)
        }
    }
}


/// The content of a [`RuntimeInstanceRecord`].
pub struct RuntimeInstanceView {
    pub id: RuntimeInstanceId,
    pub edit_guid: Option<InstanceGuid>,
    pub class_name: Seq<char>,
    pub name: Seq<char>,
    pub parent: Option<RuntimeInstanceId>,
    pub children: Seq<RuntimeInstanceId>,
}

/// Runtime instance cloned from edit scene state or spawned during play.
#[derive(Debug, PartialEq, Eq)]
pub struct RuntimeInstanceRecord {
    /// Runtime-only instance ID.
    pub id: RuntimeInstanceId,
    /// Stable edit GUID when this runtime instance came from saved edit state.
    pub edit_guid: Option<InstanceGuid>,
    /// Registered class name cloned from edit state.
    pub class_name: String,
    /// Runtime display name cloned from edit state.
    pub name: String,
    /// Runtime parent ID.
    pub parent: Option<RuntimeInstanceId>,
    /// Ordered runtime child IDs.
    pub children: Vec<RuntimeInstanceId>,
}

impl View for RuntimeInstanceRecord {
    type V = RuntimeInstanceView;

    open spec fn view(&self) -> RuntimeInstanceView {
        RuntimeInstanceView {
            id: self.id,
            edit_guid: self.edit_guid,
            class_name: self.class_name@,
            name: self.name@,
            parent: self.parent,
            children: self.children@,
        }
    }
}

fn copy_ids(ids: &Vec<RuntimeInstanceId>) -> (r: Vec<RuntimeInstanceId>)
    ensures
        r@ == ids@,
{
    let mut r: Vec<RuntimeInstanceId> = Vec::new();
    let mut i: usize = 0;
    while i < ids.len()
        invariant
            0 <= i <= ids.len(),
            r@ == ids@.take(i as int),
        decreases ids.len() - i,
    {
        r.push(ids[i]);
        proof {
            assert(ids@.take(i + 1) =~= ids@.take(i as int).push(ids@[i as int]));
        }
        i = i + 1;
    }
    proof {
        assert(ids@.take(i as int) =~= ids@);
    }
    r
}

impl Clone for RuntimeInstanceRecord {
    fn clone(&self) -> (r: Self)
        ensures
            r@ == self@,
    {
        RuntimeInstanceRecord {
            id: self.id,
            edit_guid: self.edit_guid,
            class_name: self.class_name.clone(),
            name: self.name.clone(),
            parent: self.parent,
            children: copy_ids(&self.children),
        }
    }
}

/// The views of a sequence of records.
pub open spec fn record_views(s: Seq<RuntimeInstanceRecord>) -> Seq<RuntimeInstanceView> {
    s.map_values(|r: RuntimeInstanceRecord| r@)
}

/// Whether some record has runtime ID `id`.
pub open spec fn has_id(v: Seq<RuntimeInstanceView>, id: RuntimeInstanceId) -> bool {
    exists|i: int| 0 <= i < v.len() && #[trigger] v[i].id == id
}

/// The index of the record with runtime ID `id`.
pub open spec fn index_of_id(v: Seq<RuntimeInstanceView>, id: RuntimeInstanceId) -> int {
    choose|i: int| 0 <= i < v.len() && #[trigger] v[i].id == id
}

/// The record with runtime ID `id`.
pub open spec fn record_of(v: Seq<RuntimeInstanceView>, id: RuntimeInstanceId) -> RuntimeInstanceView {
    v[index_of_id(v, id)]
}

/// Whether some record was cloned from edit GUID `guid`.
pub open spec fn has_edit_guid(v: Seq<RuntimeInstanceView>, guid: InstanceGuid) -> bool {
    exists|i: int| 0 <= i < v.len() && #[trigger] v[i].edit_guid == Some(guid)
}

/// The first record that was cloned from edit GUID `guid`.
pub open spec fn first_with_edit_guid(v: Seq<RuntimeInstanceView>, guid: InstanceGuid) -> int {
    choose|i: int|
        0 <= i < v.len() && #[trigger] v[i].edit_guid == Some(guid) && forall|j: int|
            0 <= j < i ==> v[j].edit_guid != Some(guid)
}

/// Well-formed runtime instance records with root `root`, whose IDs are all
/// below `next`:
/// - IDs strictly increase along the sequence, so they are unique;
/// - every parent is present and has a smaller ID than its child;
/// - every listed child is present, has a larger ID, and names its parent back;
/// - every instance with a parent is listed among the parent's children;
/// - no child is listed twice;
/// - the root is present, and it is the only instance without a parent.
pub open spec fn records_well_formed(
    v: Seq<RuntimeInstanceView>,
    root: RuntimeInstanceId,
    next: nat,
) -> bool {
    &&& forall|i: int| 0 <= i < v.len() ==> (#[trigger] v[i]).id.value() < next
    &&& forall|i: int, j: int|
        0 <= i < j < v.len() ==> (#[trigger] v[i]).id.value() < (#[trigger] v[j]).id.value()
    &&& forall|j: int|
        0 <= j < v.len() && (#[trigger] v[j]).parent is Some ==> {
            let p = v[j].parent->0;
            &&& has_id(v, p)
            &&& p.value() < v[j].id.value()
            &&& record_of(v, p).children.contains(v[j].id)
        }
    &&& forall|j: int, k: int|
        0 <= j < v.len() && 0 <= k < (#[trigger] v[j]).children.len() ==> {
            let c = #[trigger] v[j].children[k];
            &&& has_id(v, c)
            &&& record_of(v, c).parent == Some(v[j].id)
            &&& v[j].id.value() < c.value()
        }
    &&& forall|j: int| 0 <= j < v.len() ==> (#[trigger] v[j]).children.no_duplicates()
    &&& has_id(v, root)
    &&& forall|j: int| 0 <= j < v.len() ==> ((#[trigger] v[j]).parent is None <==> v[j].id == root)
}

/// Spawning a child under a present parent keeps the records well formed.
proof fn lemma_spawn_well_formed(
    v: Seq<RuntimeInstanceView>,
    root: RuntimeInstanceId,
    next: nat,
    parent: RuntimeInstanceId,
    class_name: Seq<char>,
    name: Seq<char>,
)
    requires
        records_well_formed(v, root, next),
        has_id(v, parent),
        next < u64::MAX,
    ensures
        ({
            let w = RuntimeWorldView { id: arbitrary(), instances: v, root, next_instance_id: next };
            records_well_formed(spawned(w, parent, class_name, name).instances, root, next + 1)
        }),
{
    let w = RuntimeWorldView { id: arbitrary(), instances: v, root, next_instance_id: next };
    let v2 = spawned(w, parent, class_name, name).instances;
    let pi = index_of_id(v, parent);
    let id = runtime_id(next as int);
    let n = v.len() as int;
    assert(id.value() == next);
    assert forall|x: RuntimeInstanceId| has_id(v, x) implies has_id(v2, x) && index_of_id(v2, x)
        == index_of_id(v, x) by {
        let k = index_of_id(v, x);
        assert(v2[k].id == x);
        let k2 = index_of_id(v2, x);
        if k2 != k {
            if k2 < k {
                assert(v2[k2].id.value() < v2[k].id.value());
            } else if k2 < n {
                assert(v2[k].id.value() < v2[k2].id.value());
            } else {
                assert(v[k].id.value() < next);
            }
        }
    }
    assert(v2[n].id == id);
    assert(has_id(v2, id));
    assert(index_of_id(v2, id) == n) by {
        let k2 = index_of_id(v2, id);
        if k2 < n {
            assert(v[k2].id.value() < next);
        }
    }
    assert forall|j: int| 0 <= j < v2.len() && (#[trigger] v2[j]).parent is Some implies {
        let p = v2[j].parent->0;
        &&& has_id(v2, p)
        &&& p.value() < v2[j].id.value()
        &&& record_of(v2, p).children.contains(v2[j].id)
    } by {
        let p = v2[j].parent->0;
        if j < n {
            assert(v[j].parent == v2[j].parent);
            let k = index_of_id(v, p);
            if k == pi {
                assert(v2[k].children == v[k].children.push(id));
                assert(v[k].children.contains(v[j].id));
            }
        } else {
            assert(p == parent);
            assert(v2[pi].children == v[pi].children.push(id));
            assert(v2[pi].children[v[pi].children.len() as int] == id);
            assert(v[pi].id.value() < next);
        }
    }
    assert forall|j: int, k: int|
        0 <= j < v2.len() && 0 <= k < (#[trigger] v2[j]).children.len() implies {
        let c = #[trigger] v2[j].children[k];
        &&& has_id(v2, c)
        &&& record_of(v2, c).parent == Some(v2[j].id)
        &&& v2[j].id.value() < c.value()
    } by {
        let c = v2[j].children[k];
        if j == pi && k == v[pi].children.len() {
            assert(c == id);
            assert(v[pi].id.value() < next);
        } else {
            assert(j < n);
            assert(v[j].children[k] == c);
        }
    }
    assert forall|j: int| 0 <= j < v2.len() implies (#[trigger] v2[j]).children.no_duplicates() by {
        if j == pi {
            assert forall|k: int| 0 <= k < v[pi].children.len() implies v[pi].children[k] != id by {
                let c = v[pi].children[k];
                assert(has_id(v, c));
                assert(v[index_of_id(v, c)].id.value() < next);
            }
            assert(!v[pi].children.contains(id));
        }
    }
    assert forall|i: int, j: int| 0 <= i < j < v2.len() implies (#[trigger] v2[i]).id.value() < (
    #[trigger] v2[j]).id.value() by {
        if j == n {
            assert(v[i].id.value() < next);
        } else {
            assert(v[i].id.value() < v[j].id.value());
        }
    }
    assert(has_id(v2, root));
}

/// In well-formed records, a listed child of record `i` is present at a
/// later index.
proof fn lemma_child_follows(v: Seq<RuntimeInstanceView>, root: RuntimeInstanceId, next: nat, i: int, k: int)
    requires
        records_well_formed(v, root, next),
        0 <= i < v.len(),
        0 <= k < v[i].children.len(),
    ensures
        has_id(v, v[i].children[k]),
        i < index_of_id(v, v[i].children[k]) < v.len(),
        v[index_of_id(v, v[i].children[k])].id == v[i].children[k],
        v[index_of_id(v, v[i].children[k])].parent == Some(v[i].id),
{
    let c = v[i].children[k];
    assert(has_id(v, c));
    let ci = index_of_id(v, c);
    if ci <= i {
        if ci < i {
            assert(v[ci].id.value() < v[i].id.value());
        }
        assert(v[i].id.value() < c.value());
    }
}

/// In well-formed records, record `i` is the record with its own ID.
proof fn lemma_own_index(v: Seq<RuntimeInstanceView>, root: RuntimeInstanceId, next: nat, i: int)
    requires
        records_well_formed(v, root, next),
        0 <= i < v.len(),
    ensures
        has_id(v, v[i].id),
        index_of_id(v, v[i].id) == i,
{
    assert(v[i].id == v[i].id);
    let k = index_of_id(v, v[i].id);
    if k < i {
        assert(v[k].id.value() < v[i].id.value());
    } else if k > i {
        assert(v[i].id.value() < v[k].id.value());
    }
}

/// The facts about the subtree of record `i` that despawning relies on:
/// every member is present; every member but the subtree root has its
/// parent in the subtree; every child of a member is a member; and the
/// subtree starts at its root.
proof fn lemma_subtree(v: Seq<RuntimeInstanceView>, root: RuntimeInstanceId, next: nat, i: int)
    requires
        records_well_formed(v, root, next),
        0 <= i < v.len(),
    ensures
        subtree_ids(v, i).len() > 0,
        subtree_ids(v, i)[0] == v[i].id,
        forall|x: RuntimeInstanceId| #[trigger]
            subtree_ids(v, i).contains(x) ==> {
                &&& has_id(v, x)
                &&& v[i].id.value() <= x.value()
                &&& (x == v[i].id || (record_of(v, x).parent is Some && subtree_ids(v, i).contains(
                    record_of(v, x).parent->0,
                )))
                &&& forall|m: int|
                    0 <= m < record_of(v, x).children.len() ==> subtree_ids(v, i).contains(
                        #[trigger] record_of(v, x).children[m],
                    )
            },
    decreases v.len() - i, 1int, 0int,
{
    let n = v[i].children.len() as int;
    let cs = child_subtree_ids(v, i, n);
    let st = subtree_ids(v, i);
    assert(st == seq![v[i].id] + cs);
    lemma_child_subtrees(v, root, next, i, n);
    lemma_own_index(v, root, next, i);
    assert forall|x: RuntimeInstanceId| #[trigger] st.contains(x) implies {
        &&& has_id(v, x)
        &&& v[i].id.value() <= x.value()
        &&& (x == v[i].id || (record_of(v, x).parent is Some && st.contains(
            record_of(v, x).parent->0,
        )))
        &&& forall|m: int|
            0 <= m < record_of(v, x).children.len() ==> st.contains(
                #[trigger] record_of(v, x).children[m],
            )
    } by {
        if x == v[i].id {
            assert forall|m: int| 0 <= m < record_of(v, x).children.len() implies st.contains(
                #[trigger] record_of(v, x).children[m],
            ) by {
                assert(cs.contains(v[i].children[m]));
            }
        } else {
            assert(cs.contains(x));
            let p = record_of(v, x).parent->0;
            if p == v[i].id {
                assert(st[0] == p);
            } else {
                assert(cs.contains(p));
            }
            assert forall|m: int| 0 <= m < record_of(v, x).children.len() implies st.contains(
                #[trigger] record_of(v, x).children[m],
            ) by {
                assert(cs.contains(record_of(v, x).children[m]));
            }
        }
    }
}

/// The subtrees of the first `k` children of record `i`: every member is
/// present and has its parent either at `i` or among the members; the
/// children of a member are members; and the first `k` children are members.
proof fn lemma_child_subtrees(
    v: Seq<RuntimeInstanceView>,
    root: RuntimeInstanceId,
    next: nat,
    i: int,
    k: int,
)
    requires
        records_well_formed(v, root, next),
        0 <= i < v.len(),
        0 <= k <= v[i].children.len(),
    ensures
        forall|m: int| 0 <= m < k ==> child_subtree_ids(v, i, k).contains(#[trigger] v[i].children[m]),
        forall|x: RuntimeInstanceId| #[trigger]
            child_subtree_ids(v, i, k).contains(x) ==> {
                &&& has_id(v, x)
                &&& v[i].id.value() < x.value()
                &&& record_of(v, x).parent is Some
                &&& (record_of(v, x).parent->0 == v[i].id || child_subtree_ids(v, i, k).contains(
                    record_of(v, x).parent->0,
                ))
                &&& forall|m: int|
                    0 <= m < record_of(v, x).children.len() ==> child_subtree_ids(v, i, k).contains(
                        #[trigger] record_of(v, x).children[m],
                    )
            },
    decreases v.len() - i, 0int, k,
{
    if k > 0 {
        let prev = child_subtree_ids(v, i, k - 1);
        let c = v[i].children[k - 1];
        lemma_child_follows(v, root, next, i, k - 1);
        let ci = index_of_id(v, c);
        let sub = subtree_ids(v, ci);
        let cs = child_subtree_ids(v, i, k);
        assert(cs == prev + sub);
        lemma_child_subtrees(v, root, next, i, k - 1);
        lemma_subtree(v, root, next, ci);
        lemma_own_index(v, root, next, ci);
        assert forall|m: int| 0 <= m < k implies cs.contains(#[trigger] v[i].children[m]) by {
            if m == k - 1 {
                assert(sub[0] == c);
                assert(cs[prev.len() as int] == c);
            } else {
                assert(prev.contains(v[i].children[m]));
            }
        }
        assert forall|x: RuntimeInstanceId| #[trigger] cs.contains(x) implies {
            &&& has_id(v, x)
            &&& v[i].id.value() < x.value()
            &&& record_of(v, x).parent is Some
            &&& (record_of(v, x).parent->0 == v[i].id || cs.contains(record_of(v, x).parent->0))
            &&& forall|m: int|
                0 <= m < record_of(v, x).children.len() ==> cs.contains(
                    #[trigger] record_of(v, x).children[m],
                )
        } by {
            if prev.contains(x) {
                assert forall|m: int| 0 <= m < record_of(v, x).children.len() implies cs.contains(
                    #[trigger] record_of(v, x).children[m],
                ) by {
                    assert(prev.contains(record_of(v, x).children[m]));
                }
                if record_of(v, x).parent->0 != v[i].id {
                    assert(prev.contains(record_of(v, x).parent->0));
                }
            } else {
                assert(sub.contains(x));
                if x != c {
                    assert(sub.contains(record_of(v, x).parent->0));
                }
                assert forall|m: int| 0 <= m < record_of(v, x).children.len() implies cs.contains(
                    #[trigger] record_of(v, x).children[m],
                ) by {
                    assert(sub.contains(record_of(v, x).children[m]));
                }
            }
        }
    }
}

/// Record IDs strictly increase along `v`.
pub open spec fn ids_increasing(v: Seq<RuntimeInstanceView>) -> bool {
    forall|i: int, j: int| 0 <= i < j < v.len() ==> (#[trigger] v[i]).id.value() < (#[trigger] v[j]).id.value()
}

proof fn lemma_filter_increasing(v: Seq<RuntimeInstanceView>, pred: spec_fn(RuntimeInstanceView) -> bool)
    requires
        ids_increasing(v),
    ensures
        ids_increasing(v.filter(pred)),
    decreases v.len(),
{
    reveal(Seq::filter);
    if v.len() > 0 {
        let rest = v.drop_last();
        lemma_filter_increasing(rest, pred);
        let f = rest.filter(pred);
        if pred(v.last()) {
            assert forall|i: int| 0 <= i < f.len() implies f[i].id.value() < v.last().id.value() by {
                assert(f.contains(f[i]));
                rest.lemma_filter_contains_rev(pred, f[i]);
                let k = choose|k: int| 0 <= k < rest.len() && rest[k] == f[i];
                assert(v[k] == rest[k]);
            }
            let g = f.push(v.last());
            assert forall|i: int, j: int| 0 <= i < j < g.len() implies (#[trigger] g[i]).id.value() < (
            #[trigger] g[j]).id.value() by {
                if j == f.len() {
                    assert(g[i] == f[i]);
                } else {
                    assert(g[i] == f[i] && g[j] == f[j]);
                }
            }
        }
    }
}

proof fn lemma_filter_no_duplicates<A>(s: Seq<A>, pred: spec_fn(A) -> bool)
    requires
        s.no_duplicates(),
    ensures
        s.filter(pred).no_duplicates(),
    decreases s.len(),
{
    reveal(Seq::filter);
    if s.len() > 0 {
        let rest = s.drop_last();
        assert(rest.no_duplicates());
        lemma_filter_no_duplicates(rest, pred);
        let f = rest.filter(pred);
        if pred(s.last()) {
            if f.contains(s.last()) {
                rest.lemma_filter_contains_rev(pred, s.last());
                let k = choose|k: int| 0 <= k < rest.len() && rest[k] == s.last();
                assert(s[k] == s[s.len() - 1]);
            }
            let g = f.push(s.last());
            assert forall|i: int, j: int| 0 <= i < g.len() && 0 <= j < g.len() && i != j implies g[i] != g[j] by {
                if i == f.len() {
                    assert(f.contains(f[j]));
                } else if j == f.len() {
                    assert(f.contains(f[i]));
                } else {
                    assert(g[i] == f[i] && g[j] == f[j]);
                }
            }
        }
    }
}

/// Despawning a present non-root instance keeps the records well formed.
#[verifier::spinoff_prover]
#[verifier::rlimit(40)]
proof fn lemma_despawn_well_formed(
    v: Seq<RuntimeInstanceView>,
    root: RuntimeInstanceId,
    next: nat,
    instance: RuntimeInstanceId,
)
    requires
        records_well_formed(v, root, next),
        has_id(v, instance),
        instance != root,
    ensures
        ({
            let w = RuntimeWorldView { id: arbitrary(), instances: v, root, next_instance_id: next };
            let removed = subtree_ids(v, index_of_id(v, instance));
            &&& !removed.contains(root)
            &&& removed.contains(instance)
            &&& records_well_formed(despawned(w, instance, removed).instances, root, next)
        }),
{
    let w = RuntimeWorldView { id: arbitrary(), instances: v, root, next_instance_id: next };
    let ii = index_of_id(v, instance);
    let st = subtree_ids(v, ii);
    lemma_subtree(v, root, next, ii);
    lemma_own_index(v, root, next, ii);
    assert(v[ii].id == instance);
    assert(st.contains(instance)) by {
        assert(st[0] == instance);
    }
    let ri = index_of_id(v, root);
    assert(v[ri].id == root);
    assert(v[ri].parent is None);
    assert(!st.contains(root));
    assert(v[ii].parent is Some);
    let p = v[ii].parent->0;
    let pi = index_of_id(v, p);
    assert(has_id(v, p));
    assert(v[pi].id == p);
    assert(p.value() < instance.value());
    assert(!st.contains(p));
    let keep_child = other_than(instance);
    let pred = outside_of(st);
    let u = v.update(pi, RuntimeInstanceView { children: v[pi].children.filter(keep_child), ..v[pi] });
    let v2 = u.filter(pred);
    assert(despawned(w, instance, st).instances == v2);
    assert forall|j: int| 0 <= j < u.len() implies (#[trigger] u[j]).id == v[j].id && u[j].parent
        == v[j].parent by {}
    assert(ids_increasing(u)) by {
        assert forall|i: int, j: int| 0 <= i < j < u.len() implies (#[trigger] u[i]).id.value() < (
        #[trigger] u[j]).id.value() by {
            assert(v[i].id.value() < v[j].id.value());
        }
    }
    lemma_filter_increasing(u, pred);
    // Every record of the result is a record of `u` outside the subtree.
    assert forall|j: int| 0 <= j < v2.len() implies exists|k: int|
        0 <= k < u.len() && u[k] == #[trigger] v2[j] && !st.contains(u[k].id) by {
        assert(v2.contains(v2[j]));
        u.lemma_filter_contains_rev(pred, v2[j]);
        u.lemma_filter_pred(pred, j);
    }
    // Every record of `u` outside the subtree is a record of the result,
    // and is the result's record with its ID.
    assert forall|k: int| 0 <= k < u.len() && !st.contains(#[trigger] u[k].id) implies has_id(v2, u[k].id)
        && record_of(v2, u[k].id) == u[k] by {
        u.lemma_filter_contains(pred, k);
        let j = choose|j: int| 0 <= j < v2.len() && v2[j] == u[k];
        assert(v2[j].id == u[k].id);
        let j2 = index_of_id(v2, u[k].id);
        if j2 != j {
            if j2 < j {
                assert(v2[j2].id.value() < v2[j].id.value());
            } else {
                assert(v2[j].id.value() < v2[j2].id.value());
            }
        }
    }
    assert forall|j: int| 0 <= j < v2.len() && (#[trigger] v2[j]).parent is Some implies {
        let q = v2[j].parent->0;
        &&& has_id(v2, q)
        &&& q.value() < v2[j].id.value()
        &&& record_of(v2, q).children.contains(v2[j].id)
    } by {
        let k = choose|k: int| 0 <= k < u.len() && u[k] == v2[j] && !st.contains(u[k].id);
        let q = v[k].parent->0;
        let qi = index_of_id(v, q);
        assert(v[qi].children.contains(v[k].id));
        if st.contains(q) {
            let m = choose|m: int| 0 <= m < v[qi].children.len() && v[qi].children[m] == v[k].id;
            assert(st.contains(record_of(v, q).children[m]));
        }
        assert(u[qi].id == q);
        assert(record_of(v2, q) == u[qi]);
        if qi == pi {
            let m = choose|m: int| 0 <= m < v[pi].children.len() && v[pi].children[m] == v[k].id;
            assert(v[k].id != instance);
            v[pi].children.lemma_filter_contains(keep_child, m);
        }
    }
    assert forall|j: int, m: int|
        0 <= j < v2.len() && 0 <= m < (#[trigger] v2[j]).children.len() implies {
        let c = #[trigger] v2[j].children[m];
        &&& has_id(v2, c)
        &&& record_of(v2, c).parent == Some(v2[j].id)
        &&& v2[j].id.value() < c.value()
    } by {
        let k = choose|k: int| 0 <= k < u.len() && u[k] == v2[j] && !st.contains(u[k].id);
        let c = v2[j].children[m];
        assert(v[k].children.contains(c)) by {
            if k == pi {
                assert(u[k].children.contains(c));
                v[pi].children.lemma_filter_contains_rev(keep_child, c);
                v[pi].children.lemma_filter_pred(keep_child, m);
            } else {
                assert(v[k].children[m] == c);
            }
        }
        let m0 = choose|m0: int| 0 <= m0 < v[k].children.len() && v[k].children[m0] == c;
        assert(v[k].children[m0] == c);
        let ci = index_of_id(v, c);
        assert(v[ci].parent == Some(v[k].id));
        if k == pi {
            v[pi].children.lemma_filter_pred(keep_child, m);
            assert(c != instance);
        } else if c == instance {
            assert(ci == ii);
            assert(p == v[k].id);
            assert(pi == k);
        }
        if st.contains(c) {
            assert(c != instance);
            assert(st.contains(v[k].id));
        }
        assert(u[ci].id == c);
        assert(record_of(v2, c) == u[ci]);
    }
    assert forall|j: int| 0 <= j < v2.len() implies (#[trigger] v2[j]).children.no_duplicates() by {
        let k = choose|k: int| 0 <= k < u.len() && u[k] == v2[j] && !st.contains(u[k].id);
        if k == pi {
            lemma_filter_no_duplicates(v[pi].children, keep_child);
        }
    }
    assert forall|j: int| 0 <= j < v2.len() implies (#[trigger] v2[j]).id.value() < next by {
        let k = choose|k: int| 0 <= k < u.len() && u[k] == v2[j] && !st.contains(u[k].id);
        assert(v[k].id.value() < next);
    }
    assert forall|j: int| 0 <= j < v2.len() implies ((#[trigger] v2[j]).parent is None <==> v2[j].id
        == root) by {
        let k = choose|k: int| 0 <= k < u.len() && u[k] == v2[j] && !st.contains(u[k].id);
        assert(v[k].parent is None <==> v[k].id == root);
    }
    assert(u[ri].id == root);
    assert(has_id(v2, root));
}

/// After despawning, an ID resolves exactly when it resolved before and is
/// not among the removed IDs.
proof fn lemma_despawn_resolves(w: RuntimeWorldView, instance: RuntimeInstanceId, removed: Seq<RuntimeInstanceId>)
    requires
        records_well_formed(w.instances, w.root, w.next_instance_id),
        has_id(w.instances, instance),
        instance != w.root,
    ensures
        forall|x: RuntimeInstanceId|
            has_id(despawned(w, instance, removed).instances, x) <==> has_id(w.instances, x)
                && !removed.contains(x),
{
    let v = w.instances;
    let ii = index_of_id(v, instance);
    assert(v[ii].parent is Some);
    let p = record_of(v, instance).parent->0;
    let pi = index_of_id(v, p);
    assert(has_id(v, p));
    let u = v.update(pi, RuntimeInstanceView { children: v[pi].children.filter(other_than(instance)), ..v[pi] });
    let pred = outside_of(removed);
    let v2 = u.filter(pred);
    assert(despawned(w, instance, removed).instances == v2);
    assert forall|x: RuntimeInstanceId| has_id(v2, x) <==> has_id(v, x) && !removed.contains(x) by {
        if has_id(v2, x) {
            let j = choose|j: int| 0 <= j < v2.len() && #[trigger] v2[j].id == x;
            assert(v2.contains(v2[j]));
            u.lemma_filter_contains_rev(pred, v2[j]);
            u.lemma_filter_pred(pred, j);
            let k = choose|k: int| 0 <= k < u.len() && u[k] == v2[j];
            assert(v[k].id == x);
        }
        if has_id(v, x) && !removed.contains(x) {
            let k = choose|k: int| 0 <= k < v.len() && #[trigger] v[k].id == x;
            assert(u[k].id == x);
            u.lemma_filter_contains(pred, k);
            let j = choose|j: int| 0 <= j < v2.len() && v2[j] == u[k];
            assert(v2[j].id == x);
        }
    }
}

/// Despawning a present instance other than the root removes exactly its
/// subtree: the instance itself is removed and the root is not, an ID
/// resolves afterwards exactly when it resolved before and is not in the
/// subtree, and the remaining records stay well formed, so no remaining
/// record names a removed parent or lists a removed child.
pub proof fn lemma_despawn_keeps_world_consistent(w: RuntimeWorldView, instance: RuntimeInstanceId)
    requires
        records_well_formed(w.instances, w.root, w.next_instance_id),
        has_id(w.instances, instance),
        instance != w.root,
    ensures
        ({
            let removed = subtree_ids(w.instances, index_of_id(w.instances, instance));
            let after = despawned(w, instance, removed).instances;
            &&& removed.contains(instance)
            &&& !removed.contains(w.root)
            &&& records_well_formed(after, w.root, w.next_instance_id)
            &&& forall|x: RuntimeInstanceId|
                has_id(after, x) <==> has_id(w.instances, x) && !removed.contains(x)
        }),
{
    let removed = subtree_ids(w.instances, index_of_id(w.instances, instance));
    lemma_despawn_well_formed(w.instances, w.root, w.next_instance_id, instance);
    let w0 = RuntimeWorldView { id: arbitrary(), instances: w.instances, root: w.root, next_instance_id: w.next_instance_id };
    assert(despawned(w0, instance, removed).instances == despawned(w, instance, removed).instances);
    lemma_despawn_resolves(w, instance, removed);
}

/// Whether no two records were cloned from the same edit GUID.
pub open spec fn edit_guids_unique(v: Seq<RuntimeInstanceView>) -> bool {
    forall|i: int, j: int|
        0 <= i < j < v.len() && (#[trigger] v[i]).edit_guid is Some ==> v[i].edit_guid != (
        #[trigger] v[j]).edit_guid
}

/// Despawning the record cloned from edit GUID `guid` leaves no record that
/// answers to that GUID, provided no two records share an edit GUID.
#[verifier::spinoff_prover]
#[verifier::rlimit(40)]
pub proof fn lemma_despawn_forgets_edit_guid(
    w: RuntimeWorldView,
    instance: RuntimeInstanceId,
    guid: InstanceGuid,
)
    requires
        records_well_formed(w.instances, w.root, w.next_instance_id),
        has_id(w.instances, instance),
        instance != w.root,
        record_of(w.instances, instance).edit_guid == Some(guid),
        edit_guids_unique(w.instances),
    ensures
        !has_edit_guid(
            despawned(w, instance, subtree_ids(w.instances, index_of_id(w.instances, instance))).instances,
            guid,
        ),
{
    let v = w.instances;
    let ii = index_of_id(v, instance);
    let removed = subtree_ids(v, ii);
    lemma_despawn_keeps_world_consistent(w, instance);
    assert(v[ii].parent is Some);
    let p = record_of(v, instance).parent->0;
    let pi = index_of_id(v, p);
    let u = v.update(pi, RuntimeInstanceView { children: v[pi].children.filter(other_than(instance)), ..v[pi] });
    let pred = outside_of(removed);
    let v2 = u.filter(pred);
    assert(despawned(w, instance, removed).instances == v2);
    if has_edit_guid(v2, guid) {
        let j = choose|j: int| 0 <= j < v2.len() && #[trigger] v2[j].edit_guid == Some(guid);
        assert(v2.contains(v2[j]));
        u.lemma_filter_contains_rev(pred, v2[j]);
        u.lemma_filter_pred(pred, j);
        let k = choose|k: int| 0 <= k < u.len() && u[k] == v2[j];
        assert(v[k].edit_guid == Some(guid) && v[k].id == v2[j].id);
        if k < ii {
            assert(v[k].edit_guid != v[ii].edit_guid);
        } else if k > ii {
            assert(v[ii].edit_guid != v[k].edit_guid);
        }
        assert(v2[j].id == instance);
        assert(!removed.contains(v2[j].id));
    }
}

#[verifier::spinoff_prover]
proof fn lemma_filter_keeps_edit_guids_unique(
    s: Seq<RuntimeInstanceView>,
    pred: spec_fn(RuntimeInstanceView) -> bool,
)
    requires
        edit_guids_unique(s),
    ensures
        edit_guids_unique(s.filter(pred)),
    decreases s.len(),
{
    reveal(Seq::filter);
    if s.len() > 0 {
        let rest = s.drop_last();
        assert(edit_guids_unique(rest)) by {
            assert forall|i: int, j: int|
                0 <= i < j < rest.len() && (#[trigger] rest[i]).edit_guid is Some implies rest[i].edit_guid
                != (#[trigger] rest[j]).edit_guid by {
                assert(rest[i] == s[i] && rest[j] == s[j]);
            }
        }
        lemma_filter_keeps_edit_guids_unique(rest, pred);
        let f = rest.filter(pred);
        if pred(s.last()) {
            let g = f.push(s.last());
            assert(s.filter(pred) == g);
            assert forall|i: int, j: int|
                0 <= i < j < g.len() && (#[trigger] g[i]).edit_guid is Some implies g[i].edit_guid != (
                #[trigger] g[j]).edit_guid by {
                if j == f.len() {
                    assert(g[i] == f[i]);
                    assert(f.contains(f[i]));
                    rest.lemma_filter_contains_rev(pred, f[i]);
                    let k = choose|k: int| 0 <= k < rest.len() && rest[k] == f[i];
                    assert(s[k] == f[i]);
                    assert(s[s.len() - 1] == g[j]);
                } else {
                    assert(g[i] == f[i] && g[j] == f[j]);
                }
            }
        } else {
            assert(s.filter(pred) == f);
        }
    }
}

/// Spawning a runtime-only child keeps edit GUIDs unique: the child has no
/// edit GUID, and every other record keeps its own.
pub proof fn lemma_spawn_keeps_edit_guids_unique(
    w: RuntimeWorldView,
    parent: RuntimeInstanceId,
    class_name: Seq<char>,
    name: Seq<char>,
)
    requires
        has_id(w.instances, parent),
        edit_guids_unique(w.instances),
    ensures
        edit_guids_unique(spawned(w, parent, class_name, name).instances),
{
    let v = w.instances;
    let after = spawned(w, parent, class_name, name).instances;
    let pi = index_of_id(v, parent);
    assert forall|i: int, j: int|
        0 <= i < j < after.len() && (#[trigger] after[i]).edit_guid is Some implies after[i].edit_guid != (
        #[trigger] after[j]).edit_guid by {
        if j < v.len() {
            assert(after[i].edit_guid == v[i].edit_guid && after[j].edit_guid == v[j].edit_guid);
        }
    }
}

/// Despawning a subtree keeps edit GUIDs unique: the remaining records keep
/// their edit GUIDs and their order.
#[verifier::spinoff_prover]
pub proof fn lemma_despawn_keeps_edit_guids_unique(
    w: RuntimeWorldView,
    instance: RuntimeInstanceId,
    removed: Seq<RuntimeInstanceId>,
)
    requires
        records_well_formed(w.instances, w.root, w.next_instance_id),
        has_id(w.instances, instance),
        instance != w.root,
        edit_guids_unique(w.instances),
    ensures
        edit_guids_unique(despawned(w, instance, removed).instances),
{
    let v = w.instances;
    lemma_despawn_resolves(w, instance, removed);
    let ii = index_of_id(v, instance);
    assert(v[ii].parent is Some);
    let p = record_of(v, instance).parent->0;
    assert(has_id(v, p));
    let pi = index_of_id(v, p);
    let u = v.update(pi, RuntimeInstanceView { children: v[pi].children.filter(other_than(instance)), ..v[pi] });
    assert(edit_guids_unique(u)) by {
        assert forall|i: int, j: int|
            0 <= i < j < u.len() && (#[trigger] u[i]).edit_guid is Some implies u[i].edit_guid != (
            #[trigger] u[j]).edit_guid by {
            assert(u[i].edit_guid == v[i].edit_guid && u[j].edit_guid == v[j].edit_guid);
        }
    }
    lemma_filter_keeps_edit_guids_unique(u, outside_of(removed));
    assert(despawned(w, instance, removed).instances == u.filter(outside_of(removed)));
}

/// An edit scene instance as exported for runtime cloning: its saved GUID,
/// class and name, and its ordered children.
#[derive(Debug, PartialEq, Eq)]
pub struct SceneInstanceDocument {
    /// Stable saved edit GUID.
    pub guid: InstanceGuid,
    /// Registered class name.
    pub class_name: String,
    /// Display name.
    pub name: String,
    /// Ordered child instances.
    pub children: Vec<SceneInstanceDocument>,
}

/// Errors of exporting an edit scene for runtime cloning.
#[derive(Debug, Copy, Clone, PartialEq, Eq, Structural)]
pub enum SceneError {
    /// The edit scene has no root instance.
    MissingRoot,
}

/// The number of instances in the document tree rooted at `d`.
pub open spec fn document_size(d: SceneInstanceDocument) -> nat
    decreases d, 1int, 0int,
{
    1 + children_size(d, d.children.len() as int)
}

/// The number of instances in the first `k` child trees of `d`.
pub open spec fn children_size(d: SceneInstanceDocument, k: int) -> nat
    decreases d, 0int, k,
{
    if 0 < k <= d.children.len() {
        children_size(d, k - 1) + document_size(d.children[k - 1])
    } else {
        0
    }
}

/// The runtime IDs given to the children of `d` when `d` is cloned with
/// runtime ID `first`: each child tree follows its earlier siblings' trees.
pub open spec fn cloned_child_ids(d: SceneInstanceDocument, first: int) -> Seq<RuntimeInstanceId> {
    Seq::new(d.children.len() as nat, |m: int| runtime_id(first + 1 + children_size(d, m)))
}

/// The runtime records cloned from the document tree rooted at `d`, in
/// depth-first preorder, numbered consecutively from `first`, the root
/// under `parent`. Each record keeps its document's GUID, class and name.
pub open spec fn cloned_records(
    d: SceneInstanceDocument,
    first: int,
    parent: Option<RuntimeInstanceId>,
) -> Seq<RuntimeInstanceView>
    decreases d, 1int, 0int,
{
    seq![
        RuntimeInstanceView {
            id: runtime_id(first),
            edit_guid: Some(d.guid),
            class_name: d.class_name@,
            name: d.name@,
            parent,
            children: cloned_child_ids(d, first),
        },
    ] + cloned_children(d, first, d.children.len() as int)
}

/// The records cloned from the first `k` child trees of `d`, when `d` is
/// cloned with runtime ID `first`.
pub open spec fn cloned_children(d: SceneInstanceDocument, first: int, k: int) -> Seq<
    RuntimeInstanceView,
>
    decreases d, 0int, k,
{
    if 0 < k <= d.children.len() {
        cloned_children(d, first, k - 1) + cloned_records(
            d.children[k - 1],
            first + 1 + children_size(d, k - 1),
            Some(runtime_id(first)),
        )
    } else {
        Seq::empty()
    }
}

/// The cloned records of a document tree are as many as its instances.
proof fn lemma_cloned_len(d: SceneInstanceDocument, first: int, parent: Option<RuntimeInstanceId>)
    ensures
        cloned_records(d, first, parent).len() == document_size(d),
    decreases d, 1int, 0int,
{
    lemma_cloned_children_len(d, first, d.children.len() as int);
}

proof fn lemma_cloned_children_len(d: SceneInstanceDocument, first: int, k: int)
    ensures
        cloned_children(d, first, k).len() == children_size(d, k),
    decreases d, 0int, k,
{
    if 0 < k <= d.children.len() {
        lemma_cloned_children_len(d, first, k - 1);
        lemma_cloned_len(d.children[k - 1], first + 1 + children_size(d, k - 1), Some(runtime_id(first)));
    }
}

/// The GUIDs of the document tree rooted at `d`, in depth-first preorder.
pub open spec fn document_guids(d: SceneInstanceDocument) -> Seq<InstanceGuid>
    decreases d, 1int, 0int,
{
    seq![d.guid] + children_guids(d, d.children.len() as int)
}

/// The GUIDs of the first `k` child trees of `d`, in order.
pub open spec fn children_guids(d: SceneInstanceDocument, k: int) -> Seq<InstanceGuid>
    decreases d, 0int, k,
{
    if 0 < k <= d.children.len() {
        children_guids(d, k - 1) + document_guids(d.children[k - 1])
    } else {
        Seq::empty()
    }
}

/// Whether no two instances of the document tree rooted at `d` share a GUID.
pub open spec fn document_guids_unique(d: SceneInstanceDocument) -> bool {
    let g = document_guids(d);
    forall|i: int, j: int| 0 <= i < j < g.len() ==> #[trigger] g[i] != #[trigger] g[j]
}

proof fn lemma_cloned_guids(d: SceneInstanceDocument, first: int, parent: Option<RuntimeInstanceId>)
    ensures
        ({
            let c = cloned_records(d, first, parent);
            let g = document_guids(d);
            &&& c.len() == g.len()
            &&& forall|k: int| 0 <= k < c.len() ==> (#[trigger] c[k]).edit_guid == Some(g[k])
        }),
    decreases d, 1int, 0int,
{
    lemma_cloned_children_guids(d, first, d.children.len() as int);
}

proof fn lemma_cloned_children_guids(d: SceneInstanceDocument, first: int, k: int)
    ensures
        ({
            let c = cloned_children(d, first, k);
            let g = children_guids(d, k);
            &&& c.len() == g.len()
            &&& forall|m: int| 0 <= m < c.len() ==> (#[trigger] c[m]).edit_guid == Some(g[m])
        }),
    decreases d, 0int, k,
{
    if 0 < k <= d.children.len() {
        lemma_cloned_children_guids(d, first, k - 1);
        lemma_cloned_guids(d.children[k - 1], first + 1 + children_size(d, k - 1), Some(runtime_id(first)));
        let a = cloned_children(d, first, k - 1);
        let b = cloned_records(d.children[k - 1], first + 1 + children_size(d, k - 1), Some(runtime_id(first)));
        let ga = children_guids(d, k - 1);
        let gb = document_guids(d.children[k - 1]);
        assert forall|m: int| 0 <= m < a.len() + b.len() implies (#[trigger] (a + b)[m]).edit_guid == Some(
            (ga + gb)[m],
        ) by {
            if m < a.len() {
                assert((a + b)[m] == a[m]);
            } else {
                assert((a + b)[m] == b[m - a.len()]);
            }
        }
    }
}

/// Cloning an edit scene whose instances have distinct GUIDs gives records
/// with distinct edit GUIDs.
pub proof fn lemma_clone_keeps_edit_guids_unique(d: SceneInstanceDocument)
    requires
        document_guids_unique(d),
    ensures
        edit_guids_unique(cloned_records(d, 1, None)),
{
    lemma_cloned_guids(d, 1, None);
    let c = cloned_records(d, 1, None);
    let g = document_guids(d);
    assert forall|i: int, j: int|
        0 <= i < j < c.len() && (#[trigger] c[i]).edit_guid is Some implies c[i].edit_guid != (
        #[trigger] c[j]).edit_guid by {
        assert(g[i] != g[j]);
    }
}

fn clone_document_instance(
    document: &SceneInstanceDocument,
    parent: Option<RuntimeInstanceId>,
    instances: &mut Vec<RuntimeInstanceRecord>,
    next: &mut u64,
) -> (id: RuntimeInstanceId)
    requires
        1 <= *old(next),
        *old(next) + document_size(*document) <= u64::MAX,
    ensures
        record_views(final(instances)@) == record_views(old(instances)@) + cloned_records(
            *document,
            *old(next) as int,
            parent,
        ),
        *final(next) == *old(next) + document_size(*document),
        id == runtime_id(*old(next) as int),
    decreases *document,
{
    let ghost first = *next as int;
    let ghost start = record_views(instances@);
    let id = RuntimeInstanceId::new(*next);
    *next = *next + 1;
    let index = instances.len();
    instances.push(
        RuntimeInstanceRecord {
            id,
            edit_guid: Some(document.guid),
            class_name: document.class_name.clone(),
            name: document.name.clone(),
            parent,
            children: Vec::new(),
        },
    );
    let ghost head = record_views(instances@)[index as int];
    let mut child_ids: Vec<RuntimeInstanceId> = Vec::new();
    let mut k: usize = 0;
    while k < document.children.len()
        invariant
            0 <= k <= document.children.len(),
            first >= 1,
            first + document_size(*document) <= u64::MAX,
            index == start.len(),
            id == runtime_id(first),
            record_views(instances@) == start.push(head) + cloned_children(*document, first, k as int),
            *next == first + 1 + children_size(*document, k as int),
            child_ids@ == cloned_child_ids(*document, first).take(k as int),
        decreases document.children.len() - k,
    {
        proof {
            lemma_children_size_bound(*document, k as int + 1);
            lemma_cloned_children_len(*document, first, k as int);
        }
        let child_id = clone_document_instance(&document.children[k], Some(id), instances, next);
        child_ids.push(child_id);
        proof {
            assert(child_ids@ =~= cloned_child_ids(*document, first).take(k + 1));
            assert(cloned_children(*document, first, k + 1) == cloned_children(*document, first, k as int) + cloned_records(
                document.children@[k as int],
                first + 1 + children_size(*document, k as int),
                Some(runtime_id(first)),
            ));
        }
        k = k + 1;
    }
    let ghost before = record_views(instances@);
    assert(before[index as int] == head);
    let mut record = instances[index].clone();
    assert(record@ == head);
    record.children = child_ids;
    instances.set(index, record);
    proof {
        assert(child_ids@ =~= cloned_child_ids(*document, first));
        let expected = RuntimeInstanceView {
            id: runtime_id(first),
            edit_guid: Some(document.guid),
            class_name: document.class_name@,
            name: document.name@,
            parent,
            children: cloned_child_ids(*document, first),
        };
        assert(record_views(instances@)[index as int] == expected);
        let cc = cloned_children(*document, first, document.children.len() as int);
        assert(before == start.push(head) + cc);
        assert(record_views(instances@) =~= before.update(index as int, expected));
        assert(cloned_records(*document, first, parent) == seq![expected] + cc);
        assert(record_views(instances@) =~= start + (seq![expected] + cc));
    }
    id
}

/// The first `k` child trees hold no more instances than the whole tree.
proof fn lemma_children_size_bound(d: SceneInstanceDocument, k: int)
    requires
        0 <= k <= d.children.len(),
    ensures
        children_size(d, k) + 1 <= document_size(d),
        k > 0 ==> children_size(d, k - 1) + document_size(d.children[k - 1]) + 1 <= document_size(d),
    decreases d.children.len() - k,
{
    if k < d.children.len() {
        lemma_children_size_bound(d, k + 1);
    }
}

/// Records `b` are numbered consecutively from `base`.
#[verifier::opaque]
spec fn block_ids(b: Seq<RuntimeInstanceView>, base: int) -> bool {
    forall|j: int| 0 <= j < b.len() ==> (#[trigger] b[j]).id == runtime_id(base + j)
}

/// Each listed child of a record of `b` is a later record of `b` that names
/// its parent back.
#[verifier::opaque]
spec fn block_children(b: Seq<RuntimeInstanceView>, base: int) -> bool {
    forall|j: int, m: int|
        0 <= j < b.len() && 0 <= m < b[j].children.len() ==> {
            let c = #[trigger] b[j].children[m];
            &&& base + j < c.value() < base + b.len()
            &&& b[c.value() - base].parent == Some(b[j].id)
        }
}

/// Children are listed in increasing ID order.
#[verifier::opaque]
spec fn block_sorted_children(b: Seq<RuntimeInstanceView>) -> bool {
    forall|j: int, m1: int, m2: int|
        0 <= j < b.len() && 0 <= m1 < m2 < b[j].children.len() ==> (#[trigger] b[j].children[m1]).value()
            < (#[trigger] b[j].children[m2]).value()
}

/// A parent inside `b` precedes its child and lists it.
#[verifier::opaque]
spec fn block_parents(b: Seq<RuntimeInstanceView>, base: int) -> bool {
    forall|j: int|
        0 <= j < b.len() && (#[trigger] b[j]).parent is Some && base <= b[j].parent->0.value() < base
            + b.len() ==> {
            let pv = b[j].parent->0.value() as int;
            &&& pv < base + j
            &&& b[pv - base].children.contains(b[j].id)
        }
}

/// Records `b` are numbered consecutively from `base` and their internal
/// parent and child links agree.
spec fn block_links(b: Seq<RuntimeInstanceView>, base: int) -> bool {
    &&& block_ids(b, base)
    &&& block_children(b, base)
    &&& block_sorted_children(b)
    &&& block_parents(b, base)
}

proof fn lemma_children_size_increasing(d: SceneInstanceDocument, m1: int, m2: int)
    requires
        0 <= m1 < m2 <= d.children.len(),
    ensures
        children_size(d, m1) + document_size(d.children[m1]) <= children_size(d, m2),
        children_size(d, m1) < children_size(d, m2),
    decreases m2 - m1,
{
    if m2 > m1 + 1 {
        lemma_children_size_increasing(d, m1, m2 - 1);
    }
}

/// The facts every part of the proof about a cloned block starts from.
proof fn lemma_cloned_block_setup(d: SceneInstanceDocument, first: int, parent: Option<RuntimeInstanceId>)
    requires
        1 <= first,
        first + document_size(d) <= u64::MAX + 1,
    ensures
        ({
            let n = d.children.len() as int;
            let b = cloned_records(d, first, parent);
            let kids = cloned_children(d, first, n);
            let ids = cloned_child_ids(d, first);
            &&& b.len() == document_size(d)
            &&& b.len() == kids.len() + 1
            &&& b[0].children == ids
            &&& b[0].id == runtime_id(first)
            &&& b[0].parent == parent
            &&& forall|j: int| 0 < j < b.len() ==> #[trigger] b[j] == kids[j - 1]
        }),
{
    let n = d.children.len() as int;
    let b = cloned_records(d, first, parent);
    let kids = cloned_children(d, first, n);
    lemma_cloned_len(d, first, parent);
    lemma_cloned_children_len(d, first, n);
    assert(b == seq![b[0]] + kids);
}

proof fn lemma_cloned_block_ids(d: SceneInstanceDocument, first: int, parent: Option<RuntimeInstanceId>)
    requires
        1 <= first,
        first + document_size(d) <= u64::MAX + 1,
    ensures
        block_ids(cloned_records(d, first, parent), first),
    decreases d, 1int, 0int,
{
    reveal(block_ids);
    let n = d.children.len() as int;
    let b = cloned_records(d, first, parent);
    let kids = cloned_children(d, first, n);
    lemma_cloned_block_setup(d, first, parent);
    lemma_cloned_kids(d, first, n);
    assert forall|j: int| 0 <= j < b.len() implies (#[trigger] b[j]).id == runtime_id(first + j) by {
        if j > 0 {
            assert(b[j] == kids[j - 1]);
        }
    }
}

proof fn lemma_cloned_head_children(d: SceneInstanceDocument, first: int, parent: Option<RuntimeInstanceId>)
    requires
        1 <= first,
        first + document_size(d) <= u64::MAX + 1,
    ensures
        ({
            let b = cloned_records(d, first, parent);
            &&& forall|m: int|
                0 <= m < b[0].children.len() ==> {
                    let c = #[trigger] b[0].children[m];
                    &&& first < c.value() < first + b.len()
                    &&& b[c.value() - first].parent == Some(b[0].id)
                }
            &&& forall|m1: int, m2: int|
                0 <= m1 < m2 < b[0].children.len() ==> (#[trigger] b[0].children[m1]).value() < (
                #[trigger] b[0].children[m2]).value()
        }),
    decreases d, 0int, d.children.len() + 1,
{
    let n = d.children.len() as int;
    let b = cloned_records(d, first, parent);
    let kids = cloned_children(d, first, n);
    let ids = cloned_child_ids(d, first);
    lemma_cloned_block_setup(d, first, parent);
    lemma_cloned_kids(d, first, n);
    assert forall|m: int| 0 <= m < b[0].children.len() implies {
        let c = #[trigger] b[0].children[m];
        &&& first < c.value() < first + b.len()
        &&& b[c.value() - first].parent == Some(b[0].id)
    } by {
        let c = ids[m];
        assert(c == runtime_id(first + 1 + children_size(d, m)));
        lemma_children_size_increasing(d, m, n);
        assert(kids[children_size(d, m) as int].id == c);
        assert(b[1 + children_size(d, m) as int] == kids[children_size(d, m) as int]);
    }
    assert forall|m1: int, m2: int| 0 <= m1 < m2 < b[0].children.len() implies (
    #[trigger] b[0].children[m1]).value() < (#[trigger] b[0].children[m2]).value() by {
        lemma_children_size_increasing(d, m1, m2);
        lemma_children_size_increasing(d, m2, n);
    }
}

proof fn lemma_cloned_block_children(d: SceneInstanceDocument, first: int, parent: Option<RuntimeInstanceId>)
    requires
        1 <= first,
        first + document_size(d) <= u64::MAX + 1,
    ensures
        block_children(cloned_records(d, first, parent), first),
        block_sorted_children(cloned_records(d, first, parent)),
    decreases d, 1int, 0int,
{
    reveal(block_children);
    reveal(block_sorted_children);
    let n = d.children.len() as int;
    let b = cloned_records(d, first, parent);
    let kids = cloned_children(d, first, n);
    lemma_cloned_block_setup(d, first, parent);
    lemma_cloned_kids(d, first, n);
    lemma_cloned_head_children(d, first, parent);
    assert forall|j: int, m: int| 0 <= j < b.len() && 0 <= m < b[j].children.len() implies {
        let c = #[trigger] b[j].children[m];
        &&& first + j < c.value() < first + b.len()
        &&& b[c.value() - first].parent == Some(b[j].id)
    } by {
        if j > 0 {
            assert(b[j] == kids[j - 1]);
            let c = kids[j - 1].children[m];
            assert(b[c.value() - first] == kids[c.value() - first - 1]);
        }
    }
    assert forall|j: int, m1: int, m2: int|
        0 <= j < b.len() && 0 <= m1 < m2 < b[j].children.len() implies (#[trigger] b[j].children[m1]).value()
        < (#[trigger] b[j].children[m2]).value() by {
        if j > 0 {
            assert(b[j] == kids[j - 1]);
        }
    }
}

/// Every record of a cloned block but the first has a parent inside the block.
proof fn lemma_cloned_block_internal_parents(
    d: SceneInstanceDocument,
    first: int,
    parent: Option<RuntimeInstanceId>,
)
    requires
        1 <= first,
        first + document_size(d) <= u64::MAX + 1,
    ensures
        forall|j: int|
            0 < j < cloned_records(d, first, parent).len() ==> (#[trigger] cloned_records(
                d,
                first,
                parent,
            )[j]).parent is Some && first <= cloned_records(d, first, parent)[j].parent->0.value()
                < first + cloned_records(d, first, parent).len(),
    decreases d, 1int, 0int,
{
    let n = d.children.len() as int;
    let b = cloned_records(d, first, parent);
    let kids = cloned_children(d, first, n);
    lemma_cloned_block_setup(d, first, parent);
    lemma_cloned_kids(d, first, n);
    assert forall|j: int| 0 < j < b.len() implies (#[trigger] b[j]).parent is Some && first <= b[j].parent->0.value()
        < first + b.len() by {
        assert(b[j] == kids[j - 1]);
    }
}

#[verifier::spinoff_prover]
proof fn lemma_cloned_block_parents(d: SceneInstanceDocument, first: int, parent: Option<RuntimeInstanceId>)
    requires
        1 <= first,
        first + document_size(d) <= u64::MAX + 1,
        parent is Some ==> parent->0.value() < first,
    ensures
        block_parents(cloned_records(d, first, parent), first),
    decreases d, 1int, 0int,
{
    reveal(block_parents);
    let n = d.children.len() as int;
    let b = cloned_records(d, first, parent);
    let kids = cloned_children(d, first, n);
    let ids = cloned_child_ids(d, first);
    lemma_cloned_block_setup(d, first, parent);
    lemma_cloned_kids(d, first, n);
    assert(block_parents(kids, first + 1));
    assert forall|j: int|
        0 <= j < b.len() && (#[trigger] b[j]).parent is Some && first <= b[j].parent->0.value() < first
            + b.len() implies {
        let pv = b[j].parent->0.value() as int;
        &&& pv < first + j
        &&& b[pv - first].children.contains(b[j].id)
    } by {
        assert(j > 0);
        assert(b[j] == kids[j - 1]);
        let pv = b[j].parent->0.value() as int;
        if pv == first {
            assert(b[j].parent->0 == runtime_id(first));
            assert(ids.take(n).contains(kids[j - 1].id));
            assert(ids.take(n) =~= ids);
        } else {
            assert(b[pv - first] == kids[pv - first - 1]);
        }
    }
}

proof fn lemma_cloned_block(d: SceneInstanceDocument, first: int, parent: Option<RuntimeInstanceId>)
    requires
        1 <= first,
        first + document_size(d) <= u64::MAX + 1,
        parent is Some ==> parent->0.value() < first,
    ensures
        ({
            let b = cloned_records(d, first, parent);
            &&& b.len() == document_size(d)
            &&& block_links(b, first)
            &&& b[0].parent == parent
            &&& forall|j: int|
                0 < j < b.len() ==> (#[trigger] b[j]).parent is Some && first <= b[j].parent->0.value()
                    < first + b.len()
        }),
    decreases d, 1int, 1int,
{
    lemma_cloned_block_setup(d, first, parent);
    lemma_cloned_block_ids(d, first, parent);
    lemma_cloned_block_children(d, first, parent);
    lemma_cloned_block_parents(d, first, parent);
    lemma_cloned_block_internal_parents(d, first, parent);
}

proof fn lemma_cloned_kids(d: SceneInstanceDocument, first: int, k: int)
    requires
        1 <= first,
        first + document_size(d) <= u64::MAX + 1,
        0 <= k <= d.children.len(),
    ensures
        ({
            let kids = cloned_children(d, first, k);
            let ids = cloned_child_ids(d, first);
            &&& kids.len() == children_size(d, k)
            &&& block_links(kids, first + 1)
            &&& forall|j: int|
                0 <= j < kids.len() ==> (#[trigger] kids[j]).parent is Some && (kids[j].parent->0
                    == runtime_id(first) || first + 1 <= kids[j].parent->0.value() < first + 1
                    + kids.len())
            &&& forall|j: int|
                0 <= j < kids.len() && (#[trigger] kids[j]).parent == Some(runtime_id(first))
                    ==> ids.take(k).contains(kids[j].id)
            &&& forall|m: int|
                #![trigger children_size(d, m)]
                0 <= m < k ==> kids[children_size(d, m) as int].id == ids[m] && kids[children_size(
                    d,
                    m,
                ) as int].parent == Some(runtime_id(first))
        }),
    decreases d, 0int, k,
{
    reveal(block_ids);
    reveal(block_children);
    reveal(block_sorted_children);
    reveal(block_parents);
    let kids = cloned_children(d, first, k);
    let ids = cloned_child_ids(d, first);
    lemma_cloned_children_len(d, first, k);
    if k > 0 {
        lemma_children_size_bound(d, k);
        let prev = cloned_children(d, first, k - 1);
        let child = d.children[k - 1];
        let base2 = first + 1 + children_size(d, k - 1);
        let blk = cloned_records(child, base2, Some(runtime_id(first)));
        lemma_cloned_kids(d, first, k - 1);
        lemma_cloned_block(child, base2, Some(runtime_id(first)));
        lemma_cloned_children_len(d, first, k - 1);
        assert(kids == prev + blk);
        let pl = prev.len() as int;
        assert(pl == children_size(d, k - 1));
        assert forall|j: int| 0 <= j < kids.len() implies (#[trigger] kids[j]).id == runtime_id(
            first + 1 + j,
        ) by {
            if j >= pl {
                assert(kids[j] == blk[j - pl]);
            } else {
                assert(kids[j] == prev[j]);
            }
        }
        assert forall|j: int, m: int| 0 <= j < kids.len() && 0 <= m < kids[j].children.len() implies {
            let c = #[trigger] kids[j].children[m];
            &&& first + 1 + j < c.value() < first + 1 + kids.len()
            &&& kids[c.value() - (first + 1)].parent == Some(kids[j].id)
        } by {
            if j >= pl {
                assert(kids[j] == blk[j - pl]);
                let c = blk[j - pl].children[m];
                assert(kids[c.value() - (first + 1)] == blk[c.value() - base2]);
            } else {
                assert(kids[j] == prev[j]);
                let c = prev[j].children[m];
                assert(kids[c.value() - (first + 1)] == prev[c.value() - (first + 1)]);
            }
        }
        assert forall|j: int, m1: int, m2: int|
            0 <= j < kids.len() && 0 <= m1 < m2 < kids[j].children.len() implies (
            #[trigger] kids[j].children[m1]).value() < (#[trigger] kids[j].children[m2]).value() by {
            if j >= pl {
                assert(kids[j] == blk[j - pl]);
            } else {
                assert(kids[j] == prev[j]);
            }
        }
        assert forall|j: int|
            0 <= j < kids.len() && (#[trigger] kids[j]).parent is Some && first + 1 <= kids[j].parent->0.value()
                < first + 1 + kids.len() implies {
            let pv = kids[j].parent->0.value() as int;
            &&& pv < first + 1 + j
            &&& kids[pv - (first + 1)].children.contains(kids[j].id)
        } by {
            let pv = kids[j].parent->0.value() as int;
            if j >= pl {
                assert(kids[j] == blk[j - pl]);
                if j == pl {
                    assert(blk[0].parent == Some(runtime_id(first)));
                } else {
                    assert(kids[pv - (first + 1)] == blk[pv - base2]);
                }
            } else {
                assert(kids[j] == prev[j]);
                assert(kids[pv - (first + 1)] == prev[pv - (first + 1)]);
            }
        }
        assert forall|j: int| 0 <= j < kids.len() implies (#[trigger] kids[j]).parent is Some && (
        kids[j].parent->0 == runtime_id(first) || first + 1 <= kids[j].parent->0.value() < first + 1
            + kids.len()) by {
            if j >= pl {
                assert(kids[j] == blk[j - pl]);
            } else {
                assert(kids[j] == prev[j]);
            }
        }
        assert forall|j: int|
            0 <= j < kids.len() && (#[trigger] kids[j]).parent == Some(runtime_id(first)) implies ids.take(
            k,
        ).contains(kids[j].id) by {
            if j >= pl {
                assert(kids[j] == blk[j - pl]);
                if j > pl {
                    assert(base2 <= blk[j - pl].parent->0.value());
                    assert(runtime_id(first).value() == first);
                }
                assert(kids[j].id == runtime_id(base2));
                assert(ids.take(k)[k - 1] == ids[k - 1]);
            } else {
                assert(kids[j] == prev[j]);
                assert(ids.take(k - 1).contains(kids[j].id));
                let q = choose|q: int| 0 <= q < k - 1 && #[trigger] ids.take(k - 1)[q] == kids[j].id;
                assert(ids.take(k)[q] == kids[j].id);
            }
        }
        assert forall|m: int|
            #![trigger children_size(d, m)]
            0 <= m < k implies kids[children_size(d, m) as int].id == ids[m]
            && kids[children_size(d, m) as int].parent == Some(runtime_id(first)) by {
            if m < k - 1 {
                lemma_children_size_increasing(d, m, k - 1);
                assert(kids[children_size(d, m) as int] == prev[children_size(d, m) as int]);
            } else {
                assert(kids[children_size(d, m) as int] == blk[0]);
            }
        }
    }
}

/// The records cloned from a document tree with IDs from one are well formed.
proof fn lemma_cloned_well_formed(d: SceneInstanceDocument)
    requires
        document_size(d) <= u64::MAX,
    ensures
        records_well_formed(cloned_records(d, 1, None), runtime_id(1), 1 + document_size(d)),
{
    reveal(block_ids);
    reveal(block_children);
    reveal(block_sorted_children);
    reveal(block_parents);
    let b = cloned_records(d, 1, None);
    lemma_cloned_block(d, 1, None);
    let len = b.len() as int;
    assert forall|j: int| 0 <= j < len implies (#[trigger] b[j]).id.value() == 1 + j by {}
    assert forall|i: int, j: int| 0 <= i < j < len implies (#[trigger] b[i]).id.value() < (
    #[trigger] b[j]).id.value() by {}
    assert forall|x: int| 1 <= x < 1 + len implies has_id(b, runtime_id(x)) && index_of_id(
        b,
        runtime_id(x),
    ) == x - 1 by {
        assert(b[x - 1].id == runtime_id(x));
        let k = index_of_id(b, runtime_id(x));
        assert(b[k].id.value() == 1 + k);
    }
    assert forall|j: int| 0 <= j < len && (#[trigger] b[j]).parent is Some implies {
        let p = b[j].parent->0;
        &&& has_id(b, p)
        &&& p.value() < b[j].id.value()
        &&& record_of(b, p).children.contains(b[j].id)
    } by {
        let p = b[j].parent->0;
        assert(j > 0);
        assert(p == runtime_id(p.value() as int));
    }
    assert forall|j: int, m: int| 0 <= j < len && 0 <= m < (#[trigger] b[j]).children.len() implies {
        let c = #[trigger] b[j].children[m];
        &&& has_id(b, c)
        &&& record_of(b, c).parent == Some(b[j].id)
        &&& b[j].id.value() < c.value()
    } by {
        let c = b[j].children[m];
        assert(c == runtime_id(c.value() as int));
    }
    assert forall|j: int| 0 <= j < len implies (#[trigger] b[j]).children.no_duplicates() by {
        assert forall|m1: int, m2: int| 0 <= m1 < b[j].children.len() && 0 <= m2 < b[j].children.len() && m1 != m2 implies b[j].children[m1] != b[j].children[m2] by {
            if m1 < m2 {
                assert(b[j].children[m1].value() < b[j].children[m2].value());
            } else {
                assert(b[j].children[m2].value() < b[j].children[m1].value());
            }
        }
    }
    assert(has_id(b, runtime_id(1)));
}

proof fn lemma_filter_keeps_all<A>(s: Seq<A>, pred: spec_fn(A) -> bool)
    requires
        forall|i: int| 0 <= i < s.len() ==> pred(#[trigger] s[i]),
    ensures
        s.filter(pred) == s,
    decreases s.len(),
{
    reveal(Seq::filter);
    if s.len() > 0 {
        lemma_filter_keeps_all(s.drop_last(), pred);
        assert(s.drop_last().push(s.last()) =~= s);
    }
}

/// Despawning a freshly spawned child undoes the spawn: the child's subtree
/// is the child alone, and the instances return to what they were before
/// the spawn.
pub proof fn lemma_spawn_then_despawn_restores(
    w: RuntimeWorldView,
    parent: RuntimeInstanceId,
    class_name: Seq<char>,
    name: Seq<char>,
)
    requires
        records_well_formed(w.instances, w.root, w.next_instance_id),
        has_id(w.instances, parent),
        w.next_instance_id < u64::MAX,
    ensures
        ({
            let w2 = spawned(w, parent, class_name, name);
            let id = runtime_id(w.next_instance_id as int);
            &&& subtree_ids(w2.instances, index_of_id(w2.instances, id)) == seq![id]
            &&& despawned(w2, id, seq![id]).instances == w.instances
        }),
{
    let v = w.instances;
    let n = v.len() as int;
    let next = w.next_instance_id;
    let w2 = spawned(w, parent, class_name, name);
    let v2 = w2.instances;
    let id = runtime_id(next as int);
    let pi = index_of_id(v, parent);
    lemma_spawn_well_formed(v, w.root, next, parent, class_name, name);
    let w0 = RuntimeWorldView { id: arbitrary(), instances: v, root: w.root, next_instance_id: next };
    assert(spawned(w0, parent, class_name, name).instances == v2);
    assert(records_well_formed(v2, w.root, next + 1));
    assert(v2[n].id == id);
    lemma_own_index(v2, w.root, next + 1, n);
    assert(index_of_id(v2, id) == n);
    assert(subtree_ids(v2, n) =~= seq![id]);
    assert(v2[pi].id == parent);
    lemma_own_index(v2, w.root, next + 1, pi);
    assert(index_of_id(v2, parent) == pi);
    assert(record_of(v2, id).parent->0 == parent);
    let children = v[pi].children;
    let keep = other_than(id);
    assert forall|k: int| 0 <= k < children.len() implies keep(#[trigger] children[k]) by {
        let c = children[k];
        assert(has_id(v, c));
        assert(v[index_of_id(v, c)].id.value() < next);
        assert(id.value() == next);
    }
    children.lemma_filter_push(id, keep);
    lemma_filter_keeps_all(children, keep);
    assert(v2[pi].children == children.push(id));
    let unlinked = v2.update(pi, RuntimeInstanceView { children: v2[pi].children.filter(keep), ..v2[pi] });
    assert(unlinked =~= v.push(v2[n]));
    let pred = outside_of(seq![id]);
    assert forall|k: int| 0 <= k < v.len() implies pred(#[trigger] v[k]) by {
        assert(v[k].id.value() < next);
        assert(id.value() == next);
        assert(!seq![id].contains(v[k].id));
    }
    v.lemma_filter_push(v2[n], pred);
    assert(seq![id][0] == id);
    lemma_filter_keeps_all(v, pred);
}

/// A cloned world maps its edit root back: the root document's GUID
/// resolves to the root record, which has runtime ID one and no parent.
pub proof fn lemma_clone_maps_root_guid(d: SceneInstanceDocument)
    ensures
        ({
            let v = cloned_records(d, 1, None);
            &&& has_edit_guid(v, d.guid)
            &&& first_with_edit_guid(v, d.guid) == 0
            &&& v[0].id == runtime_id(1)
            &&& v[0].parent is None
            &&& v[0].class_name == d.class_name@
            &&& v[0].name == d.name@
        }),
{
    let v = cloned_records(d, 1, None);
    lemma_cloned_len(d, 1, None);
    assert(v[0].edit_guid == Some(d.guid));
    assert(has_edit_guid(v, d.guid));
    let k = first_with_edit_guid(v, d.guid);
    assert(0 <= k < v.len() && v[k].edit_guid == Some(d.guid) && forall|j: int|
        0 <= j < k ==> v[j].edit_guid != Some(d.guid));
}

/// Result type for runtime world operations.
pub type RuntimeWorldResult<T> = Result<T, RuntimeWorldError>;

/// Errors returned by runtime world operations.
#[derive(Debug, PartialEq, Eq)]
pub enum RuntimeWorldError {
    /// Runtime child spawn was requested under a missing parent.
    MissingParent {
        /// Missing parent ID.
        parent: RuntimeInstanceId,
    },
    /// Runtime instance ID was not present in the world.
    InvalidInstance {
        /// Invalid runtime instance ID.
        id: RuntimeInstanceId,
    },
    /// Runtime instance class name was empty.
    EmptyClassName,
    /// Runtime instance name was empty or contained a path separator.
    InvalidInstanceName {
        /// Invalid runtime instance name.
        name: String,
    },
    /// Runtime root cannot be despawned.
    CannotDespawnRoot {
        /// Root runtime instance ID.
        root: RuntimeInstanceId,
    },
}

impl Clone for RuntimeWorldError {
    fn clone(&self) -> (r: Self)
        ensures
            r == *self,
    {
        match self {
            RuntimeWorldError::MissingParent { parent } => RuntimeWorldError::MissingParent {
                parent: *parent,
            },
            RuntimeWorldError::InvalidInstance { id } => RuntimeWorldError::InvalidInstance {
                id: *id,
            },
            RuntimeWorldError::EmptyClassName => RuntimeWorldError::EmptyClassName,
            RuntimeWorldError::InvalidInstanceName { name } =>
                RuntimeWorldError::InvalidInstanceName { name: name.clone() },
            RuntimeWorldError::CannotDespawnRoot { root } => RuntimeWorldError::CannotDespawnRoot {
                root: *root,
            },
        }
    }
}

/// Display text of a runtime instance ID.
pub open spec fn instance_id_text(id: RuntimeInstanceId) -> Seq<char> {
    "RuntimeInstanceId("@ + decimal(id.value() as nat) + ")"@
}

impl RuntimeWorldError {
    /// The human-readable message of this error.
    pub open spec fn spec_message(&self) -> Seq<char> {
        match self {
            RuntimeWorldError::MissingParent { parent } => "runtime parent instance is missing: "@
                + instance_id_text(*parent),
            RuntimeWorldError::InvalidInstance { id } => "runtime instance is missing: "@
                + instance_id_text(*id),
            RuntimeWorldError::EmptyClassName => "runtime instance class name must not be empty"@,
            RuntimeWorldError::InvalidInstanceName { name } =>
                "runtime instance name must be non-empty and must not contain '/': "@ + name@,
            RuntimeWorldError::CannotDespawnRoot { root } =>
                "runtime root instance cannot be despawned: "@ + instance_id_text(*root),
        }
    }

    /// Returns the human-readable message of this error.
    pub fn to_string(&self) -> (s: String)
        ensures
            s@ == self.spec_message(),
    {
        match self {
            RuntimeWorldError::MissingParent { parent } => {
                let id = parent.to_string();
                join2("runtime parent instance is missing: ", id.as_str())
            },
            RuntimeWorldError::InvalidInstance { id } => {
                let text = id.to_string();
                join2("runtime instance is missing: ", text.as_str())
            },
            RuntimeWorldError::EmptyClassName => owned(
                "runtime instance class name must not be empty",
            ),
            RuntimeWorldError::InvalidInstanceName { name } => join2(
                "runtime instance name must be non-empty and must not contain '/': ",
                name.as_str(),
            ),
            RuntimeWorldError::CannotDespawnRoot { root } => {
                let id = root.to_string();
                join2("runtime root instance cannot be despawned: ", id.as_str())
            },
        }
    }
}

/// The world after spawning the runtime-only child `class_name`/`name`
/// under `parent`: the child takes the next runtime ID, has no edit GUID and
/// no children, is appended to the instances and to the parent's children.
pub open spec fn spawned(
    w: RuntimeWorldView,
    parent: RuntimeInstanceId,
    class_name: Seq<char>,
    name: Seq<char>,
) -> RuntimeWorldView {
    let pi = index_of_id(w.instances, parent);
    let id = runtime_id(w.next_instance_id as int);
    let p = w.instances[pi];
    RuntimeWorldView {
        instances: w.instances.update(pi, RuntimeInstanceView { children: p.children.push(id), ..p }).push(
            RuntimeInstanceView {
                id,
                edit_guid: None,
                class_name,
                name,
                parent: Some(parent),
                children: Seq::empty(),
            },
        ),
        next_instance_id: w.next_instance_id + 1,
        ..w
    }
}

/// Runtime IDs of the subtree rooted at record `i`, in depth-first
/// preorder: the record's own ID, then the subtree of each listed child in
/// order. A child that is absent, or does not follow the record, stands for
/// itself alone.
pub open spec fn subtree_ids(v: Seq<RuntimeInstanceView>, i: int) -> Seq<RuntimeInstanceId>
    decreases v.len() - i, 1int, 0int,
{
    if 0 <= i < v.len() {
        seq![v[i].id] + child_subtree_ids(v, i, v[i].children.len() as int)
    } else {
        Seq::empty()
    }
}

/// The subtrees of the first `k` children of record `i`, in order.
pub open spec fn child_subtree_ids(v: Seq<RuntimeInstanceView>, i: int, k: int) -> Seq<
    RuntimeInstanceId,
>
    decreases v.len() - i, 0int, k,
{
    if 0 < k && 0 <= i < v.len() && k <= v[i].children.len() {
        let c = v[i].children[k - 1];
        let ci = index_of_id(v, c);
        child_subtree_ids(v, i, k - 1) + if has_id(v, c) && i < ci {
            subtree_ids(v, ci)
        } else {
            seq![c]
        }
    } else {
        Seq::empty()
    }
}

/// The world after despawning `instance` and the subtree `removed`: the
/// instance leaves its parent's children, and every record whose ID is in
/// `removed` leaves the world; everything else keeps its order.
pub open spec fn despawned(
    w: RuntimeWorldView,
    instance: RuntimeInstanceId,
    removed: Seq<RuntimeInstanceId>,
) -> RuntimeWorldView {
    let v = w.instances;
    let parent = record_of(v, instance).parent->0;
    let pi = index_of_id(v, parent);
    let unlinked = v.update(
        pi,
        RuntimeInstanceView {
            children: v[pi].children.filter(other_than(instance)),
            ..v[pi]
        },
    );
    RuntimeWorldView { instances: unlinked.filter(outside_of(removed)), ..w }
}

/// Whether a runtime ID differs from `id`.
pub open spec fn other_than(id: RuntimeInstanceId) -> spec_fn(RuntimeInstanceId) -> bool {
    |c: RuntimeInstanceId| c != id
}

/// Whether a record's ID is outside `removed`.
pub open spec fn outside_of(removed: Seq<RuntimeInstanceId>) -> spec_fn(RuntimeInstanceView) -> bool {
    |r: RuntimeInstanceView| !removed.contains(r.id)
}

fn contains_id(ids: &Vec<RuntimeInstanceId>, x: RuntimeInstanceId) -> (r: bool)
    ensures
        r == ids@.contains(x),
{
    let mut i: usize = 0;
    while i < ids.len()
        invariant
            0 <= i <= ids.len(),
            forall|j: int| 0 <= j < i ==> ids@[j] != x,
        decreases ids.len() - i,
    {
        if ids[i] == x {
            proof {
                assert(ids@[i as int] == x);
            }
            return true;
        }
        i = i + 1;
    }
    false
}

fn without_id(ids: &Vec<RuntimeInstanceId>, x: RuntimeInstanceId) -> (r: Vec<RuntimeInstanceId>)
    ensures
        r@ == ids@.filter(other_than(x)),
{
    let ghost keep = other_than(x);
    let mut r: Vec<RuntimeInstanceId> = Vec::new();
    let mut i: usize = 0;
    while i < ids.len()
        invariant
            0 <= i <= ids.len(),
            keep == other_than(x),
            r@ == ids@.take(i as int).filter(keep),
        decreases ids.len() - i,
    {
        proof {
            assert(ids@.take(i + 1) =~= ids@.take(i as int).push(ids@[i as int]));
            ids@.take(i as int).lemma_filter_push(ids@[i as int], keep);
        }
        if ids[i] != x {
            r.push(ids[i]);
        }
        i = i + 1;
    }
    proof {
        assert(ids@.take(i as int) =~= ids@);
    }
    r
}

fn keep_outside(records: &Vec<RuntimeInstanceRecord>, removed: &Vec<RuntimeInstanceId>) -> (r: Vec<
    RuntimeInstanceRecord,
>)
    ensures
        record_views(r@) == record_views(records@).filter(outside_of(removed@)),
{
    let ghost keep = outside_of(removed@);
    let ghost src = record_views(records@);
    let mut r: Vec<RuntimeInstanceRecord> = Vec::new();
    let mut i: usize = 0;
    while i < records.len()
        invariant
            0 <= i <= records.len(),
            keep == outside_of(removed@),
            src == record_views(records@),
            record_views(r@) == src.take(i as int).filter(keep),
        decreases records.len() - i,
    {
        proof {
            assert(src.take(i + 1) =~= src.take(i as int).push(src[i as int]));
            src.take(i as int).lemma_filter_push(src[i as int], keep);
        }
        if !contains_id(removed, records[i].id) {
            let ghost before = r@;
            let copy = records[i].clone();
            r.push(copy);
            proof {
                assert(record_views(r@) =~= record_views(before).push(src[i as int]));
            }
        }
        i = i + 1;
    }
    proof {
        assert(src.take(i as int) =~= src);
    }
    r
}

/// The content of a [`RuntimeWorld`].
pub struct RuntimeWorldView {
    pub id: RuntimeWorldId,
    pub instances: Seq<RuntimeInstanceView>,
    pub root: RuntimeInstanceId,
    pub next_instance_id: nat,
}

/// Sandboxed runtime world derived from edit scene state.
#[derive(Debug, PartialEq, Eq)]
pub struct RuntimeWorld {
    id: RuntimeWorldId,
    instances: Vec<RuntimeInstanceRecord>,
    root: Option<RuntimeInstanceId>,
    next_instance_id: u64,
}

impl View for RuntimeWorld {
    type V = RuntimeWorldView;

    closed spec fn view(&self) -> RuntimeWorldView {
        RuntimeWorldView {
            id: self.id,
            instances: record_views(self.instances@),
            root: self.root->0,
            next_instance_id: self.next_instance_id as nat,
        }
    }
}

impl RuntimeWorld {
    #[verifier::type_invariant]
    spec fn well_formed(self) -> bool {
        &&& self.root is Some
        &&& records_well_formed(record_views(self.instances@), self.root->0, self.next_instance_id as nat)
    }

    /// Creates a runtime world clone from the root instance document of an
    /// edit scene. Runtime IDs are owned by the runtime world: the instances
    /// are numbered from one in depth-first preorder, parents before
    /// children, and edit GUIDs are retained only as provenance. A scene
    /// without a root cannot be cloned.
    pub fn clone_from_edit_scene(id: RuntimeWorldId, scene_root: Option<&SceneInstanceDocument>) -> (r:
        Result<Self, SceneError>)
        requires
            scene_root is Some ==> document_size(*scene_root->0) < u64::MAX,
        ensures
            scene_root is None ==> r == Err::<Self, SceneError>(SceneError::MissingRoot),
            scene_root is Some ==> r is Ok && r->Ok_0@ == (RuntimeWorldView {
                id,
                instances: cloned_records(*scene_root->0, 1, None),
                root: runtime_id(1),
                next_instance_id: 1 + document_size(*scene_root->0),
            }),
            scene_root is Some && document_guids_unique(*scene_root->0) ==> edit_guids_unique(
                r->Ok_0@.instances,
            ),
    {
        let root = match scene_root {
            None => {
                return Err(SceneError::MissingRoot);
            },
            Some(root) => root,
        };
        let mut instances: Vec<RuntimeInstanceRecord> = Vec::new();
        let mut next: u64 = 1;
        let root_id = clone_document_instance(root, None, &mut instances, &mut next);
        proof {
            assert(record_views(instances@) =~= cloned_records(*root, 1, None));
            lemma_cloned_well_formed(*root);
            if document_guids_unique(*root) {
                lemma_clone_keeps_edit_guids_unique(*root);
            }
        }
        Ok(RuntimeWorld { id, instances, root: Some(root_id), next_instance_id: next })
    }

    /// Returns this runtime world's ID.
    pub fn id(&self) -> (id: RuntimeWorldId)
        ensures
            id == self@.id,
    {
        self.id
    }

    /// Returns the root runtime instance ID.
    pub fn root_id(&self) -> (r: Option<RuntimeInstanceId>)
        ensures
            r == Some(self@.root),
    {
        proof {
            use_type_invariant(self);
        }
        self.root
    }

    /// Returns all runtime instances in deterministic parent-before-child order.
    pub fn instances(&self) -> (s: &[RuntimeInstanceRecord])
        ensures
            record_views(s@) == self@.instances,
            records_well_formed(self@.instances, self@.root, self@.next_instance_id),
    {
        proof {
            use_type_invariant(self);
        }
        self.instances.as_slice()
    }

    fn instance_index(&self, id: RuntimeInstanceId) -> (r: Option<usize>)
        ensures
            match r {
                Some(i) => i < self@.instances.len() && i == index_of_id(self@.instances, id)
                    && has_id(self@.instances, id),
                None => !has_id(self@.instances, id),
            },
    {
        proof {
            use_type_invariant(self);
        }
        let ghost v = self@.instances;
        assert(ids_increasing(v));
        let mut i: usize = 0;
        while i < self.instances.len()
            invariant
                0 <= i <= self.instances.len(),
                v == record_views(self.instances@),
                ids_increasing(v),
                forall|j: int| 0 <= j < i ==> v[j].id != id,
            decreases self.instances.len() - i,
        {
            if self.instances[i].id == id {
                proof {
                    assert(v[i as int].id == id);
                    let k = index_of_id(v, id);
                    if k != i {
                        if k < i {
                            assert(v[k].id.value() < v[i as int].id.value());
                        } else {
                            assert(v[i as int].id.value() < v[k].id.value());
                        }
                    }
                }
                return Some(i);
            }
            i = i + 1;
        }
        None
    }

    /// A world of `id` holding only an unnamed, classless root with runtime
    /// ID one; it stands in while a world is taken apart and rebuilt.
    fn placeholder(id: RuntimeWorldId) -> (w: Self)
        ensures
            w@ == (RuntimeWorldView {
                id,
                instances: seq![
                    RuntimeInstanceView {
                        id: runtime_id(1),
                        edit_guid: None,
                        class_name: Seq::empty(),
                        name: Seq::empty(),
                        parent: None,
                        children: Seq::empty(),
                    },
                ],
                root: runtime_id(1),
                next_instance_id: 2,
            }),
    {
        let root = RuntimeInstanceId::new(1);
        let mut instances: Vec<RuntimeInstanceRecord> = Vec::new();
        instances.push(
            RuntimeInstanceRecord {
                id: root,
                edit_guid: None,
                class_name: String::new(),
                name: String::new(),
                parent: None,
                children: Vec::new(),
            },
        );
        proof {
            let v = record_views(instances@);
            assert(v[0].id == root);
            assert(has_id(v, root));
        }
        let w = RuntimeWorld { id, instances, root: Some(root), next_instance_id: 2 };
        proof {
            assert(record_views(w.instances@)[0].class_name =~= Seq::<char>::empty());
            assert(record_views(w.instances@)[0].name =~= Seq::<char>::empty());
            assert(record_views(w.instances@)[0].children =~= Seq::<RuntimeInstanceId>::empty());
            assert(record_views(w.instances@) =~= seq![record_views(w.instances@)[0]]);
        }
        w
    }

    /// Spawns a runtime-only child under `parent`. The class name must not be
    /// blank, then the name must be neither blank nor hold `/`, then the
    /// parent must be present; the first check that fails gives the error and
    /// leaves the world unchanged.
    pub fn spawn_runtime_child(
        &mut self,
        parent: RuntimeInstanceId,
        class_name: &str,
        name: &str,
    ) -> (r: RuntimeWorldResult<RuntimeInstanceId>)
        requires
            old(self)@.next_instance_id < u64::MAX,
        ensures
            is_blank(class_name@) ==> r == Err::<RuntimeInstanceId, RuntimeWorldError>(
                RuntimeWorldError::EmptyClassName,
            ),
            !is_blank(class_name@) && (is_blank(name@) || name@.contains('/')) ==> (r is Err && (
            r->Err_0 matches RuntimeWorldError::InvalidInstanceName { name: n } && n@ == name@)),
            !is_blank(class_name@) && !is_blank(name@) && !name@.contains('/') && !has_id(
                old(self)@.instances,
                parent,
            ) ==> r == Err::<RuntimeInstanceId, RuntimeWorldError>(
                RuntimeWorldError::MissingParent { parent },
            ),
            r is Err ==> final(self)@ == old(self)@,
            !is_blank(class_name@) && !is_blank(name@) && !name@.contains('/') && has_id(
                old(self)@.instances,
                parent,
            ) ==> r == Ok::<RuntimeInstanceId, RuntimeWorldError>(
                runtime_id(old(self)@.next_instance_id as int),
            ) && final(self)@ == spawned(old(self)@, parent, class_name@, name@),
            edit_guids_unique(old(self)@.instances) ==> edit_guids_unique(final(self)@.instances),
    {
        proof {
            use_type_invariant(&*self);
        }
        if blank(class_name) {
            return Err(RuntimeWorldError::EmptyClassName);
        }
        if blank(name) || contains_char(name, '/') {
            return Err(RuntimeWorldError::InvalidInstanceName { name: owned(name) });
        }
        let parent_index = match self.instance_index(parent) {
            Some(i) => i,
            None => {
                return Err(RuntimeWorldError::MissingParent { parent });
            },
        };
        let ghost w = self@;
        let ghost v = w.instances;
        assert(v[0].id.value() < w.next_instance_id);
        let mut taken = RuntimeWorld::placeholder(self.id);
        std::mem::swap(self, &mut taken);
        let RuntimeWorld { id: world_id, instances, root, next_instance_id } = taken;
        let mut instances = instances;
        let id = RuntimeInstanceId::new(next_instance_id);
        let mut parent_record = instances[parent_index].clone();
        parent_record.children.push(id);
        instances.set(parent_index, parent_record);
        instances.push(
            RuntimeInstanceRecord {
                id,
                edit_guid: None,
                class_name: owned(class_name),
                name: owned(name),
                parent: Some(parent),
                children: Vec::new(),
            },
        );
        let ghost v2 = record_views(instances@);
        proof {
            let target = spawned(w, parent, class_name@, name@);
            assert(v2 =~= target.instances);
            lemma_spawn_well_formed(v, root->0, w.next_instance_id, parent, class_name@, name@);
            if edit_guids_unique(v) {
                lemma_spawn_keeps_edit_guids_unique(w, parent, class_name@, name@);
            }
        }
        *self = RuntimeWorld { id: world_id, instances, root, next_instance_id: next_instance_id + 1 };
        Ok(id)
    }

    fn collect_subtree_ids(&self, i: usize, output: &mut Vec<RuntimeInstanceId>)
        requires
            i < self@.instances.len(),
        ensures
            final(output)@ == old(output)@ + subtree_ids(self@.instances, i as int),
        decreases self@.instances.len() - i,
    {
        let ghost v = self@.instances;
        let ghost start = output@;
        output.push(self.instances[i].id);
        let children = &self.instances[i].children;
        let mut k: usize = 0;
        while k < children.len()
            invariant
                0 <= k <= children.len(),
                i < v.len(),
                v == self@.instances,
                children@ == v[i as int].children,
                output@ == start + seq![v[i as int].id] + child_subtree_ids(v, i as int, k as int),
            decreases children.len() - k,
        {
            let c = children[k];
            let ghost before = output@;
            match self.instance_index(c) {
                Some(ci) => {
                    if ci > i {
                        self.collect_subtree_ids(ci, output);
                    } else {
                        output.push(c);
                    }
                },
                None => {
                    output.push(c);
                },
            }
            proof {
                assert(child_subtree_ids(v, i as int, k + 1) == child_subtree_ids(v, i as int, k as int) + if has_id(v, c) && i < index_of_id(v, c) {
                    subtree_ids(v, index_of_id(v, c))
                } else {
                    seq![c]
                });
            }
            k = k + 1;
        }
        proof {
            assert(subtree_ids(v, i as int) == seq![v[i as int].id] + child_subtree_ids(v, i as int, v[i as int].children.len() as int));
        }
    }

    /// Despawns a runtime instance and all of its runtime children, and
    /// returns the removed IDs in depth-first preorder, parent before child.
    /// The runtime root cannot be despawned, and the instance must be
    /// present; otherwise the world is unchanged.
    pub fn despawn_runtime_subtree(&mut self, instance: RuntimeInstanceId) -> (r: RuntimeWorldResult<
        Vec<RuntimeInstanceId>,
    >)
        ensures
            instance == old(self)@.root ==> r == Err::<Vec<RuntimeInstanceId>, RuntimeWorldError>(
                RuntimeWorldError::CannotDespawnRoot { root: instance },
            ),
            instance != old(self)@.root && !has_id(old(self)@.instances, instance) ==> r == Err::<
                Vec<RuntimeInstanceId>,
                RuntimeWorldError,
            >(RuntimeWorldError::InvalidInstance { id: instance }),
            r is Err ==> final(self)@ == old(self)@,
            instance != old(self)@.root && has_id(old(self)@.instances, instance) ==> r is Ok
                && r->Ok_0@ == subtree_ids(
                old(self)@.instances,
                index_of_id(old(self)@.instances, instance),
            ) && final(self)@ == despawned(old(self)@, instance, r->Ok_0@),
            edit_guids_unique(old(self)@.instances) ==> edit_guids_unique(final(self)@.instances),
            r is Ok && edit_guids_unique(old(self)@.instances) ==> forall|guid: InstanceGuid|
                record_of(old(self)@.instances, instance).edit_guid == Some(guid) ==> !has_edit_guid(
                    final(self)@.instances,
                    guid,
                ),
    {
        proof {
            use_type_invariant(&*self);
        }
        let ghost w = self@;
        let ghost v = w.instances;
        match self.root {
            Some(root) => {
                if root == instance {
                    return Err(RuntimeWorldError::CannotDespawnRoot { root: instance });
                }
            },
            None => {},
        }
        let index = match self.instance_index(instance) {
            Some(i) => i,
            None => {
                return Err(RuntimeWorldError::InvalidInstance { id: instance });
            },
        };
        let mut removed: Vec<RuntimeInstanceId> = Vec::new();
        self.collect_subtree_ids(index, &mut removed);
        assert(removed@ =~= subtree_ids(v, index as int));
        proof {
            lemma_despawn_well_formed(v, w.root, w.next_instance_id, instance);
            assert(v[index as int].id == instance);
        }
        let parent = match self.instances[index].parent {
            Some(p) => p,
            None => {
                return Ok(removed);
            },
        };
        let parent_index = match self.instance_index(parent) {
            Some(i) => i,
            None => {
                return Ok(removed);
            },
        };
        let mut taken = RuntimeWorld::placeholder(self.id);
        std::mem::swap(self, &mut taken);
        let RuntimeWorld { id: world_id, instances, root, next_instance_id } = taken;
        let mut instances = instances;
        let mut parent_record = instances[parent_index].clone();
        parent_record.children = without_id(&parent_record.children, instance);
        instances.set(parent_index, parent_record);
        let kept = keep_outside(&instances, &removed);
        proof {
            let target = despawned(w, instance, removed@);
            let pi = index_of_id(v, parent);
            assert(record_views(instances@) =~= v.update(
                pi,
                RuntimeInstanceView { children: v[pi].children.filter(other_than(instance)), ..v[pi] },
            ));
            assert(record_views(kept@) == target.instances);
            if edit_guids_unique(v) {
                lemma_despawn_keeps_edit_guids_unique(w, instance, removed@);
                assert forall|guid: InstanceGuid| record_of(v, instance).edit_guid == Some(guid) implies !has_edit_guid(
                    target.instances,
                    guid,
                ) by {
                    lemma_despawn_forgets_edit_guid(w, instance, guid);
                }
            }
        }
        *self = RuntimeWorld { id: world_id, instances: kept, root, next_instance_id };
        Ok(removed)
    }

    /// Returns a runtime instance by runtime ID.
    pub fn get(&self, id: RuntimeInstanceId) -> (r: Option<&RuntimeInstanceRecord>)
        ensures
            match r {
                Some(rec) => has_id(self@.instances, id) && rec@ == record_of(self@.instances, id),
                None => !has_id(self@.instances, id),
            },
    {
        match self.instance_index(id) {
            Some(i) => Some(&self.instances[i]),
            None => None,
        }
    }

    /// Returns the runtime instance cloned from `edit_guid`, if any: the
    /// first in instance order.
    pub fn runtime_id_for_edit_guid(&self, edit_guid: InstanceGuid) -> (r: Option<
        RuntimeInstanceId,
    >)
        ensures
            match r {
                Some(id) => has_edit_guid(self@.instances, edit_guid) && id == self@.instances[first_with_edit_guid(self@.instances, edit_guid)].id,
                None => !has_edit_guid(self@.instances, edit_guid),
            },
    {
        let ghost v = self@.instances;
        let mut i: usize = 0;
        while i < self.instances.len()
            invariant
                0 <= i <= self.instances.len(),
                v == record_views(self.instances@),
                forall|j: int| 0 <= j < i ==> v[j].edit_guid != Some(edit_guid),
            decreases self.instances.len() - i,
        {
            if self.instances[i].edit_guid == Some(edit_guid) {
                proof {
                    assert(v[i as int].edit_guid == Some(edit_guid));
                    let k = first_with_edit_guid(v, edit_guid);
                    assert(k == i);
                }
                return Some(self.instances[i].id);
            }
            i = i + 1;
        }
        None
    }
}

} // verus!
