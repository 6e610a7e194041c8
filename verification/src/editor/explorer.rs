//! Explorer hierarchy rows for the active scene.

use vstd::prelude::*;

use crate::foundation::id::{InstanceGuid, InstanceId};

verus! {

/// One row in the Explorer hierarchy.
#[derive(Debug, Eq, PartialEq)]
pub struct ExplorerRow {
    /// Instance ID in the active edit scene.
    pub id: InstanceId,
    /// Stable edit-world instance GUID.
    pub guid: InstanceGuid,
    /// Parent instance ID when this row is not the root.
    pub parent: Option<InstanceId>,
    /// Registered class name.
    pub class_name: String,
    /// Instance display name.
    pub name: String,
    /// Absolute scene path.
    pub scene_path: String,
    /// Depth from the scene root.
    pub depth: usize,
    /// Child instance IDs in deterministic display order.
    pub children: Vec<InstanceId>,
}

impl Clone for ExplorerRow {
    fn clone(&self) -> (r: Self)
        ensures
            r.id == self.id,
            r.guid == self.guid,
            r.parent == self.parent,
            r.class_name == self.class_name,
            r.name == self.name,
            r.scene_path == self.scene_path,
            r.depth == self.depth,
            r.children@ == self.children@,
    {
        ExplorerRow {
            id: self.id,
            guid: self.guid,
            parent: self.parent,
            class_name: self.class_name.clone(),
            name: self.name.clone(),
            scene_path: self.scene_path.clone(),
            depth: self.depth,
            children: self.children.clone(),
        }
    }
}

/// Deterministic Explorer hierarchy snapshot.
#[derive(Debug, Eq, PartialEq)]
pub struct ExplorerSnapshot {
    rows: Vec<ExplorerRow>,
}

impl View for ExplorerSnapshot {
    type V = Seq<ExplorerRow>;

    closed spec fn view(&self) -> Seq<ExplorerRow> {
        self.rows@
    }
}

/// Whether row `p` is the parent row of row `i`: it comes earlier, its ID is
/// the parent ID of row `i`, it lists row `i` among its children, and row
/// `i` lies one level deeper.
pub open spec fn is_parent_row(rows: Seq<ExplorerRow>, p: int, i: int) -> bool {
    &&& 0 <= p < i < rows.len()
    &&& rows[i].parent == Some(rows[p].id)
    &&& rows[p].children@.contains(rows[i].id)
    &&& rows[i].depth == rows[p].depth + 1
}

/// Whether some row before row `i` has instance ID `id`.
#[verifier::opaque]
pub open spec fn row_before(rows: Seq<ExplorerRow>, i: int, id: InstanceId) -> bool {
    exists|k: int| 0 <= k < i && rows[k].id == id
}

/// Whether every child that row `p` lists before row `i` already has a row
/// before row `i`: siblings come in their parent's child order.
pub open spec fn earlier_siblings_first(rows: Seq<ExplorerRow>, p: int, i: int) -> bool {
    forall|a: int|
        #![trigger rows[p].children@[a]]
        0 <= a < rows[p].children@.len() && !rows[p].children@.take(a + 1).contains(rows[i].id)
            ==> row_before(rows, i, rows[p].children@[a])
}

/// Whether rows are in parent-before-child display order: the root comes
/// first, at depth 0 and without a parent; no instance has two rows; and
/// every later row has an earlier parent row, after the rows of the
/// siblings its parent lists before it.
pub open spec fn rows_in_display_order(rows: Seq<ExplorerRow>) -> bool {
    &&& rows.len() > 0 ==> rows[0].parent is None && rows[0].depth == 0
    &&& forall|i: int| 0 <= i < rows.len() ==> !#[trigger] row_before(rows, i, rows[i].id)
    &&& forall|i: int| 0 < i < rows.len() ==> #[trigger] has_parent_row_at(rows, i)
}

/// Whether some row is the parent row of row `i` and row `i` follows the
/// rows of its earlier siblings.
#[verifier::opaque]
pub open spec fn has_parent_row_at(rows: Seq<ExplorerRow>, i: int) -> bool {
    exists|p: int| is_parent_row(rows, p, i) && earlier_siblings_first(rows, p, i)
}

fn id_in_rows_before(rows: &Vec<ExplorerRow>, i: usize, id: InstanceId) -> (b: bool)
    requires
        i <= rows@.len(),
    ensures
        b == row_before(rows@, i as int, id),
{
    reveal(row_before);
    let mut k: usize = 0;
    while k < i
        invariant
            0 <= k <= i <= rows@.len(),
            forall|m: int| 0 <= m < k ==> (#[trigger] rows@[m]).id != id,
        decreases i - k,
    {
        if rows[k].id == id {
            assert(0 <= k < i && rows@[k as int].id == id);
            assert(row_before(rows@, i as int, id)) by {
                reveal(row_before);
            }
            return true;
        }
        k = k + 1;
    }
    false
}

fn siblings_in_order(rows: &Vec<ExplorerRow>, p: usize, i: usize) -> (b: bool)
    requires
        p < i < rows@.len(),
        rows@[p as int].children@.contains(rows@[i as int].id),
    ensures
        b == earlier_siblings_first(rows@, p as int, i as int),
{
    reveal(row_before);
    let listed = &rows[p].children;
    let x = rows[i].id;
    let ghost rs = rows@;
    let mut a: usize = 0;
    while a < listed.len()
        invariant
            0 <= a <= listed@.len(),
            rs == rows@,
            p < i < rs.len(),
            listed@ == rs[p as int].children@,
            x == rs[i as int].id,
            listed@.contains(x),
            forall|m: int| 0 <= m < a ==> listed@[m] != x,
            forall|m: int| 0 <= m < a ==> row_before(rs, i as int, #[trigger] listed@[m]),
        decreases listed@.len() - a,
    {
        if listed[a] == x {
            proof {
                assert forall|m: int|
                    #![trigger listed@[m]]
                    0 <= m < listed@.len() && !listed@.take(m + 1).contains(x) implies row_before(
                        rs,
                        i as int,
                        listed@[m],
                    ) by {
                    if m >= a {
                        assert(listed@.take(m + 1)[a as int] == x);
                    }
                }
            }
            return true;
        }
        if !id_in_rows_before(rows, i, listed[a]) {
            proof {
                assert(!listed@.take(a + 1).contains(x)) by {
                    if listed@.take(a + 1).contains(x) {
                        let w = choose|w: int| 0 <= w < a + 1 && #[trigger] listed@.take(a + 1)[w] == x;
                        assert(listed@[w] == x);
                    }
                }
            }
            return false;
        }
        a = a + 1;
    }
    proof {
        let w = choose|w: int| 0 <= w < listed@.len() && listed@[w] == x;
        assert(listed@[w] != x);
    }
    true
}

fn contains_id(ids: &Vec<InstanceId>, id: InstanceId) -> (b: bool)
    ensures
        b == ids@.contains(id),
{
    let mut k: usize = 0;
    while k < ids.len()
        invariant
            0 <= k <= ids@.len(),
            forall|m: int| 0 <= m < k ==> ids@[m] != id,
        decreases ids@.len() - k,
    {
        if ids[k] == id {
            assert(ids@[k as int] == id);
            return true;
        }
        k = k + 1;
    }
    false
}

fn has_parent_row(rows: &Vec<ExplorerRow>, i: usize) -> (found: bool)
    requires
        0 < i < rows@.len(),
    ensures
        found == has_parent_row_at(rows@, i as int),
{
    reveal(has_parent_row_at);
    let parent = match rows[i].parent {
        Some(id) => id,
        None => {
            return false;
        },
    };
    if rows[i].depth == 0 {
        return false;
    }
    let mut p: usize = 0;
    while p < i
        invariant
            0 <= p <= i < rows@.len(),
            rows@[i as int].parent == Some(parent),
            rows@[i as int].depth > 0,
            forall|q: int|
                0 <= q < p ==> !(#[trigger] is_parent_row(rows@, q, i as int)
                    && earlier_siblings_first(rows@, q, i as int)),
        decreases i - p,
    {
        let row = &rows[p];
        if row.id == parent && row.depth == rows[i].depth - 1 && contains_id(&row.children, rows[i].id)
            && siblings_in_order(rows, p, i) {
            assert(is_parent_row(rows@, p as int, i as int) && earlier_siblings_first(
                rows@,
                p as int,
                i as int,
            ));
            assert(has_parent_row_at(rows@, i as int)) by {
                reveal(has_parent_row_at);
            }
            return true;
        }
        p = p + 1;
    }
    false
}

impl ExplorerSnapshot {
    #[verifier::type_invariant]
    spec fn well_formed(self) -> bool {
        rows_in_display_order(self.rows@)
    }

    /// Creates a snapshot from rows, or `None` when the rows are not in
    /// parent-before-child display order.
    pub fn new(rows: Vec<ExplorerRow>) -> (s: Option<Self>)
        ensures
            s is Some <==> rows_in_display_order(rows@),
            s matches Some(snapshot) ==> snapshot@ == rows@,
    {
        if rows.len() == 0 {
            return Some(ExplorerSnapshot { rows });
        }
        if rows[0].parent.is_some() || rows[0].depth != 0 {
            return None;
        }
        let mut i: usize = 0;
        while i < rows.len()
            invariant
                0 <= i <= rows@.len(),
                rows@.len() > 0,
                rows@[0].parent is None && rows@[0].depth == 0,
                forall|k: int| 0 <= k < i ==> !#[trigger] row_before(rows@, k, rows@[k].id),
                forall|k: int| 0 < k < i ==> #[trigger] has_parent_row_at(rows@, k),
            decreases rows@.len() - i,
        {
            let repeated = id_in_rows_before(&rows, i, rows[i].id);
            if repeated {
                return None;
            }
            if i > 0 {
                let found = has_parent_row(&rows, i);
                if !found {
                    return None;
                }
            }
            proof {
                assert forall|k: int| 0 <= k < i + 1 implies !#[trigger] row_before(rows@, k, rows@[k].id) by {
                    if k < i {
                        assert(!row_before(rows@, k, rows@[k].id));
                    }
                }
                assert forall|k: int| 0 < k < i + 1 implies #[trigger] has_parent_row_at(rows@, k) by {
                    if k < i {
                        assert(has_parent_row_at(rows@, k));
                    }
                }
            }
            i = i + 1;
        }
        Some(ExplorerSnapshot { rows })
    }

    /// Returns Explorer rows in parent-before-child display order.
    pub fn rows(&self) -> (s: &[ExplorerRow])
        ensures
            s@ == self@,
            rows_in_display_order(s@),
    {
        proof {
            use_type_invariant(self);
        }
        self.rows.as_slice()
    }

    /// Returns whether the snapshot has no rows.
    pub fn is_empty(&self) -> (b: bool)
        ensures
            b == (self@.len() == 0),
    {
        self.rows.len() == 0
    }

    /// Finds the first row with instance ID `id`.
    pub fn row_by_id(&self, id: InstanceId) -> (r: Option<&ExplorerRow>)
        ensures
            match r {
                Some(row) => exists|i: int|
                    0 <= i < self@.len() && self@[i] == *row && row.id == id && forall|j: int|
                        0 <= j < i ==> (#[trigger] self@[j]).id != id,
                None => forall|i: int| 0 <= i < self@.len() ==> (#[trigger] self@[i]).id != id,
            },
    {
        let mut i: usize = 0;
        while i < self.rows.len()
            invariant
                0 <= i <= self.rows@.len(),
                forall|j: int| 0 <= j < i ==> (#[trigger] self.rows@[j]).id != id,
            decreases self.rows@.len() - i,
        {
            if self.rows[i].id == id {
                return Some(&self.rows[i]);
            }
            i = i + 1;
        }
        None
    }
}

impl Default for ExplorerSnapshot {
    fn default() -> (s: Self)
        ensures
            s@.len() == 0,
    {
        ExplorerSnapshot { rows: Vec::new() }
    }
}

} // verus!
