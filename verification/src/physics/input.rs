//! Deterministic gameplay input actions and capture policy.

use vstd::prelude::*;

verus! {

broadcast use vstd::seq_lib::group_seq_properties;

/// Gameplay actions understood by the first input foundation, in their
/// deterministic order.
#[derive(Debug, Copy, Clone, PartialEq, Eq, Structural, Hash, PartialOrd, Ord)]
pub enum InputAction {
    /// Move toward the current view forward direction.
    MoveForward,
    /// Move opposite the current view forward direction.
    MoveBackward,
    /// Strafe left relative to the current view direction.
    MoveLeft,
    /// Strafe right relative to the current view direction.
    MoveRight,
    /// Trigger the focused interaction primitive.
    Interact,
}

impl InputAction {
    /// The position of this action in the deterministic action order.
    pub open spec fn rank(self) -> nat {
        match self {
            InputAction::MoveForward => 0,
            InputAction::MoveBackward => 1,
            InputAction::MoveLeft => 2,
            InputAction::MoveRight => 3,
            InputAction::Interact => 4,
        }
    }

    fn rank_of(self) -> (r: u8)
        ensures
            r == self.rank(),
    {
        match self {
            InputAction::MoveForward => 0,
            InputAction::MoveBackward => 1,
            InputAction::MoveLeft => 2,
            InputAction::MoveRight => 3,
            InputAction::Interact => 4,
        }
    }
}

/// Actions with equal rank are equal.
pub proof fn lemma_rank_injective(a: InputAction, b: InputAction)
    ensures
        a.rank() == b.rank() ==> a == b,
{
}

/// Actions in deterministic order are determined by which actions they
/// hold: two ordered action lists with the same actions are equal. So a
/// frame's action list depends only on the set of actions pressed, not on
/// the order or repetition in which they were added.
pub proof fn lemma_action_order_is_canonical(a: Seq<InputAction>, b: Seq<InputAction>)
    requires
        in_action_order(a),
        in_action_order(b),
        a.to_set() == b.to_set(),
    ensures
        a == b,
    decreases a.len() + b.len(),
{
    if a.len() == 0 || b.len() == 0 {
        if a.len() > 0 {
            assert(a.to_set().contains(a[0]));
        }
        if b.len() > 0 {
            assert(b.to_set().contains(b[0]));
        }
        assert(a =~= b);
    } else {
        let x = a.last();
        let y = b.last();
        assert(a.to_set().contains(x));
        assert(b.to_set().contains(y));
        assert(b.contains(x));
        assert(a.contains(y));
        let ix = choose|i: int| 0 <= i < b.len() && b[i] == x;
        let iy = choose|i: int| 0 <= i < a.len() && a[i] == y;
        if iy < a.len() - 1 {
            assert(a[iy].rank() < a[a.len() - 1].rank());
        }
        if ix < b.len() - 1 {
            assert(b[ix].rank() < b[b.len() - 1].rank());
        }
        lemma_rank_injective(x, y);
        assert(x == y);
        let a2 = a.drop_last();
        let b2 = b.drop_last();
        assert forall|z: InputAction| a2.to_set().contains(z) <==> b2.to_set().contains(z) by {
            if a2.contains(z) {
                let i = choose|i: int| 0 <= i < a2.len() && a2[i] == z;
                assert(a[i].rank() < a[a.len() - 1].rank());
                assert(a.contains(z));
                assert(a.to_set().contains(z));
                assert(b.to_set().contains(z));
                assert(b.contains(z));
                let j = choose|j: int| 0 <= j < b.len() && b[j] == z;
                if j == b.len() - 1 {
                    assert(z == y);
                } else {
                    assert(b2[j] == z);
                }
            }
            if b2.contains(z) {
                let i = choose|i: int| 0 <= i < b2.len() && b2[i] == z;
                assert(b[i].rank() < b[b.len() - 1].rank());
                assert(b.contains(z));
                assert(b.to_set().contains(z));
                assert(a.to_set().contains(z));
                assert(a.contains(z));
                let j = choose|j: int| 0 <= j < a.len() && a[j] == z;
                if j == a.len() - 1 {
                    assert(z == x);
                } else {
                    assert(a2[j] == z);
                }
            }
        }
        assert(a2.to_set() =~= b2.to_set());
        lemma_action_order_is_canonical(a2, b2);
        assert(a =~= a2.push(x));
        assert(b =~= b2.push(y));
    }
}

/// Mouse capture behavior requested by a gameplay mode.
#[derive(Debug, Copy, Clone, PartialEq, Eq, Structural, Hash, PartialOrd, Ord)]
pub enum MouseCapturePolicy {
    /// Mouse is free for editor or UI interaction.
    Released,
    /// Gameplay requests captured pointer deltas.
    Captured,
}

/// Actions in strictly increasing deterministic order, so none repeats.
pub open spec fn in_action_order(s: Seq<InputAction>) -> bool {
    forall|i: int, j: int| 0 <= i < j < s.len() ==> (#[trigger] s[i]).rank() < (#[trigger] s[j]).rank()
}

proof fn lemma_insert_in_order(old_actions: Seq<InputAction>, k: int, action: InputAction)
    requires
        in_action_order(old_actions),
        0 <= k <= old_actions.len(),
        !old_actions.contains(action),
        forall|j: int| 0 <= j < k ==> (#[trigger] old_actions[j]).rank() < action.rank(),
        k < old_actions.len() ==> old_actions[k].rank() >= action.rank(),
    ensures
        in_action_order(old_actions.insert(k, action)),
        old_actions.insert(k, action).to_set() == old_actions.to_set().insert(action),
{
    let rank = action.rank();
    let s = old_actions.insert(k, action);
    assert(s =~= old_actions.take(k as int).push(action) + old_actions.skip(k as int));
    assert forall|j: int| 0 <= j < old_actions.len() implies old_actions[j] != action by {}
    if k < old_actions.len() {
        assert(old_actions[k as int].rank() >= rank);
        if old_actions[k as int].rank() == rank {
            lemma_rank_injective(old_actions[k as int], action);
        }
    }
    assert forall|i: int, j: int| 0 <= i < j < s.len() implies (#[trigger] s[i]).rank() < (
    #[trigger] s[j]).rank() by {
        if j < k {
            assert(s[i] == old_actions[i] && s[j] == old_actions[j]);
        } else if j == k {
            assert(s[i] == old_actions[i]);
        } else if i < k {
            assert(s[i] == old_actions[i] && s[j] == old_actions[j - 1]);
            assert(old_actions[k as int].rank() > rank);
            if j - 1 > k {
                assert(old_actions[k as int].rank() < old_actions[j - 1].rank());
            }
        } else if i == k {
            assert(s[j] == old_actions[j - 1]);
            if j - 1 > k {
                assert(old_actions[k as int].rank() < old_actions[j - 1].rank());
            }
        } else {
            assert(s[i] == old_actions[i - 1] && s[j] == old_actions[j - 1]);
        }
    }
    assert forall|x: InputAction| s.contains(x) <==> old_actions.contains(x) || x == action by {
        if s.contains(x) {
            let j = choose|j: int| 0 <= j < s.len() && s[j] == x;
            if j < k {
                assert(old_actions[j] == x);
            } else if j > k {
                assert(old_actions[j - 1] == x);
            }
        }
        if old_actions.contains(x) {
            let j = choose|j: int| 0 <= j < old_actions.len() && old_actions[j] == x;
            if j < k {
                assert(s[j] == x);
            } else {
                assert(s[j + 1] == x);
            }
        }
        if x == action {
            assert(s[k as int] == x);
        }
    }
    assert(s.to_set() =~= old_actions.to_set().insert(action));
}

/// The content of an [`InputFrame`].
pub struct InputFrameView {
    pub actions: Seq<InputAction>,
    pub mouse_capture: MouseCapturePolicy,
}

/// Deterministic input snapshot of pressed actions and the requested mouse
/// capture: pressed actions are kept once each, in deterministic order.
#[derive(Debug, PartialEq, Eq)]
pub struct InputFrame {
    actions: Vec<InputAction>,
    mouse_capture: MouseCapturePolicy,
}

impl View for InputFrame {
    type V = InputFrameView;

    closed spec fn view(&self) -> InputFrameView {
        InputFrameView { actions: self.actions@, mouse_capture: self.mouse_capture }
    }
}

fn copy_actions(v: &Vec<InputAction>) -> (r: Vec<InputAction>)
    ensures
        r@ == v@,
{
    let mut r: Vec<InputAction> = Vec::new();
    let mut i: usize = 0;
    while i < v.len()
        invariant
            0 <= i <= v.len(),
            r@ == v@.take(i as int),
        decreases v.len() - i,
    {
        r.push(v[i]);
        proof {
            assert(v@.take(i + 1) =~= v@.take(i as int).push(v@[i as int]));
        }
        i = i + 1;
    }
    proof {
        assert(v@.take(i as int) =~= v@);
    }
    r
}

impl Clone for InputFrame {
    fn clone(&self) -> (r: Self)
        ensures
            r@ == self@,
    {
        proof {
            use_type_invariant(self);
        }
        InputFrame { actions: copy_actions(&self.actions), mouse_capture: self.mouse_capture }
    }
}

impl InputFrame {
    #[verifier::type_invariant]
    spec fn well_formed(self) -> bool {
        in_action_order(self.actions@)
    }

    /// Creates an empty released input snapshot.
    pub fn new() -> (f: Self)
        ensures
            f@.actions.len() == 0,
            f@.mouse_capture == MouseCapturePolicy::Released,
    {
        InputFrame { actions: Vec::new(), mouse_capture: MouseCapturePolicy::Released }
    }

    /// Creates a released snapshot in which exactly `actions` are pressed.
    pub fn from_actions(actions: Vec<InputAction>) -> (f: Self)
        ensures
            f@.actions.to_set() == actions@.to_set(),
            in_action_order(f@.actions),
            f@.mouse_capture == MouseCapturePolicy::Released,
    {
        let mut frame = InputFrame::new();
        let mut i: usize = 0;
        while i < actions.len()
            invariant
                0 <= i <= actions.len(),
                frame@.actions.to_set() == actions@.take(i as int).to_set(),
                frame@.mouse_capture == MouseCapturePolicy::Released,
            decreases actions.len() - i,
        {
            proof {
                assert(actions@.take(i + 1) =~= actions@.take(i as int).push(actions@[i as int]));
            }
            frame = frame.with_action(actions[i]);
            i = i + 1;
        }
        proof {
            assert(actions@.take(i as int) =~= actions@);
            use_type_invariant(&frame);
        }
        frame
    }

    /// Returns pressed actions in deterministic order.
    pub fn actions(&self) -> (s: &[InputAction])
        ensures
            s@ == self@.actions,
            in_action_order(s@),
    {
        proof {
            use_type_invariant(self);
        }
        self.actions.as_slice()
    }

    /// Returns whether an action is pressed.
    pub fn is_pressed(&self, action: InputAction) -> (b: bool)
        ensures
            b == self@.actions.contains(action),
    {
        let mut i: usize = 0;
        while i < self.actions.len()
            invariant
                0 <= i <= self.actions@.len(),
                forall|j: int| 0 <= j < i ==> self.actions@[j] != action,
            decreases self.actions@.len() - i,
        {
            if self.actions[i] == action {
                proof {
                    assert(self.actions@[i as int] == action);
                }
                return true;
            }
            i = i + 1;
        }
        false
    }

    /// Returns requested mouse capture policy.
    pub fn mouse_capture(&self) -> (m: MouseCapturePolicy)
        ensures
            m == self@.mouse_capture,
    {
        self.mouse_capture
    }

    /// Adds a pressed action while preserving deterministic action order; an
    /// action already pressed leaves the frame unchanged.
    pub fn with_action(self, action: InputAction) -> (f: Self)
        ensures
            f@.actions.to_set() == self@.actions.to_set().insert(action),
            in_action_order(f@.actions),
            f@.mouse_capture == self@.mouse_capture,
            self@.actions.contains(action) ==> f@ == self@,
    {
        proof {
            use_type_invariant(&self);
        }
        if self.is_pressed(action) {
            proof {
                assert(self@.actions.to_set().insert(action) =~= self@.actions.to_set());
            }
            return self;
        }
        let InputFrame { actions, mouse_capture } = self;
        let ghost old_actions = actions@;
        let rank = action.rank_of();
        let mut k: usize = 0;
        while k < actions.len() && actions[k].rank_of() < rank
            invariant
                0 <= k <= actions@.len(),
                forall|j: int| 0 <= j < k ==> (#[trigger] actions@[j]).rank() < rank,
            decreases actions@.len() - k,
        {
            k = k + 1;
        }
        let mut actions = actions;
        actions.insert(k, action);
        proof {
            lemma_insert_in_order(old_actions, k as int, action);
        }
        InputFrame { actions, mouse_capture }
    }

    /// Sets mouse capture policy for this frame; the actions are unchanged.
    pub fn with_mouse_capture(self, mouse_capture: MouseCapturePolicy) -> (f: Self)
        ensures
            f@ == (InputFrameView { mouse_capture, ..self@ }),
    {
        proof {
            use_type_invariant(&self);
        }
        InputFrame { mouse_capture, ..self }
    }
}

impl Default for InputFrame {
    fn default() -> (f: Self)
        ensures
            f@.actions.len() == 0,
            f@.mouse_capture == MouseCapturePolicy::Released,
    {
        Self::new()
    }
}

} // verus!
