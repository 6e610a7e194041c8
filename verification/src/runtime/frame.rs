//! Deterministic frame phase ordering and the integer bookkeeping of the
//! single-threaded frame scheduler.

use vstd::prelude::*;

verus! {

/// Runtime frame phases in deterministic execution order.
#[derive(Debug, Copy, Clone, PartialEq, Eq, Structural, Hash, PartialOrd, Ord)]
pub enum FramePhase {
    /// Poll platform and input state.
    PollPlatformInput,
    /// Begin frame diagnostics and log attribution scope.
    BeginFrameDiagnostics,
    /// Apply structural changes queued before this frame.
    ApplyQueuedStructuralChanges,
    /// Run variable-rate update.
    VariableUpdate,
    /// Run fixed-rate simulation update.
    FixedUpdate,
    /// Step the physics world.
    StepPhysics,
    /// Collect physics events produced by the physics step.
    CollectPhysicsEvents,
    /// Flush fixed-step signals and events.
    FlushFixedSignals,
    /// Apply structural changes queued during the fixed step.
    ApplyFixedStructuralChanges,
    /// Flush frame-level signals and events.
    FlushFrameSignals,
    /// Update derived transforms and world state.
    UpdateDerivedWorldState,
    /// Update animation and audio systems.
    UpdateAnimationAndAudio,
    /// Render from a coherent world snapshot.
    RenderSnapshot,
    /// End frame cleanup.
    EndFrameCleanup,
}

/// Ordered record for a runtime frame phase.
#[derive(Debug, Copy, Clone, PartialEq, Eq, Structural, Hash)]
pub struct FrameStepRecord {
    /// Phase executed by the scheduler.
    pub phase: FramePhase,
    /// Runtime frame index for this phase.
    pub frame_index: u64,
    /// Fixed-step index when this phase belongs to fixed simulation.
    pub fixed_step_index: Option<u64>,
}

/// Phases that open every frame, before any fixed step.
pub open spec fn frame_start_phases() -> Seq<FramePhase> {
    seq![
        FramePhase::PollPlatformInput,
        FramePhase::BeginFrameDiagnostics,
        FramePhase::ApplyQueuedStructuralChanges,
        FramePhase::VariableUpdate,
    ]
}

/// Phases of one fixed simulation step.
pub open spec fn fixed_step_phases() -> Seq<FramePhase> {
    seq![
        FramePhase::FixedUpdate,
        FramePhase::StepPhysics,
        FramePhase::CollectPhysicsEvents,
        FramePhase::FlushFixedSignals,
        FramePhase::ApplyFixedStructuralChanges,
    ]
}

/// Phases that close every frame, after the fixed steps.
pub open spec fn frame_end_phases() -> Seq<FramePhase> {
    seq![
        FramePhase::FlushFrameSignals,
        FramePhase::UpdateDerivedWorldState,
        FramePhase::UpdateAnimationAndAudio,
        FramePhase::RenderSnapshot,
        FramePhase::EndFrameCleanup,
    ]
}

/// One record per phase, all in `frame_index` and fixed step `fixed`.
pub open spec fn phase_records(
    phases: Seq<FramePhase>,
    frame_index: u64,
    fixed: Option<u64>,
) -> Seq<FrameStepRecord> {
    phases.map_values(
        |p: FramePhase| FrameStepRecord { phase: p, frame_index, fixed_step_index: fixed },
    )
}

/// The records of `count` consecutive fixed steps numbered from `first`.
pub open spec fn fixed_step_records(frame_index: u64, first: nat, count: nat) -> Seq<
    FrameStepRecord,
>
    decreases count,
{
    if count == 0 {
        Seq::empty()
    } else {
        fixed_step_records(frame_index, first, (count - 1) as nat) + phase_records(
            fixed_step_phases(),
            frame_index,
            Some((first + count - 1) as u64),
        )
    }
}

/// The full ordered record list of one frame with `fixed_steps` fixed steps
/// numbered from `first_fixed`: the start phases, each fixed step's phases,
/// then the end phases.
pub open spec fn frame_records(frame_index: u64, first_fixed: nat, fixed_steps: nat) -> Seq<
    FrameStepRecord,
> {
    phase_records(frame_start_phases(), frame_index, None) + fixed_step_records(
        frame_index,
        first_fixed,
        fixed_steps,
    ) + phase_records(frame_end_phases(), frame_index, None)
}

proof fn lemma_fixed_step_records_shape(frame_index: u64, first: nat, count: nat)
    requires
        first + count <= u64::MAX + 1,
    ensures
        fixed_step_records(frame_index, first, count).len() == 5 * count,
        forall|k: int, m: int|
            0 <= k < count && 0 <= m < 5 ==> #[trigger] fixed_step_records(
                frame_index,
                first,
                count,
            )[5 * k + m] == (FrameStepRecord {
                phase: fixed_step_phases()[m],
                frame_index,
                fixed_step_index: Some((first + k) as u64),
            }),
    decreases count,
{
    if count > 0 {
        lemma_fixed_step_records_shape(frame_index, first, (count - 1) as nat);
        let prev = fixed_step_records(frame_index, first, (count - 1) as nat);
        let last = phase_records(fixed_step_phases(), frame_index, Some((first + count - 1) as u64));
        assert(fixed_step_records(frame_index, first, count) == prev + last);
        assert forall|k: int, m: int| 0 <= k < count && 0 <= m < 5 implies #[trigger] (prev + last)[5 * k
            + m] == (FrameStepRecord {
            phase: fixed_step_phases()[m],
            frame_index,
            fixed_step_index: Some((first + k) as u64),
        }) by {
            if k < count - 1 {
                assert((prev + last)[5 * k + m] == prev[5 * k + m]);
            } else {
                assert((prev + last)[5 * k + m] == last[m]);
            }
        }
    }
}

/// The shape of one frame's records: nine frame phases plus five per fixed
/// step; every record carries the frame index; the first four are the
/// start phases and the last five the end phases, with no fixed step; and
/// the `k`-th fixed step's five phases sit between them, numbered
/// `first_fixed + k`.
pub proof fn lemma_frame_records_shape(frame_index: u64, first_fixed: nat, fixed_steps: nat)
    requires
        first_fixed + fixed_steps <= u64::MAX + 1,
    ensures
        ({
            let r = frame_records(frame_index, first_fixed, fixed_steps);
            &&& r.len() == 9 + 5 * fixed_steps
            &&& forall|i: int| 0 <= i < r.len() ==> (#[trigger] r[i]).frame_index == frame_index
            &&& forall|i: int|
                0 <= i < 4 ==> #[trigger] r[i] == (FrameStepRecord {
                    phase: frame_start_phases()[i],
                    frame_index,
                    fixed_step_index: None,
                })
            &&& forall|i: int|
                0 <= i < 5 ==> #[trigger] r[4 + 5 * fixed_steps + i] == (FrameStepRecord {
                    phase: frame_end_phases()[i],
                    frame_index,
                    fixed_step_index: None,
                })
            &&& forall|k: int, m: int|
                0 <= k < fixed_steps && 0 <= m < 5 ==> #[trigger] r[4 + 5 * k + m] == (
                FrameStepRecord {
                    phase: fixed_step_phases()[m],
                    frame_index,
                    fixed_step_index: Some((first_fixed + k) as u64),
                })
        }),
{
    let start = phase_records(frame_start_phases(), frame_index, None);
    let fixed = fixed_step_records(frame_index, first_fixed, fixed_steps);
    let end = phase_records(frame_end_phases(), frame_index, None);
    let r = frame_records(frame_index, first_fixed, fixed_steps);
    lemma_fixed_step_records_shape(frame_index, first_fixed, fixed_steps);
    assert(r == start + fixed + end);
    assert forall|k: int, m: int| 0 <= k < fixed_steps && 0 <= m < 5 implies #[trigger] r[4 + 5 * k + m]
        == (FrameStepRecord {
        phase: fixed_step_phases()[m],
        frame_index,
        fixed_step_index: Some((first_fixed + k) as u64),
    }) by {
        assert(r[4 + 5 * k + m] == fixed[5 * k + m]);
    }
    assert forall|i: int| 0 <= i < 5 implies #[trigger] r[4 + 5 * fixed_steps + i] == (FrameStepRecord {
        phase: frame_end_phases()[i],
        frame_index,
        fixed_step_index: None,
    }) by {
        assert(r[4 + 5 * fixed_steps + i] == end[i]);
    }
    assert forall|i: int| 0 <= i < r.len() implies (#[trigger] r[i]).frame_index == frame_index by {
        if i < 4 {
            assert(r[i] == start[i]);
        } else if i < 4 + 5 * fixed_steps {
            let k = (i - 4) / 5;
            let m = (i - 4) % 5;
            assert(i == 4 + 5 * k + m);
            assert(r[i] == fixed[5 * k + m]);
        } else {
            assert(r[i] == end[i - 4 - 5 * fixed_steps]);
        }
    }
}

/// Every frame runs its phases in the canonical order. It opens with
/// platform input polling, frame diagnostics, queued structural changes and
/// the variable update; each fixed step then runs its fixed update, steps
/// physics, and only then collects the physics events that step produced,
/// before flushing fixed signals and applying fixed structural changes;
/// the frame closes with frame signals, derived world state, animation and
/// audio, the render snapshot and cleanup.
pub proof fn lemma_frame_phase_order(frame_index: u64, first_fixed: nat, fixed_steps: nat)
    requires
        first_fixed + fixed_steps <= u64::MAX + 1,
    ensures
        ({
            let r = frame_records(frame_index, first_fixed, fixed_steps);
            let e = 4 + 5 * fixed_steps as int;
            &&& r.len() == 9 + 5 * fixed_steps
            &&& r[0].phase == FramePhase::PollPlatformInput
            &&& r[1].phase == FramePhase::BeginFrameDiagnostics
            &&& r[2].phase == FramePhase::ApplyQueuedStructuralChanges
            &&& r[3].phase == FramePhase::VariableUpdate
            &&& forall|k: int|
                #![trigger r[4 + 5 * k]]
                0 <= k < fixed_steps ==> {
                    &&& r[4 + 5 * k].phase == FramePhase::FixedUpdate
                    &&& r[4 + 5 * k + 1].phase == FramePhase::StepPhysics
                    &&& r[4 + 5 * k + 2].phase == FramePhase::CollectPhysicsEvents
                    &&& r[4 + 5 * k + 3].phase == FramePhase::FlushFixedSignals
                    &&& r[4 + 5 * k + 4].phase == FramePhase::ApplyFixedStructuralChanges
                }
            &&& r[e].phase == FramePhase::FlushFrameSignals
            &&& r[e + 1].phase == FramePhase::UpdateDerivedWorldState
            &&& r[e + 2].phase == FramePhase::UpdateAnimationAndAudio
            &&& r[e + 3].phase == FramePhase::RenderSnapshot
            &&& r[e + 4].phase == FramePhase::EndFrameCleanup
        }),
{
    lemma_frame_records_shape(frame_index, first_fixed, fixed_steps);
    let r = frame_records(frame_index, first_fixed, fixed_steps);
    let e = 4 + 5 * fixed_steps as int;
    assert(r[0].phase == frame_start_phases()[0] && r[1].phase == frame_start_phases()[1]);
    assert(r[2].phase == frame_start_phases()[2] && r[3].phase == frame_start_phases()[3]);
    assert(r[e].phase == frame_end_phases()[0] && r[e + 1].phase == frame_end_phases()[1]);
    assert(r[e + 2].phase == frame_end_phases()[2] && r[e + 3].phase == frame_end_phases()[3]);
    assert(r[e + 4].phase == frame_end_phases()[4]);
    assert forall|k: int|
        #![trigger r[4 + 5 * k]]
        0 <= k < fixed_steps implies {
            &&& r[4 + 5 * k].phase == FramePhase::FixedUpdate
            &&& r[4 + 5 * k + 1].phase == FramePhase::StepPhysics
            &&& r[4 + 5 * k + 2].phase == FramePhase::CollectPhysicsEvents
            &&& r[4 + 5 * k + 3].phase == FramePhase::FlushFixedSignals
            &&& r[4 + 5 * k + 4].phase == FramePhase::ApplyFixedStructuralChanges
        } by {
        assert(r[4 + 5 * k + 0].phase == fixed_step_phases()[0]);
        assert(r[4 + 5 * k + 1].phase == fixed_step_phases()[1]);
        assert(r[4 + 5 * k + 2].phase == fixed_step_phases()[2]);
        assert(r[4 + 5 * k + 3].phase == fixed_step_phases()[3]);
        assert(r[4 + 5 * k + 4].phase == fixed_step_phases()[4]);
    }
}

fn start_phases() -> (v: Vec<FramePhase>)
    ensures
        v@ == frame_start_phases(),
{
    let mut v: Vec<FramePhase> = Vec::new();
    v.push(FramePhase::PollPlatformInput);
    v.push(FramePhase::BeginFrameDiagnostics);
    v.push(FramePhase::ApplyQueuedStructuralChanges);
    v.push(FramePhase::VariableUpdate);
    v
}

fn fixed_phases() -> (v: Vec<FramePhase>)
    ensures
        v@ == fixed_step_phases(),
{
    let mut v: Vec<FramePhase> = Vec::new();
    v.push(FramePhase::FixedUpdate);
    v.push(FramePhase::StepPhysics);
    v.push(FramePhase::CollectPhysicsEvents);
    v.push(FramePhase::FlushFixedSignals);
    v.push(FramePhase::ApplyFixedStructuralChanges);
    v
}

fn end_phases() -> (v: Vec<FramePhase>)
    ensures
        v@ == frame_end_phases(),
{
    let mut v: Vec<FramePhase> = Vec::new();
    v.push(FramePhase::FlushFrameSignals);
    v.push(FramePhase::UpdateDerivedWorldState);
    v.push(FramePhase::UpdateAnimationAndAudio);
    v.push(FramePhase::RenderSnapshot);
    v.push(FramePhase::EndFrameCleanup);
    v
}

fn push_phase_records(
    records: &mut Vec<FrameStepRecord>,
    phases: &Vec<FramePhase>,
    frame_index: u64,
    fixed: Option<u64>,
)
    ensures
        final(records)@ == old(records)@ + phase_records(phases@, frame_index, fixed),
{
    let ghost start = records@;
    let mut i: usize = 0;
    while i < phases.len()
        invariant
            0 <= i <= phases.len(),
            records@ == start + phase_records(phases@.take(i as int), frame_index, fixed),
        decreases phases.len() - i,
    {
        records.push(FrameStepRecord { phase: phases[i], frame_index, fixed_step_index: fixed });
        proof {
            assert(phase_records(phases@.take(i + 1), frame_index, fixed) =~= phase_records(
                phases@.take(i as int),
                frame_index,
                fixed,
            ).push(FrameStepRecord { phase: phases@[i as int], frame_index, fixed_step_index: fixed }));
        }
        i = i + 1;
    }
    proof {
        assert(phases@.take(i as int) =~= phases@);
    }
}

/// Builds the ordered phase records of one frame: the frame start phases,
/// the phases of `fixed_steps` fixed steps numbered from
/// `first_fixed_step_index`, then the frame end phases.
pub fn frame_step_records(frame_index: u64, first_fixed_step_index: u64, fixed_steps: u64) -> (r:
    Vec<FrameStepRecord>)
    requires
        first_fixed_step_index + fixed_steps <= u64::MAX,
    ensures
        r@ == frame_records(frame_index, first_fixed_step_index as nat, fixed_steps as nat),
{
    let mut records: Vec<FrameStepRecord> = Vec::new();
    let start = start_phases();
    push_phase_records(&mut records, &start, frame_index, None);
    let fixed = fixed_phases();
    let ghost head = records@;
    let mut k: u64 = 0;
    while k < fixed_steps
        invariant
            k <= fixed_steps,
            first_fixed_step_index + fixed_steps <= u64::MAX,
            fixed@ == fixed_step_phases(),
            head == phase_records(frame_start_phases(), frame_index, None),
            records@ == head + fixed_step_records(
                frame_index,
                first_fixed_step_index as nat,
                k as nat,
            ),
        decreases fixed_steps - k,
    {
        push_phase_records(&mut records, &fixed, frame_index, Some(first_fixed_step_index + k));
        proof {
            assert(fixed_step_records(frame_index, first_fixed_step_index as nat, (k + 1) as nat)
                == fixed_step_records(frame_index, first_fixed_step_index as nat, k as nat)
                + phase_records(
                fixed_step_phases(),
                frame_index,
                Some((first_fixed_step_index + k) as u64),
            ));
        }
        k = k + 1;
    }
    let end = end_phases();
    push_phase_records(&mut records, &end, frame_index, None);
    records
}

/// The integer state of the frame scheduler: the most recently completed
/// frame index and the fixed-step index that will be assigned next.
#[derive(Debug, Copy, Clone, PartialEq, Eq, Structural)]
pub struct FrameCounters {
    /// Most recently completed frame index.
    pub frame_index: u64,
    /// Fixed-step index that will be assigned next.
    pub next_fixed_step_index: u64,
}

impl FrameCounters {
    /// Counters of a scheduler that has not stepped: frame zero, and the
    /// first fixed step numbered one.
    pub fn new() -> (c: Self)
        ensures
            c.frame_index == 0,
            c.next_fixed_step_index == 1,
    {
        FrameCounters { frame_index: 0, next_fixed_step_index: 1 }
    }

    /// Advances one frame that runs `fixed_steps` fixed steps, and returns
    /// the frame's ordered phase records.
    pub fn advance(&mut self, fixed_steps: u64) -> (records: Vec<FrameStepRecord>)
        requires
            old(self).frame_index < u64::MAX,
            old(self).next_fixed_step_index + fixed_steps <= u64::MAX,
        ensures
            final(self).frame_index == old(self).frame_index + 1,
            final(self).next_fixed_step_index == old(self).next_fixed_step_index + fixed_steps,
            records@ == frame_records(
                final(self).frame_index,
                old(self).next_fixed_step_index as nat,
                fixed_steps as nat,
            ),
    {
        self.frame_index = self.frame_index + 1;
        let records = frame_step_records(self.frame_index, self.next_fixed_step_index, fixed_steps);
        self.next_fixed_step_index = self.next_fixed_step_index + fixed_steps;
        records
    }
}

impl Default for FrameCounters {
    fn default() -> (c: Self)
        ensures
            c.frame_index == 0,
            c.next_fixed_step_index == 1,
    {
        Self::new()
    }
}

} // verus!
