//! The stage schedule on the mission clock and the choice of the active
//! stage.
//!
//! The schedule is built stage by stage. The caller adds the times of a
//! stage to the start time that the schedule hands out; the schedule cuts
//! them off at separation and at the end of the run, and chains each start
//! to the separation before it.
use crate::scalar::Scalar;
use vstd::prelude::*;

verus! {

/// The times of one stage on the mission clock, and the mass that flies
/// from its ignition on.
#[derive(Clone, Copy, Debug, PartialEq, Eq, Structural)]
pub struct StageRuntime {
    /// The place of the stage, counted from zero.
    pub index: usize,
    /// Ignition of the stage: the separation of the stage before it.
    pub start_time: Scalar,
    pub burn_start: Scalar,
    /// End of the burn, not after separation.
    pub burn_end: Scalar,
    /// Forced cutoff, not after separation.
    pub forced_cutoff: Scalar,
    /// Separation, not after the end of the run.
    pub separation_time: Scalar,
    /// The initial masses of this stage and all later ones, summed.
    pub stack_mass: Scalar,
}

/// The times of a stage as the caller sums them: the start time of the
/// stage plus each time of its description.
#[derive(Clone, Copy, Debug, PartialEq, Eq, Structural)]
pub struct StageTimes {
    pub burn_start: Scalar,
    pub burn_end: Scalar,
    pub forced_cutoff: Scalar,
    pub separation: Scalar,
}

/// The stage that the schedule makes of summed times: separation is the
/// summed one where a stage follows and the sum is finite, and the end of
/// the run otherwise, and in no case after the end of the run; the burn
/// end and the forced cutoff are not after separation.
pub open spec fn scheduled_stage(
    index: usize,
    start_time: Scalar,
    times: StageTimes,
    following_stage_exists: bool,
    end_time: Scalar,
    stack_mass: Scalar,
) -> StageRuntime {
    let planned = if following_stage_exists && times.separation.is_finite() {
        times.separation
    } else {
        end_time
    };
    let separation_time = planned.min(end_time);
    StageRuntime {
        index,
        start_time,
        burn_start: times.burn_start,
        burn_end: times.burn_end.min(separation_time),
        forced_cutoff: times.forced_cutoff.min(separation_time),
        separation_time,
        stack_mass,
    }
}

/// The stage that is active at `time` among stages with the separation
/// times `stages[k].separation_time`, looking from place `from` on: the
/// first that separates after `time`, and the last stage where none does.
pub open spec fn active_stage_from(stages: Seq<StageRuntime>, time: Scalar, from: int) -> int
    decreases stages.len() - from,
{
    if from >= stages.len() {
        if stages.len() == 0 {
            0
        } else {
            stages.len() - 1
        }
    } else if time.lt(stages[from].separation_time) {
        from
    } else {
        active_stage_from(stages, time, from + 1)
    }
}

/// The stage that is active at `time`.
pub open spec fn active_stage(stages: Seq<StageRuntime>, time: Scalar) -> int {
    active_stage_from(stages, time, 0)
}

/// The ordinal of the stage that is active at `time`, counted from one.
pub open spec fn stage_ordinal(stages: Seq<StageRuntime>, time: Scalar) -> int {
    active_stage(stages, time) + 1
}

/// The start time that follows the stages scheduled so far.
pub open spec fn following_start(stages: Seq<StageRuntime>) -> Scalar {
    if stages.len() == 0 {
        Scalar::from_bits(0)
    } else {
        stages[stages.len() - 1].separation_time
    }
}

/// What a look at the clock changes: the active stage, its ordinal, and
/// the mass where the stage has changed.
#[derive(Clone, Copy, Debug, PartialEq, Eq, Structural)]
pub struct StageUpdate {
    /// The active stage, counted from zero.
    pub stage_index: usize,
    /// The ordinal of the active stage, counted from one, as a byte.
    pub stage: u8,
    /// The stack mass of the active stage where it was not active before:
    /// it replaces the mass of the state.
    pub mass: Option<Scalar>,
}

/// The schedule of all stages of a run.
#[derive(Debug)]
pub struct StageSchedule {
    pub stages: Vec<StageRuntime>,
    pub end_time: Scalar,
}

impl StageSchedule {
    /// Each stage knows its place, the first stage starts at zero, and
    /// every other stage starts when the stage before it separates.
    pub open spec fn wf(&self) -> bool {
        &&& forall|i: int| 0 <= i < self.stages@.len() ==> (#[trigger] self.stages@[i]).index == i
        &&& self.stages@.len() > 0 ==> self.stages@[0].start_time == Scalar::from_bits(0)
        &&& forall|i: int|
            0 < i < self.stages@.len() ==> (#[trigger] self.stages@[i]).start_time
                == self.stages@[i - 1].separation_time
    }

    /// The schedule of a run that ends at `end_time`, before any stage is
    /// entered.
    pub fn new(end_time: Scalar) -> (schedule: Self)
        ensures
            schedule.wf(),
            schedule.stages@.len() == 0,
            schedule.end_time == end_time,
    {
        StageSchedule { stages: Vec::new(), end_time }
    }

    /// The start time of the stage that is entered next.
    pub fn next_start(&self) -> (start: Scalar)
        ensures
            start == following_start(self.stages@),
    {
        if self.stages.len() == 0 {
            Scalar::zero()
        } else {
            self.stages[self.stages.len() - 1].separation_time
        }
    }

    /// Enters the next stage. `times` are the sums of
    /// [`StageSchedule::next_start`] and the times of the stage.
    pub fn push(&mut self, times: StageTimes, following_stage_exists: bool, stack_mass: Scalar)
        requires
            old(self).wf(),
        ensures
            final(self).wf(),
            final(self).end_time == old(self).end_time,
            final(self).stages@ == old(self).stages@.push(
                scheduled_stage(
                    old(self).stages@.len() as usize,
                    following_start(old(self).stages@),
                    times,
                    following_stage_exists,
                    old(self).end_time,
                    stack_mass,
                ),
            ),
    {
        let start_time = self.next_start();
        let planned = if following_stage_exists && times.separation.is_finite() {
            times.separation
        } else {
            self.end_time
        };
        let separation_time = planned.min(self.end_time);
        let index = self.stages.len();
        self.stages.push(
            StageRuntime {
                index,
                start_time,
                burn_start: times.burn_start,
                burn_end: times.burn_end.min(separation_time),
                forced_cutoff: times.forced_cutoff.min(separation_time),
                separation_time,
                stack_mass,
            },
        );
    }

    /// The number of stages.
    pub fn len(&self) -> (n: usize)
        ensures
            n == self.stages@.len(),
    {
        self.stages.len()
    }

    /// The stage at `index`, counted from zero.
    pub fn stage(&self, index: usize) -> (stage: &StageRuntime)
        requires
            index < self.stages@.len(),
        ensures
            *stage == self.stages@[index as int],
    {
        &self.stages[index]
    }

    /// The stage that is active at `time`: the first that separates after
    /// it, and the last stage where none does.
    pub fn stage_index_for_time(&self, time: Scalar) -> (index: usize)
        ensures
            index == active_stage(self.stages@, time),
            self.stages@.len() > 0 ==> index < self.stages@.len(),
    {
        let n = self.stages.len();
        let mut i: usize = 0;
        while i < n
            invariant
                n == self.stages@.len(),
                i <= n,
                active_stage(self.stages@, time) == active_stage_from(self.stages@, time, i as int),
            decreases n - i,
        {
            if time.lt(self.stages[i].separation_time) {
                return i;
            }
            i += 1;
        }
        if n == 0 {
            0
        } else {
            n - 1
        }
    }

    /// The stage of the sample at the start of a run: the first stage,
    /// with the mass of the whole stack.
    pub fn first_stage(&self) -> (update: StageUpdate)
        requires
            self.stages@.len() > 0,
        ensures
            update == (StageUpdate {
                stage_index: 0,
                stage: 1,
                mass: Some(self.stages@[0].stack_mass),
            }),
    {
        StageUpdate { stage_index: 0, stage: 1, mass: Some(self.stages[0].stack_mass) }
    }

    /// Looks at the clock: names the stage that is active at `time`, and
    /// hands out its stack mass where it differs from the stage `current`
    /// that was active before. The ordinal is a byte: from 256 stages on
    /// it starts again at zero.
    pub fn update_stage_index(&self, current: usize, time: Scalar) -> (update: StageUpdate)
        requires
            self.stages@.len() > 0,
        ensures
            update.stage_index == active_stage(self.stages@, time),
            update.stage_index < self.stages@.len(),
            update.stage as int == stage_ordinal(self.stages@, time) % 256,
            self.stages@.len() < 256 ==> update.stage as int == stage_ordinal(self.stages@, time),
            update.mass == if update.stage_index != current {
                Some(self.stages@[update.stage_index as int].stack_mass)
            } else {
                None
            },
    {
        let stage_index = self.stage_index_for_time(time);
        assert(stage_index < self.stages.len());
        let ordinal: usize = (stage_index + 1) % 256;
        StageUpdate {
            stage_index,
            stage: ordinal as u8,
            mass: if stage_index != current {
                Some(self.stages[stage_index].stack_mass)
            } else {
                None
            },
        }
    }
}

impl StageRuntime {
    /// Whether the engine of the stage gives thrust at `time`: from the
    /// burn start on and before the forced cutoff.
    pub fn is_powered(&self, time: Scalar) -> (powered: bool)
        ensures
            powered == (time.ge(self.burn_start) && time.lt(self.forced_cutoff)),
    {
        time.ge(self.burn_start) && time.lt(self.forced_cutoff)
    }

    /// Whether `time` lies in the burn of the stage, both ends included.
    pub fn is_burning(&self, time: Scalar) -> (burning: bool)
        ensures
            burning == (time.ge(self.burn_start) && time.le(self.burn_end)),
    {
        time.ge(self.burn_start) && time.le(self.burn_end)
    }

    /// The time since the ignition of the stage, given the difference
    /// `elapsed` of the clock and the start time: never below zero.
    pub fn local_time(elapsed: Scalar) -> (local: Scalar)
        ensures
            local == elapsed.max(Scalar::from_bits(0)),
    {
        elapsed.max(Scalar::zero())
    }
}

/// From place `from` on, the search for the active stage answers with a
/// place at or after `from`, unless it falls back to the last stage.
proof fn lemma_active_stage_from(stages: Seq<StageRuntime>, time: Scalar, from: int)
    requires
        0 <= from <= stages.len(),
    ensures
        ({
            let r = active_stage_from(stages, time, from);
            ||| {
                &&& from <= r < stages.len()
                &&& time.lt(stages[r].separation_time)
                &&& forall|k: int| from <= k < r ==> !time.lt(#[trigger] stages[k].separation_time)
            }
            ||| {
                &&& r == if stages.len() == 0 {
                    0
                } else {
                    stages.len() - 1
                }
                &&& forall|k: int|
                    from <= k < stages.len() ==> !time.lt(#[trigger] stages[k].separation_time)
            }
        }),
    decreases stages.len() - from,
{
    if from < stages.len() && !time.lt(stages[from].separation_time) {
        lemma_active_stage_from(stages, time, from + 1);
    }
}

/// The active stage never goes back: of two times in order, the later one
/// has the same stage active or a later one.
pub proof fn lemma_stage_never_goes_back(stages: Seq<StageRuntime>, earlier: Scalar, later: Scalar)
    requires
        earlier.le(later),
    ensures
        active_stage(stages, earlier) <= active_stage(stages, later),
{
    lemma_active_stage_from(stages, earlier, 0);
    lemma_active_stage_from(stages, later, 0);
    let a = active_stage(stages, earlier);
    let b = active_stage(stages, later);
    if b < a {
        if later.lt(stages[b].separation_time) {
            assert(!earlier.lt(stages[b].separation_time));
        } else {
            assert(forall|k: int|
                0 <= k < stages.len() ==> !later.lt(#[trigger] stages[k].separation_time));
            assert(b == stages.len() - 1);
        }
    }
}

/// The ordinal of the active stage lies between one and the number of
/// stages, and it never goes back: of two times in order, the later one
/// has the same ordinal or a higher one. The sample at the start of a run
/// has the ordinal one, so no sample has a lower ordinal than the one
/// before it.
pub proof fn lemma_stage_ordinal_never_goes_back(
    stages: Seq<StageRuntime>,
    earlier: Scalar,
    later: Scalar,
)
    requires
        stages.len() > 0,
        earlier.le(later),
    ensures
        1 <= stage_ordinal(stages, earlier) <= stage_ordinal(stages, later) <= stages.len(),
{
    lemma_active_stage_from(stages, earlier, 0);
    lemma_active_stage_from(stages, later, 0);
    lemma_stage_never_goes_back(stages, earlier, later);
}

/// Along times that do not go back, the ordinals of the active stage do
/// not go back.
pub proof fn lemma_stage_ordinals_along_times(
    stages: Seq<StageRuntime>,
    times: Seq<Scalar>,
    i: int,
    j: int,
)
    requires
        stages.len() > 0,
        forall|a: int, b: int| 0 <= a <= b < times.len() ==> times[a].le(times[b]),
        0 <= i <= j < times.len(),
    ensures
        1 <= stage_ordinal(stages, times[i]) <= stage_ordinal(stages, times[j]) <= stages.len(),
{
    lemma_stage_ordinal_never_goes_back(stages, times[i], times[j]);
}

/// Where every stage separates at or after its start, the separation
/// times do not descend along the schedule.
pub proof fn lemma_separation_ascends(schedule: StageSchedule, i: int, j: int)
    requires
        schedule.wf(),
        forall|k: int|
            0 <= k < schedule.stages@.len() ==> (#[trigger] schedule.stages@[k]).separation_time.ge(
                schedule.stages@[k].start_time,
            ),
        0 <= i <= j < schedule.stages@.len(),
    ensures
        schedule.stages@[i].separation_time.le(schedule.stages@[j].separation_time),
    decreases j - i,
{
    let stages = schedule.stages@;
    assert(stages[j].separation_time.ge(stages[j].start_time));
    if i < j {
        lemma_separation_ascends(schedule, i, j - 1);
        assert(stages[j].start_time == stages[j - 1].separation_time);
    }
}

} // verus!
