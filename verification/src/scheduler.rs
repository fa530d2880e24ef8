//! The output grid of a run and the cutoff before ground impact.
//!
//! A run alternates between the scheduler and the caller. The scheduler
//! says whether to stop or to which time to advance; the caller
//! integrates to that time, emits a sample and reports the altitude; the
//! scheduler says whether the run goes on and moves to the next grid
//! point. Sums of times are made by the caller and handed in.
use crate::integrator::{is_usable_step, usable_step};
use crate::scalar::Scalar;
use vstd::prelude::*;

verus! {

/// What the vehicle shows before a step.
#[derive(Clone, Copy, Debug, PartialEq, Eq, Structural)]
pub struct Probe {
    /// The clock plus a margin of 0.000000001 s.
    pub clock_with_margin: Scalar,
    /// Altitude above the ellipsoid [m].
    pub altitude: Scalar,
    /// The component of the velocity along the radius [m/s]; zero where
    /// the position has no direction.
    pub radial_velocity: Scalar,
    /// The altitude plus the radial velocity times the output step.
    pub predicted_altitude: Scalar,
}

/// Why a run ends.
#[derive(Clone, Copy, Debug, PartialEq, Eq, Structural)]
pub enum StopReason {
    /// The clock has reached the end time.
    EndReached,
    /// The vehicle is above ground and descending, and one output step
    /// further it would be at or below ground: the last sample stays the
    /// last.
    ImpactAhead,
    /// The sample just taken is at or below ground.
    Landed,
    /// The grid point just taken is the end time.
    GridExhausted,
}

/// What the caller does next.
#[derive(Clone, Copy, Debug, PartialEq, Eq, Structural)]
pub enum Action {
    Stop(StopReason),
    /// Integrate to this time and emit a sample.
    AdvanceTo(Scalar),
}

/// The grid of output times of a run.
#[derive(Clone, Copy, Debug, PartialEq, Eq, Structural)]
pub struct OutputScheduler {
    pub end_time: Scalar,
    pub output_step: Scalar,
    pub next_output_time: Scalar,
}

/// What the caller reports of one round: the probe before the step, the
/// altitude of the sample taken after it, and the sum of the grid point
/// just taken and the output step.
#[derive(Clone, Copy, Debug, PartialEq, Eq, Structural)]
pub struct Round {
    pub probe: Probe,
    pub altitude_after: Scalar,
    pub advanced: Scalar,
}

/// Ground impact lies ahead: above ground, descending, and at or below
/// ground after one more output step at this rate.
pub open spec fn impact_ahead(probe: Probe) -> bool {
    probe.altitude.gt(Scalar::from_bits(0)) && probe.radial_velocity.lt(Scalar::from_bits(0))
        && probe.predicted_altitude.le(Scalar::from_bits(0))
}

impl OutputScheduler {
    /// The scheduler after the sample at the start of a run, or none
    /// where the output step is unusable and the run ends with that
    /// sample. `first_target` is the sum of the clock and the output step.
    pub fn start(end_time: Scalar, output_step: Scalar, first_target: Scalar) -> (scheduler: Option<
        Self,
    >)
        ensures
            scheduler == if usable_step(output_step) {
                Some(
                    OutputScheduler {
                        end_time,
                        output_step,
                        next_output_time: first_target.min(end_time),
                    },
                )
            } else {
                None
            },
    {
        if is_usable_step(output_step) {
            Some(
                OutputScheduler {
                    end_time,
                    output_step,
                    next_output_time: first_target.min(end_time),
                },
            )
        } else {
            None
        }
    }

    /// What to do before a step.
    pub open spec fn spec_before_step(self, probe: Probe) -> Action {
        if !probe.clock_with_margin.lt(self.end_time) {
            Action::Stop(StopReason::EndReached)
        } else if impact_ahead(probe) {
            Action::Stop(StopReason::ImpactAhead)
        } else {
            Action::AdvanceTo(self.next_output_time)
        }
    }

    /// Why the run ends after a sample at `altitude`, if it does.
    pub open spec fn spec_stop_after(self, altitude: Scalar) -> Option<StopReason> {
        if altitude.le(Scalar::from_bits(0)) {
            Some(StopReason::Landed)
        } else if self.next_output_time.ge(self.end_time) {
            Some(StopReason::GridExhausted)
        } else {
            None
        }
    }

    /// The scheduler at the next grid point: the sum `advanced` of this
    /// grid point and the output step, and not after the end time.
    pub open spec fn spec_moved(self, advanced: Scalar) -> OutputScheduler {
        OutputScheduler {
            end_time: self.end_time,
            output_step: self.output_step,
            next_output_time: advanced.min(self.end_time),
        }
    }

    /// Decides before a step: the run stops when the clock has reached
    /// the end time or ground impact lies ahead; otherwise the caller
    /// advances to the next grid point.
    #[verifier::when_used_as_spec(spec_before_step)]
    pub fn before_step(self, probe: Probe) -> (action: Action)
        ensures
            action == self.spec_before_step(probe),
    {
        if !probe.clock_with_margin.lt(self.end_time) {
            Action::Stop(StopReason::EndReached)
        } else if probe.altitude.gt(Scalar::zero()) && probe.radial_velocity.lt(Scalar::zero())
            && probe.predicted_altitude.le(Scalar::zero()) {
            Action::Stop(StopReason::ImpactAhead)
        } else {
            Action::AdvanceTo(self.next_output_time)
        }
    }

    /// Decides after the sample at the grid point was taken: the run
    /// stops when the sample is at or below ground or the grid point was
    /// the end time; otherwise the scheduler moves to the next grid point.
    /// `advanced` is the sum of the grid point and the output step.
    pub fn after_step(&mut self, altitude: Scalar, advanced: Scalar) -> (stop: Option<StopReason>)
        ensures
            stop == old(self).spec_stop_after(altitude),
            stop is Some ==> *final(self) == *old(self),
            stop is None ==> *final(self) == old(self).spec_moved(advanced),
    {
        if altitude.le(Scalar::zero()) {
            Some(StopReason::Landed)
        } else if self.next_output_time.ge(self.end_time) {
            Some(StopReason::GridExhausted)
        } else {
            self.next_output_time = advanced.min(self.end_time);
            None
        }
    }

    /// The scheduler after the first `k` of the rounds, as long as the run
    /// goes on through them.
    pub open spec fn after_rounds(self, rounds: Seq<Round>, k: int) -> OutputScheduler
        decreases k,
    {
        if k <= 0 {
            self
        } else {
            self.after_rounds(rounds, k - 1).spec_moved(rounds[k - 1].advanced)
        }
    }

    /// The run goes on through the first `k` of the rounds: before each of
    /// them the scheduler says to advance, and after each of them it does
    /// not stop.
    pub open spec fn runs_through(self, rounds: Seq<Round>, k: int) -> bool
        decreases k,
    {
        if k <= 0 {
            true
        } else {
            let before = self.after_rounds(rounds, k - 1);
            &&& self.runs_through(rounds, k - 1)
            &&& before.spec_before_step(rounds[k - 1].probe) is AdvanceTo
            &&& before.spec_stop_after(rounds[k - 1].altitude_after) is None
        }
    }
}

/// A run goes on only after samples that are not at or below ground, and
/// takes a step only when no ground impact lies ahead: of the samples of
/// a run, only the one at the start and the last one can be at or below
/// ground.
pub proof fn lemma_run_stays_above_ground(
    scheduler: OutputScheduler,
    rounds: Seq<Round>,
    k: int,
    j: int,
)
    requires
        0 <= j < k <= rounds.len(),
        scheduler.runs_through(rounds, k),
    ensures
        !rounds[j].altitude_after.le(Scalar::from_bits(0)),
        !impact_ahead(rounds[j].probe),
        rounds[j].probe.clock_with_margin.lt(scheduler.end_time),
    decreases k,
{
    lemma_end_time_stays(scheduler, rounds, k - 1);
    if j < k - 1 {
        lemma_run_stays_above_ground(scheduler, rounds, k - 1, j);
    }
}

/// The end time and the output step of a run do not change.
pub proof fn lemma_end_time_stays(scheduler: OutputScheduler, rounds: Seq<Round>, k: int)
    ensures
        scheduler.after_rounds(rounds, k).end_time == scheduler.end_time,
        scheduler.after_rounds(rounds, k).output_step == scheduler.output_step,
    decreases k,
{
    if k > 0 {
        lemma_end_time_stays(scheduler, rounds, k - 1);
    }
}

/// No grid point lies after the end time, where the end time is a number
/// and the first grid point does not lie after it.
pub proof fn lemma_grid_ends_at_end_time(scheduler: OutputScheduler, rounds: Seq<Round>, k: int)
    requires
        0 <= k <= rounds.len(),
        scheduler.next_output_time.le(scheduler.end_time),
    ensures
        scheduler.after_rounds(rounds, k).next_output_time.le(scheduler.end_time),
    decreases k,
{
    if k > 0 {
        lemma_end_time_stays(scheduler, rounds, k - 1);
        lemma_grid_ends_at_end_time(scheduler, rounds, k - 1);
    }
}

/// The grid points of a run increase strictly, and none lies further from
/// the one before it than the sum that the caller made, as long as each
/// of these sums lies after the grid point it was made from.
pub proof fn lemma_grid_increases(scheduler: OutputScheduler, rounds: Seq<Round>, k: int)
    requires
        0 < k <= rounds.len(),
        scheduler.runs_through(rounds, k),
        rounds[k - 1].advanced.gt(scheduler.after_rounds(rounds, k - 1).next_output_time),
    ensures
        scheduler.after_rounds(rounds, k).next_output_time.gt(
            scheduler.after_rounds(rounds, k - 1).next_output_time,
        ),
        scheduler.after_rounds(rounds, k).next_output_time.le(rounds[k - 1].advanced),
{
    lemma_end_time_stays(scheduler, rounds, k - 1);
    let before = scheduler.after_rounds(rounds, k - 1);
    assert(before.spec_stop_after(rounds[k - 1].altitude_after) is None);
    assert(before.spec_before_step(rounds[k - 1].probe) is AdvanceTo);
}

/// In numbers: from one grid point of a run to the next, time advances
/// by more than nothing and by no more than the caller's sum adds to the
/// grid point, as long as that sum lies after the grid point. A sum that
/// adds the output step, give or take its rounding, bounds the distance
/// of neighbouring grid points by the output step, give or take the same.
pub proof fn lemma_grid_step_is_bounded(scheduler: OutputScheduler, rounds: Seq<Round>, k: int)
    requires
        0 < k <= rounds.len(),
        scheduler.runs_through(rounds, k),
        rounds[k - 1].advanced.gt(scheduler.after_rounds(rounds, k - 1).next_output_time),
    ensures
        ({
            let before = scheduler.after_rounds(rounds, k - 1).next_output_time;
            let after = scheduler.after_rounds(rounds, k).next_output_time;
            0 < after.units() - before.units() <= rounds[k - 1].advanced.units() - before.units()
        }),
{
    lemma_grid_increases(scheduler, rounds, k);
    let before = scheduler.after_rounds(rounds, k - 1).next_output_time;
    let after = scheduler.after_rounds(rounds, k).next_output_time;
    crate::value::lemma_order_is_numeric(before, after);
    crate::value::lemma_order_is_numeric(after, rounds[k - 1].advanced);
}

} // verus!
