//! Step control of the two integrators.
//!
//! The stages of a Runge-Kutta step are arithmetic and belong to the
//! caller. What is decided here is how long the next step is, whether a
//! step of the adaptive scheme is kept, and which integrator a run uses.
use crate::config::{IntegratorMethod, IntegratorSettings};
use crate::scalar::Scalar;
use crate::value::{lemma_nearest, lemma_represents};
use vstd::arithmetic::power2::{lemma2_to64, lemma2_to64_rest, lemma_pow2_adds};
use vstd::prelude::*;

verus! {

/// 0.000000001: absolute and relative tolerance of the adaptive scheme.
pub const DEFAULT_TOLERANCE: u64 = 0x3e11_2e0b_e826_d695;

/// 0.000001: the least step [s] of the adaptive scheme, and the least
/// fixed step that is derived from the output step.
pub const MIN_STEP: u64 = 0x3eb0_c6f7_a0b5_ed8d;

/// 10: the largest step [s] of the adaptive scheme.
pub const MAX_STEP: u64 = 0x4024_0000_0000_0000;

/// 0.1: the fixed step [s] of a run whose output step is unusable.
pub const FALLBACK_STEP: u64 = 0x3fb9_9999_9999_999a;

/// 0.000000000001: a remaining time [s] up to which a target counts as
/// reached.
pub const REACHED: u64 = 0x3d71_9799_812d_ea11;

/// 0.000000001: a distance [s] to the target within which the clock is set
/// to the target.
pub const SNAP: u64 = 0x3e11_2e0b_e826_d695;

/// 1: the largest scaled error of a step that is kept.
pub const UNIT: u64 = 0x3ff0_0000_0000_0000;

/// 0.2: the least factor by which a step changes.
pub const MIN_FACTOR: u64 = 0x3fc9_9999_9999_999a;

/// 5: the largest factor by which a step grows after it was kept.
pub const MAX_GROWTH: u64 = 0x4014_0000_0000_0000;

/// 0.5: the largest factor of a step after it was rejected.
pub const MAX_RETRY: u64 = 0x3fe0_0000_0000_0000;

/// A usable step: a positive finite number.
pub open spec fn usable_step(step: Scalar) -> bool {
    step.is_finite() && step.gt(Scalar::from_bits(0))
}

/// Whether a step is a positive finite number.
pub fn is_usable_step(step: Scalar) -> (r: bool)
    ensures
        r == usable_step(step),
{
    step.is_finite() && step.gt(Scalar::zero())
}

/// The step towards a target: the whole step `h` unless the sum `reach`
/// of the clock and `h` lies beyond the target, and then what is left,
/// `remaining`.
pub open spec fn limited_step(h: Scalar, reach: Scalar, target: Scalar, remaining: Scalar) -> Scalar {
    if reach.gt(target) {
        remaining
    } else {
        h
    }
}

/// Cuts a step so that it does not pass the target.
pub fn limit_step(h: Scalar, reach: Scalar, target: Scalar, remaining: Scalar) -> (step: Scalar)
    ensures
        step == limited_step(h, reach, target, remaining),
{
    if reach.gt(target) {
        remaining
    } else {
        h
    }
}

/// The classical fixed-step Runge-Kutta scheme of order four.
#[derive(Clone, Copy, Debug, PartialEq, Eq, Structural)]
pub struct RungeKutta4;

impl RungeKutta4 {
    /// The next step towards a target that lies `remaining` ahead: none
    /// once the target counts as reached, else the fixed step or what is
    /// left, whichever is less.
    pub fn substep(step: Scalar, remaining: Scalar) -> (next: Option<Scalar>)
        ensures
            next == if remaining.gt(Scalar::from_bits(REACHED)) {
                Some(step.min(remaining))
            } else {
                None
            },
    {
        if remaining.gt(Scalar::from_bits(REACHED)) {
            Some(step.min(remaining))
        } else {
            None
        }
    }

    /// The step of a march from the clock to an end at fixed step `dt`:
    /// none once the clock has reached the end, else `dt`, or what is left
    /// where the sum `reach` of the clock and `dt` lies beyond the end.
    pub fn march_step(
        clock: Scalar,
        end: Scalar,
        dt: Scalar,
        reach: Scalar,
        remaining: Scalar,
    ) -> (next: Option<Scalar>)
        ensures
            next == if clock.lt(end) {
                Some(limited_step(dt, reach, end, remaining))
            } else {
                None
            },
    {
        if clock.lt(end) {
            Some(limit_step(dt, reach, end, remaining))
        } else {
            None
        }
    }
}

/// What becomes of a step of the adaptive scheme.
#[derive(Clone, Copy, Debug, PartialEq, Eq, Structural)]
pub enum Verdict {
    /// The scaled error is within bounds: the step is kept.
    Accept,
    /// The scaled error is out of bounds, but the step cannot shrink any
    /// further: the step is kept so that the march does not stall.
    AcceptToAvoidStall,
    /// The step is taken again with the smaller step.
    Reject,
}

/// The largest magnitude among the first `n` scaled errors, from zero up;
/// a not-a-number among them is passed over.
pub open spec fn error_norm_of(scaled: Seq<Scalar>, n: int) -> Scalar
    decreases n,
{
    if n <= 0 {
        Scalar::from_bits(0)
    } else {
        error_norm_of(scaled, n - 1).max(scaled[n - 1].abs())
    }
}

/// The adaptive Dormand-Prince 5(4) scheme: its tolerances and the bounds
/// of its step.
#[derive(Clone, Copy, Debug, PartialEq, Eq, Structural)]
pub struct DormandPrince54 {
    pub abs_tol: Scalar,
    pub rel_tol: Scalar,
    pub h_min: Scalar,
    pub h_max: Scalar,
}

impl DormandPrince54 {
    /// The bounds of the step are numbers in order.
    pub open spec fn wf(&self) -> bool {
        self.h_min.le(self.h_max)
    }

    pub fn new(abs_tol: Scalar, rel_tol: Scalar, h_min: Scalar, h_max: Scalar) -> (solver: Self)
        ensures
            solver == (DormandPrince54 { abs_tol, rel_tol, h_min, h_max }),
    {
        DormandPrince54 { abs_tol, rel_tol, h_min, h_max }
    }

    /// The scheme as a run uses it: tolerances of 0.000000001 and steps
    /// from 0.000001 s to 10 s.
    pub fn standard() -> (solver: Self)
        ensures
            solver.wf(),
            solver == (DormandPrince54 {
                abs_tol: Scalar::from_bits(DEFAULT_TOLERANCE),
                rel_tol: Scalar::from_bits(DEFAULT_TOLERANCE),
                h_min: Scalar::from_bits(MIN_STEP),
                h_max: Scalar::from_bits(MAX_STEP),
            }),
    {
        DormandPrince54 {
            abs_tol: Scalar::from_bits(DEFAULT_TOLERANCE),
            rel_tol: Scalar::from_bits(DEFAULT_TOLERANCE),
            h_min: Scalar::from_bits(MIN_STEP),
            h_max: Scalar::from_bits(MAX_STEP),
        }
    }

    /// The first step of a march, given a tenth of the time to cover: its
    /// magnitude, at least the least and at most the largest step.
    pub fn initial_step(&self, tenth_of_span: Scalar) -> (h: Scalar)
        ensures
            h == tenth_of_span.abs().max(self.h_min).min(self.h_max),
    {
        tenth_of_span.abs().max(self.h_min).min(self.h_max)
    }

    /// The largest magnitude among the scaled errors of a step.
    pub fn error_norm(scaled: &Vec<Scalar>) -> (norm: Scalar)
        ensures
            norm == error_norm_of(scaled@, scaled@.len() as int),
    {
        let mut norm = Scalar::zero();
        let mut i: usize = 0;
        while i < scaled.len()
            invariant
                i <= scaled@.len(),
                norm == error_norm_of(scaled@, i as int),
            decreases scaled@.len() - i,
        {
            norm = norm.max(scaled[i].abs());
            i += 1;
        }
        norm
    }

    /// Whether a step with this error norm is within bounds.
    pub fn accepts(norm: Scalar) -> (within: bool)
        ensures
            within == norm.le(Scalar::from_bits(UNIT)),
    {
        norm.le(Scalar::from_bits(UNIT))
    }

    /// The factor by which the step changes, given the factor `raw` that
    /// the error estimate asks for: between 0.2 and 5 after a step within
    /// bounds, between 0.2 and 0.5 after one out of bounds.
    pub fn step_factor(raw: Scalar, within: bool) -> (factor: Scalar)
        ensures
            factor == raw.clamp(
                Scalar::from_bits(MIN_FACTOR),
                Scalar::from_bits(if within {
                    MAX_GROWTH
                } else {
                    MAX_RETRY
                }),
            ),
    {
        if within {
            raw.clamp(Scalar::from_bits(MIN_FACTOR), Scalar::from_bits(MAX_GROWTH))
        } else {
            raw.clamp(Scalar::from_bits(MIN_FACTOR), Scalar::from_bits(MAX_RETRY))
        }
    }

    /// The next step, given the product `scaled` of the last step and its
    /// factor: held between the least and the largest step.
    pub fn next_step(&self, scaled: Scalar) -> (h: Scalar)
        requires
            self.wf(),
        ensures
            h == scaled.clamp(self.h_min, self.h_max),
    {
        scaled.clamp(self.h_min, self.h_max)
    }

    /// Judges a step by its error norm. `next` is the step that follows
    /// it ([`DormandPrince54::next_step`]) and `stall_limit` the least
    /// step with a margin of one hundredth. A step within bounds is kept.
    /// A step out of bounds is rejected, unless the step that follows is
    /// down to the stall limit: then it is kept.
    pub fn verdict(norm: Scalar, next: Scalar, stall_limit: Scalar) -> (v: Verdict)
        ensures
            v == if norm.le(Scalar::from_bits(UNIT)) {
                Verdict::Accept
            } else if next.le(stall_limit) {
                Verdict::AcceptToAvoidStall
            } else {
                Verdict::Reject
            },
    {
        if DormandPrince54::accepts(norm) {
            Verdict::Accept
        } else if next.le(stall_limit) {
            Verdict::AcceptToAvoidStall
        } else {
            Verdict::Reject
        }
    }

    /// What a verdict does to the march, given the step `taken` that was
    /// judged and the step `next` that follows it: a step that is kept,
    /// for either reason, advances the clock by the step taken, the one
    /// that gave the new state; a rejected step does not advance it. The
    /// march goes on with the step that follows.
    pub fn advance(verdict: Verdict, taken: Scalar, next: Scalar) -> (r: (Option<Scalar>, Scalar))
        ensures
            r.0 == match verdict {
                Verdict::Reject => None,
                _ => Some(taken),
            },
            r.1 == next,
    {
        match verdict {
            Verdict::Reject => (None, next),
            _ => (Some(taken), next),
        }
    }

    /// Whether a kept step of a march with outputs reaches the grid point
    /// that is due, given the magnitude `distance` of what lies between
    /// the clock and the last grid point and the time `due`, the next grid
    /// point less the span that counts as reached: the clock stands on
    /// the last grid point, or at or after the time that is due.
    pub fn reaches_grid(distance: Scalar, clock: Scalar, due: Scalar) -> (reached: bool)
        ensures
            reached == (distance.lt(Scalar::from_bits(REACHED)) || clock.ge(due)),
    {
        distance.lt(Scalar::from_bits(REACHED)) || clock.ge(due)
    }

    /// Whether a march to a target goes on, given what is left to the
    /// target less the span that counts as reached: while the clock lies
    /// before it.
    pub fn marches_on(clock: Scalar, target_less_reached: Scalar) -> (on: bool)
        ensures
            on == clock.lt(target_less_reached),
    {
        clock.lt(target_less_reached)
    }
}

/// How a run integrates.
#[derive(Clone, Copy, Debug, PartialEq, Eq, Structural)]
pub enum IntegrationMode {
    Rk4 { step: Scalar },
    Rk45 { solver: DormandPrince54 },
}

/// The fixed step of a run that names no usable one: half the output
/// step, at least 0.000001 s; and 0.1 s where the output step is
/// unusable.
pub open spec fn derived_step(time_step: Scalar, half_time_step: Scalar) -> Scalar {
    if usable_step(time_step) {
        half_time_step.max(Scalar::from_bits(MIN_STEP))
    } else {
        Scalar::from_bits(FALLBACK_STEP)
    }
}

/// The integration that the settings select: the adaptive scheme in its
/// standard form; or the fixed-step scheme with the step of the settings
/// where that is usable, and the derived step otherwise.
pub open spec fn selected_mode(
    settings: IntegratorSettings,
    time_step: Scalar,
    half_time_step: Scalar,
) -> IntegrationMode {
    match settings.method {
        IntegratorMethod::Rk45 => IntegrationMode::Rk45 {
            solver: DormandPrince54 {
                abs_tol: Scalar::from_bits(DEFAULT_TOLERANCE),
                rel_tol: Scalar::from_bits(DEFAULT_TOLERANCE),
                h_min: Scalar::from_bits(MIN_STEP),
                h_max: Scalar::from_bits(MAX_STEP),
            },
        },
        IntegratorMethod::Rk4 => IntegrationMode::Rk4 {
            step: match settings.rk4_step {
                Some(step) if usable_step(step) => step,
                _ => derived_step(time_step, half_time_step),
            },
        },
    }
}

impl IntegrationMode {
    /// Selects the integration of a run. `half_time_step` is half the
    /// output step `time_step`.
    pub fn select(settings: &IntegratorSettings, time_step: Scalar, half_time_step: Scalar) -> (mode:
        Self)
        ensures
            mode == selected_mode(*settings, time_step, half_time_step),
    {
        match settings.method {
            IntegratorMethod::Rk45 => IntegrationMode::Rk45 { solver: DormandPrince54::standard() },
            IntegratorMethod::Rk4 => {
                let derived = if is_usable_step(time_step) {
                    half_time_step.max(Scalar::from_bits(MIN_STEP))
                } else {
                    Scalar::from_bits(FALLBACK_STEP)
                };
                let step = match settings.rk4_step {
                    Some(step) => if is_usable_step(step) {
                        step
                    } else {
                        derived
                    },
                    None => derived,
                };
                IntegrationMode::Rk4 { step }
            },
        }
    }
}

/// The error norm bounds the magnitude of every scaled error that is a
/// number.
pub proof fn lemma_norm_bounds_each(scaled: Seq<Scalar>, n: int, i: int)
    requires
        0 <= i < n <= scaled.len(),
        !scaled[i].is_nan(),
    ensures
        scaled[i].abs().le(error_norm_of(scaled, n)),
        !error_norm_of(scaled, n).is_nan(),
    decreases n,
{
    lemma_norm_is_number(scaled, n - 1);
    if i < n - 1 {
        lemma_norm_bounds_each(scaled, n - 1, i);
    }
}

/// The error norm is a number, and not below zero.
pub proof fn lemma_norm_is_number(scaled: Seq<Scalar>, n: int)
    requires
        n <= scaled.len(),
    ensures
        !error_norm_of(scaled, n).is_nan(),
        Scalar::from_bits(0).le(error_norm_of(scaled, n)),
    decreases n,
{
    if n > 0 {
        lemma_norm_is_number(scaled, n - 1);
    }
}

/// Every step that the adaptive scheme keeps has all its scaled errors
/// that are numbers at or below one in magnitude, except a step that is
/// kept to avoid a stall, and then the step that follows is down to the
/// stall limit.
pub proof fn lemma_kept_step_is_within_bounds(
    scaled: Seq<Scalar>,
    next: Scalar,
    stall_limit: Scalar,
    v: Verdict,
    i: int,
)
    requires
        v == if error_norm_of(scaled, scaled.len() as int).le(Scalar::from_bits(UNIT)) {
            Verdict::Accept
        } else if next.le(stall_limit) {
            Verdict::AcceptToAvoidStall
        } else {
            Verdict::Reject
        },
        0 <= i < scaled.len(),
        !scaled[i].is_nan(),
    ensures
        v is Accept ==> scaled[i].abs().le(Scalar::from_bits(UNIT)),
        v is AcceptToAvoidStall ==> next.le(stall_limit),
        v is Reject ==> !next.le(stall_limit) && !error_norm_of(scaled, scaled.len() as int).le(
            Scalar::from_bits(UNIT),
        ),
{
    lemma_norm_bounds_each(scaled, scaled.len() as int, i);
}

/// The bounds that are whole numbers stand for these.
pub proof fn lemma_bounds_are_whole_numbers()
    ensures
        Scalar::from_bits(MAX_STEP).represents(10),
        Scalar::from_bits(UNIT).represents(1),
        Scalar::from_bits(MAX_GROWTH).represents(5),
{
    lemma2_to64();
    lemma2_to64_rest();
    lemma_represents(MAX_STEP, 10, 49, 0x2000000000000);
    lemma_represents(UNIT, 1, 52, 0x10000000000000);
    lemma_represents(MAX_GROWTH, 5, 50, 0x4000000000000);
}

/// The bounds that are no whole numbers are the hardware numbers nearest
/// to these ratios; the largest factor after a rejected step is a half.
pub proof fn lemma_bounds_are_nearest_to_decimals()
    ensures
        Scalar::from_bits(DEFAULT_TOLERANCE).is_nearest_to(1, 1000000000),
        Scalar::from_bits(MIN_STEP).is_nearest_to(1, 1000000),
        Scalar::from_bits(FALLBACK_STEP).is_nearest_to(1, 10),
        Scalar::from_bits(REACHED).is_nearest_to(1, 1000000000000),
        Scalar::from_bits(SNAP).is_nearest_to(1, 1000000000),
        Scalar::from_bits(MIN_FACTOR).is_nearest_to(1, 5),
        Scalar::from_bits(MAX_RETRY).is_ratio(1, 2),
{
    lemma2_to64();
    lemma2_to64_rest();
    lemma_pow2_adds(64, 18);
    lemma_nearest(DEFAULT_TOLERANCE, 1, 1000000000, 993, 0x112e0be826d695, 82, 0x400000000000000000000);
    lemma_pow2_adds(64, 8);
    lemma_nearest(MIN_STEP, 1, 1000000, 1003, 0x10c6f7a0b5ed8d, 72, 0x1000000000000000000);
    lemma_nearest(FALLBACK_STEP, 1, 10, 1019, 0x1999999999999a, 56, 0x100000000000000);
    lemma_pow2_adds(64, 28);
    lemma_nearest(REACHED, 1, 1000000000000, 983, 0x119799812dea11, 92, 0x100000000000000000000000);
    lemma_nearest(SNAP, 1, 1000000000, 993, 0x112e0be826d695, 82, 0x400000000000000000000);
    lemma_nearest(MIN_FACTOR, 1, 5, 1020, 0x1999999999999a, 55, 0x80000000000000);
    lemma_nearest(MAX_RETRY, 1, 2, 1022, 0x10000000000000, 53, 0x20000000000000);
}

} // verus!
