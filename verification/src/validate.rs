//! Validation of a vehicle description before a run.
//!
//! Every rule is a comparison of one field against fixed limits. A finding
//! names the rule that was broken and, for the rules on stages, the stage,
//! counted from one; the caller renders it with the field's value.
use crate::config::{
    CalculateCondition, IntegratorMethod, IntegratorSettings, LaunchCondition, RocketConfig,
    StageConfig, WindConfig,
};
use crate::scalar::Scalar;
use crate::value::{lemma_nearest, lemma_represents};
use vstd::arithmetic::power2::{lemma2_to64, lemma2_to64_rest, lemma_pow2_adds};
use vstd::prelude::*;

verus! {

/// 3600: an end time [s] above it is questioned.
pub const MAX_END_TIME: u64 = 0x40ac_2000_0000_0000;

/// 0.001: an output step [s] below it is questioned.
pub const MIN_OUTPUT_STEP: u64 = 0x3f50_624d_d2f1_a9fc;

/// -100 and 100: the range of the air density variation [%].
pub const MIN_DENSITY_VARIATION: u64 = 0xc059_0000_0000_0000;

pub const MAX_DENSITY_VARIATION: u64 = 0x4059_0000_0000_0000;

/// 1: a fixed integration step [s] above it is questioned.
pub const MAX_RK4_STEP: u64 = 0x3ff0_0000_0000_0000;

/// 0.000001: a fixed integration step [s] below it is questioned.
pub const MIN_RK4_STEP: u64 = 0x3eb0_c6f7_a0b5_ed8d;

/// -90 and 90: the range of the latitude [deg].
pub const MIN_LATITUDE: u64 = 0xc056_8000_0000_0000;

pub const MAX_LATITUDE: u64 = 0x4056_8000_0000_0000;

/// -180 and 180: the range of the longitude [deg].
pub const MIN_LONGITUDE: u64 = 0xc066_8000_0000_0000;

pub const MAX_LONGITUDE: u64 = 0x4066_8000_0000_0000;

/// -500 and 10000: the range of the launch height [m].
pub const MIN_LAUNCH_ALTITUDE: u64 = 0xc07f_4000_0000_0000;

pub const MAX_LAUNCH_ALTITUDE: u64 = 0x40c3_8800_0000_0000;

/// 100: an initial speed [m/s] above it is questioned.
pub const MAX_LAUNCH_SPEED: u64 = 0x4059_0000_0000_0000;

/// 10: more stages than this are questioned.
pub const MAX_STAGE_COUNT: usize = 10;

/// 1000000: a stage mass [kg] above it is questioned.
pub const MAX_STAGE_MASS: u64 = 0x412e_8480_0000_0000;

/// 50000000: a vacuum thrust [N] above it is questioned.
pub const MAX_THRUST: u64 = 0x4187_d784_0000_0000;

/// 100 and 500: the usual range of the vacuum specific impulse [s].
pub const MIN_ISP: u64 = 0x4059_0000_0000_0000;

pub const MAX_ISP: u64 = 0x407f_4000_0000_0000;

/// 1: the least nozzle expansion ratio.
pub const MIN_EXPANSION_RATIO: u64 = 0x3ff0_0000_0000_0000;

/// 50: a body diameter [m] above it is questioned.
pub const MAX_BODY_DIAMETER: u64 = 0x4049_0000_0000_0000;

/// A rule that a vehicle description breaks.
#[derive(Clone, Copy, Debug, PartialEq, Eq, Structural)]
pub enum ConfigIssue {
    EndTimeNotPositive,
    EndTimeOverHour,
    TimeStepNotPositive,
    TimeStepTooCoarse,
    TimeStepTooFine,
    DensityVariationNotFinite,
    DensityVariationOutOfRange,
    Rk4StepNotPositive,
    Rk4StepTooLarge,
    Rk4StepTooSmall,
    LatitudeOutOfRange,
    LongitudeOutOfRange,
    AltitudeNotFinite,
    AltitudeTooLow,
    AltitudeTooHigh,
    VelocityNotFinite,
    VelocityTooLarge,
    LaunchYearOutOfRange,
    LaunchMonthOutOfRange,
    LaunchDayOutOfRange,
    LaunchHourOutOfRange,
    LaunchMinuteOutOfRange,
    LaunchSecondOutOfRange,
    NoStages,
    TooManyStages { count: usize },
    MassNotPositive { stage: usize },
    MassTooLarge { stage: usize },
    BurnStartNegative { stage: usize },
    BurnEndNegative { stage: usize },
    BurnEndNotAfterStart { stage: usize },
    ThrustNegative { stage: usize },
    ThrustTooLarge { stage: usize },
    IspNotPositive { stage: usize },
    IspTooHigh { stage: usize },
    IspTooLow { stage: usize },
    ThroatNotPositive { stage: usize },
    ExpansionRatioBelowOne { stage: usize },
    BodyDiameterNotPositive { stage: usize },
    BodyDiameterTooLarge { stage: usize },
    SeparationNotAfterBurnEnd { stage: usize },
    NextBurnBeforeSeparation { stage: usize },
}

/// What validation needs beside the description and cannot derive by
/// comparison alone: the caller computes these from the description.
#[derive(Clone, Copy, Debug)]
pub struct DerivedQuantities {
    /// A tenth of the end time [s].
    pub coarse_step_limit: Scalar,
    /// The Euclidean norm of the initial velocity [m/s].
    pub launch_speed: Scalar,
}

/// The findings of a failed validation, in the order of the rules.
#[derive(Debug)]
pub struct ConfigValidationError {
    pub errors: Vec<ConfigIssue>,
}

/// No finding, or the one finding of a rule.
#[verifier::opaque]
pub open spec fn found(issue: Option<ConfigIssue>) -> Seq<ConfigIssue> {
    match issue {
        Some(i) => seq![i],
        None => Seq::empty(),
    }
}

/// A quantity that must be a positive finite number is not.
pub open spec fn not_positive(x: Scalar) -> bool {
    !x.is_finite() || x.le(Scalar::from_bits(0))
}

/// A quantity that must be a finite number and not negative is not.
pub open spec fn negative_or_not_finite(x: Scalar) -> bool {
    !x.is_finite() || x.lt(Scalar::from_bits(0))
}

pub open spec fn end_time_issue(end_time: Scalar) -> Option<ConfigIssue> {
    if not_positive(end_time) {
        Some(ConfigIssue::EndTimeNotPositive)
    } else if end_time.gt(Scalar::from_bits(MAX_END_TIME)) {
        Some(ConfigIssue::EndTimeOverHour)
    } else {
        None
    }
}

pub open spec fn time_step_issue(time_step: Scalar, coarse_step_limit: Scalar) -> Option<
    ConfigIssue,
> {
    if not_positive(time_step) {
        Some(ConfigIssue::TimeStepNotPositive)
    } else if time_step.gt(coarse_step_limit) {
        Some(ConfigIssue::TimeStepTooCoarse)
    } else if time_step.lt(Scalar::from_bits(MIN_OUTPUT_STEP)) {
        Some(ConfigIssue::TimeStepTooFine)
    } else {
        None
    }
}

pub open spec fn density_variation_issue(variation: Scalar) -> Option<ConfigIssue> {
    if !variation.is_finite() {
        Some(ConfigIssue::DensityVariationNotFinite)
    } else if variation.lt(Scalar::from_bits(MIN_DENSITY_VARIATION)) || variation.gt(
        Scalar::from_bits(MAX_DENSITY_VARIATION),
    ) {
        Some(ConfigIssue::DensityVariationOutOfRange)
    } else {
        None
    }
}

pub open spec fn integrator_issue(settings: IntegratorSettings) -> Option<ConfigIssue> {
    match (settings.method, settings.rk4_step) {
        (IntegratorMethod::Rk4, Some(step)) => {
            if not_positive(step) {
                Some(ConfigIssue::Rk4StepNotPositive)
            } else if step.gt(Scalar::from_bits(MAX_RK4_STEP)) {
                Some(ConfigIssue::Rk4StepTooLarge)
            } else if step.lt(Scalar::from_bits(MIN_RK4_STEP)) {
                Some(ConfigIssue::Rk4StepTooSmall)
            } else {
                None
            }
        },
        _ => None,
    }
}

/// The findings on the calculation settings: end time, output step, air
/// density variation and integrator, in this order.
pub open spec fn calculate_condition_issues(
    calc: CalculateCondition,
    coarse_step_limit: Scalar,
) -> Seq<ConfigIssue> {
    found(end_time_issue(calc.end_time)) + found(
        time_step_issue(calc.time_step, coarse_step_limit),
    ) + found(density_variation_issue(calc.air_density_variation)) + found(
        integrator_issue(calc.integrator),
    )
}

/// A number that must lie in `[lo, hi]` does not, or is no number.
pub open spec fn outside(x: Scalar, lo: u64, hi: u64) -> bool {
    !x.is_finite() || !(Scalar::from_bits(lo).le(x) && x.le(Scalar::from_bits(hi)))
}

pub open spec fn latitude_issue(latitude: Scalar) -> Option<ConfigIssue> {
    if outside(latitude, MIN_LATITUDE, MAX_LATITUDE) {
        Some(ConfigIssue::LatitudeOutOfRange)
    } else {
        None
    }
}

pub open spec fn longitude_issue(longitude: Scalar) -> Option<ConfigIssue> {
    if outside(longitude, MIN_LONGITUDE, MAX_LONGITUDE) {
        Some(ConfigIssue::LongitudeOutOfRange)
    } else {
        None
    }
}

pub open spec fn altitude_issue(altitude: Scalar) -> Option<ConfigIssue> {
    if !altitude.is_finite() {
        Some(ConfigIssue::AltitudeNotFinite)
    } else if altitude.lt(Scalar::from_bits(MIN_LAUNCH_ALTITUDE)) {
        Some(ConfigIssue::AltitudeTooLow)
    } else if altitude.gt(Scalar::from_bits(MAX_LAUNCH_ALTITUDE)) {
        Some(ConfigIssue::AltitudeTooHigh)
    } else {
        None
    }
}

pub open spec fn velocity_issue(velocity: [Scalar; 3], speed: Scalar) -> Option<ConfigIssue> {
    if !velocity[0].is_finite() || !velocity[1].is_finite() || !velocity[2].is_finite() {
        Some(ConfigIssue::VelocityNotFinite)
    } else if speed.gt(Scalar::from_bits(MAX_LAUNCH_SPEED)) {
        Some(ConfigIssue::VelocityTooLarge)
    } else {
        None
    }
}

/// `issue` where `value` is outside `[lo, hi]`.
pub open spec fn calendar_issue(value: i32, lo: i32, hi: i32, issue: ConfigIssue) -> Option<
    ConfigIssue,
> {
    if lo <= value <= hi {
        None
    } else {
        Some(issue)
    }
}

/// The findings on the launch time: year in 1900..=2100, month, day, hour,
/// minute and second in their calendar ranges.
pub open spec fn launch_time_issues(time: [i32; 6]) -> Seq<ConfigIssue> {
    found(calendar_issue(time[0], 1900, 2100, ConfigIssue::LaunchYearOutOfRange)) + found(
        calendar_issue(time[1], 1, 12, ConfigIssue::LaunchMonthOutOfRange),
    ) + found(calendar_issue(time[2], 1, 31, ConfigIssue::LaunchDayOutOfRange)) + found(
        calendar_issue(time[3], 0, 23, ConfigIssue::LaunchHourOutOfRange),
    ) + found(calendar_issue(time[4], 0, 59, ConfigIssue::LaunchMinuteOutOfRange)) + found(
        calendar_issue(time[5], 0, 59, ConfigIssue::LaunchSecondOutOfRange),
    )
}

/// The findings on the launch condition: position, velocity, then time.
pub open spec fn launch_condition_issues(launch: LaunchCondition, speed: Scalar) -> Seq<
    ConfigIssue,
> {
    found(latitude_issue(launch.position_llh[0])) + found(
        longitude_issue(launch.position_llh[1]),
    ) + found(altitude_issue(launch.position_llh[2])) + found(
        velocity_issue(launch.velocity_ned, speed),
    ) + launch_time_issues(launch.launch_time)
}

pub open spec fn mass_issue(mass: Scalar, stage: usize) -> Option<ConfigIssue> {
    if not_positive(mass) {
        Some(ConfigIssue::MassNotPositive { stage })
    } else if mass.gt(Scalar::from_bits(MAX_STAGE_MASS)) {
        Some(ConfigIssue::MassTooLarge { stage })
    } else {
        None
    }
}

pub open spec fn burn_start_issue(burn_start: Scalar, stage: usize) -> Option<ConfigIssue> {
    if negative_or_not_finite(burn_start) {
        Some(ConfigIssue::BurnStartNegative { stage })
    } else {
        None
    }
}

pub open spec fn burn_end_issue(burn_end: Scalar, stage: usize) -> Option<ConfigIssue> {
    if negative_or_not_finite(burn_end) {
        Some(ConfigIssue::BurnEndNegative { stage })
    } else {
        None
    }
}

pub open spec fn burn_window_issue(burn_start: Scalar, burn_end: Scalar, stage: usize) -> Option<
    ConfigIssue,
> {
    if burn_end.le(burn_start) {
        Some(ConfigIssue::BurnEndNotAfterStart { stage })
    } else {
        None
    }
}

pub open spec fn thrust_issue(thrust: Scalar, stage: usize) -> Option<ConfigIssue> {
    if negative_or_not_finite(thrust) {
        Some(ConfigIssue::ThrustNegative { stage })
    } else if thrust.gt(Scalar::from_bits(MAX_THRUST)) {
        Some(ConfigIssue::ThrustTooLarge { stage })
    } else {
        None
    }
}

pub open spec fn isp_issue(isp: Scalar, stage: usize) -> Option<ConfigIssue> {
    if not_positive(isp) {
        Some(ConfigIssue::IspNotPositive { stage })
    } else if isp.gt(Scalar::from_bits(MAX_ISP)) {
        Some(ConfigIssue::IspTooHigh { stage })
    } else if isp.lt(Scalar::from_bits(MIN_ISP)) {
        Some(ConfigIssue::IspTooLow { stage })
    } else {
        None
    }
}

pub open spec fn throat_issue(diameter: Scalar, stage: usize) -> Option<ConfigIssue> {
    if not_positive(diameter) {
        Some(ConfigIssue::ThroatNotPositive { stage })
    } else {
        None
    }
}

pub open spec fn expansion_ratio_issue(ratio: Scalar, stage: usize) -> Option<ConfigIssue> {
    if !ratio.is_finite() || ratio.lt(Scalar::from_bits(MIN_EXPANSION_RATIO)) {
        Some(ConfigIssue::ExpansionRatioBelowOne { stage })
    } else {
        None
    }
}

pub open spec fn body_diameter_issue(diameter: Scalar, stage: usize) -> Option<ConfigIssue> {
    if not_positive(diameter) {
        Some(ConfigIssue::BodyDiameterNotPositive { stage })
    } else if diameter.gt(Scalar::from_bits(MAX_BODY_DIAMETER)) {
        Some(ConfigIssue::BodyDiameterTooLarge { stage })
    } else {
        None
    }
}

/// The findings on one stage, numbered `stage`: mass, burn start, burn end,
/// burn window, thrust, specific impulse, throat, expansion ratio and body
/// diameter, in this order.
pub open spec fn single_stage_issues(config: StageConfig, stage: usize) -> Seq<ConfigIssue> {
    found(mass_issue(config.mass_initial, stage)) + found(
        burn_start_issue(config.thrust.burn_start_time, stage),
    ) + found(burn_end_issue(config.thrust.burn_end_time, stage)) + found(
        burn_window_issue(config.thrust.burn_start_time, config.thrust.burn_end_time, stage),
    ) + found(thrust_issue(config.thrust.const_thrust_vac, stage)) + found(
        isp_issue(config.thrust.const_isp_vac, stage),
    ) + found(throat_issue(config.thrust.throat_diameter, stage)) + found(
        expansion_ratio_issue(config.thrust.nozzle_expansion_ratio, stage),
    ) + found(body_diameter_issue(config.aero.body_diameter, stage))
}

/// The findings on the first `n` stages, each checked on its own.
pub open spec fn each_stage_issues(stages: Seq<StageConfig>, n: nat) -> Seq<ConfigIssue>
    recommends
        n <= stages.len(),
    decreases n,
{
    if n == 0 {
        Seq::empty()
    } else {
        each_stage_issues(stages, (n - 1) as nat) + single_stage_issues(
            stages[n - 1],
            n as usize,
        )
    }
}

/// The findings on the hand-over from `current`, numbered `stage`, to the
/// stage `next` that follows it. The times of a stage count from its
/// ignition, and the next stage ignites when this one separates: so this
/// one must separate after its own burn end, and the next one burns
/// before the separation exactly when its burn start is below zero.
pub open spec fn hand_over_issues(current: StageConfig, next: StageConfig, stage: usize) -> Seq<
    ConfigIssue,
> {
    if current.stage.following_stage_exists {
        found(
            if current.stage.separation_time.le(current.thrust.burn_end_time) {
                Some(ConfigIssue::SeparationNotAfterBurnEnd { stage })
            } else {
                None
            },
        ) + found(
            if next.thrust.burn_start_time.lt(Scalar::from_bits(0)) {
                Some(ConfigIssue::NextBurnBeforeSeparation { stage: (stage + 1) as usize })
            } else {
                None
            },
        )
    } else {
        Seq::empty()
    }
}

/// The findings on the first `n` hand-overs between neighbouring stages.
pub open spec fn separation_timing_issues(stages: Seq<StageConfig>, n: nat) -> Seq<ConfigIssue>
    recommends
        n <= hand_over_count(stages),
    decreases n,
{
    if n == 0 {
        Seq::empty()
    } else {
        separation_timing_issues(stages, (n - 1) as nat) + hand_over_issues(
            stages[n - 1],
            stages[n as int],
            n as usize,
        )
    }
}

/// The number of hand-overs in a list of stages.
pub open spec fn hand_over_count(stages: Seq<StageConfig>) -> nat {
    if stages.len() == 0 {
        0
    } else {
        (stages.len() - 1) as nat
    }
}

/// The findings on the list of stages: that it is empty, and nothing else;
/// or that it is long, then each stage, then each hand-over.
pub open spec fn stages_issues(stages: Seq<StageConfig>) -> Seq<ConfigIssue> {
    if stages.len() == 0 {
        seq![ConfigIssue::NoStages]
    } else {
        found(
            if stages.len() > MAX_STAGE_COUNT {
                Some(ConfigIssue::TooManyStages { count: stages.len() as usize })
            } else {
                None
            },
        ) + each_stage_issues(stages, stages.len()) + separation_timing_issues(
            stages,
            hand_over_count(stages),
        )
    }
}

/// All findings on a vehicle description: calculation settings, launch
/// condition, stages; the wind has no rule.
pub open spec fn config_issues(config: RocketConfig, derived: DerivedQuantities) -> Seq<
    ConfigIssue,
> {
    calculate_condition_issues(config.calculate_condition, derived.coarse_step_limit)
        + launch_condition_issues(config.launch, derived.launch_speed) + stages_issues(
        config.stages@,
    )
}

fn is_not_positive(x: Scalar) -> (b: bool)
    ensures
        b == not_positive(x),
{
    !x.is_finite() || x.le(Scalar::zero())
}

fn is_negative_or_not_finite(x: Scalar) -> (b: bool)
    ensures
        b == negative_or_not_finite(x),
{
    !x.is_finite() || x.lt(Scalar::zero())
}

fn is_outside(x: Scalar, lo: u64, hi: u64) -> (b: bool)
    ensures
        b == outside(x, lo, hi),
{
    !x.is_finite() || !(Scalar::from_bits(lo).le(x) && x.le(Scalar::from_bits(hi)))
}

/// Appends the finding of one rule, if there is one.
fn record(errors: &mut Vec<ConfigIssue>, issue: Option<ConfigIssue>)
    ensures
        final(errors)@ == old(errors)@ + found(issue),
{
    reveal(found);
    match issue {
        Some(i) => {
            errors.push(i);
            assert(errors@ =~= old(errors)@ + found(issue));
        },
        None => {
            assert(errors@ =~= old(errors)@ + found(issue));
        },
    }
}

fn check_end_time(end_time: Scalar) -> (r: Option<ConfigIssue>)
    ensures
        r == end_time_issue(end_time),
{
    if is_not_positive(end_time) {
        Some(ConfigIssue::EndTimeNotPositive)
    } else if end_time.gt(Scalar::from_bits(MAX_END_TIME)) {
        Some(ConfigIssue::EndTimeOverHour)
    } else {
        None
    }
}

fn check_time_step(time_step: Scalar, coarse_step_limit: Scalar) -> (r: Option<ConfigIssue>)
    ensures
        r == time_step_issue(time_step, coarse_step_limit),
{
    if is_not_positive(time_step) {
        Some(ConfigIssue::TimeStepNotPositive)
    } else if time_step.gt(coarse_step_limit) {
        Some(ConfigIssue::TimeStepTooCoarse)
    } else if time_step.lt(Scalar::from_bits(MIN_OUTPUT_STEP)) {
        Some(ConfigIssue::TimeStepTooFine)
    } else {
        None
    }
}

fn check_density_variation(variation: Scalar) -> (r: Option<ConfigIssue>)
    ensures
        r == density_variation_issue(variation),
{
    if !variation.is_finite() {
        Some(ConfigIssue::DensityVariationNotFinite)
    } else if variation.lt(Scalar::from_bits(MIN_DENSITY_VARIATION)) || variation.gt(
        Scalar::from_bits(MAX_DENSITY_VARIATION),
    ) {
        Some(ConfigIssue::DensityVariationOutOfRange)
    } else {
        None
    }
}

fn check_integrator(settings: IntegratorSettings) -> (r: Option<ConfigIssue>)
    ensures
        r == integrator_issue(settings),
{
    match (settings.method, settings.rk4_step) {
        (IntegratorMethod::Rk4, Some(step)) => {
            if is_not_positive(step) {
                Some(ConfigIssue::Rk4StepNotPositive)
            } else if step.gt(Scalar::from_bits(MAX_RK4_STEP)) {
                Some(ConfigIssue::Rk4StepTooLarge)
            } else if step.lt(Scalar::from_bits(MIN_RK4_STEP)) {
                Some(ConfigIssue::Rk4StepTooSmall)
            } else {
                None
            }
        },
        _ => None,
    }
}

fn check_latitude(latitude: Scalar) -> (r: Option<ConfigIssue>)
    ensures
        r == latitude_issue(latitude),
{
    if is_outside(latitude, MIN_LATITUDE, MAX_LATITUDE) {
        Some(ConfigIssue::LatitudeOutOfRange)
    } else {
        None
    }
}

fn check_longitude(longitude: Scalar) -> (r: Option<ConfigIssue>)
    ensures
        r == longitude_issue(longitude),
{
    if is_outside(longitude, MIN_LONGITUDE, MAX_LONGITUDE) {
        Some(ConfigIssue::LongitudeOutOfRange)
    } else {
        None
    }
}

fn check_altitude(altitude: Scalar) -> (r: Option<ConfigIssue>)
    ensures
        r == altitude_issue(altitude),
{
    if !altitude.is_finite() {
        Some(ConfigIssue::AltitudeNotFinite)
    } else if altitude.lt(Scalar::from_bits(MIN_LAUNCH_ALTITUDE)) {
        Some(ConfigIssue::AltitudeTooLow)
    } else if altitude.gt(Scalar::from_bits(MAX_LAUNCH_ALTITUDE)) {
        Some(ConfigIssue::AltitudeTooHigh)
    } else {
        None
    }
}

fn check_velocity(velocity: &[Scalar; 3], speed: Scalar) -> (r: Option<ConfigIssue>)
    ensures
        r == velocity_issue(*velocity, speed),
{
    if !velocity[0].is_finite() || !velocity[1].is_finite() || !velocity[2].is_finite() {
        Some(ConfigIssue::VelocityNotFinite)
    } else if speed.gt(Scalar::from_bits(MAX_LAUNCH_SPEED)) {
        Some(ConfigIssue::VelocityTooLarge)
    } else {
        None
    }
}

fn check_calendar(value: i32, lo: i32, hi: i32, issue: ConfigIssue) -> (r: Option<ConfigIssue>)
    ensures
        r == calendar_issue(value, lo, hi, issue),
{
    if lo <= value && value <= hi {
        None
    } else {
        Some(issue)
    }
}

fn validate_launch_time(time: &[i32; 6], errors: &mut Vec<ConfigIssue>)
    ensures
        final(errors)@ == old(errors)@ + launch_time_issues(*time),
{
    record(errors, check_calendar(time[0], 1900, 2100, ConfigIssue::LaunchYearOutOfRange));
    record(errors, check_calendar(time[1], 1, 12, ConfigIssue::LaunchMonthOutOfRange));
    record(errors, check_calendar(time[2], 1, 31, ConfigIssue::LaunchDayOutOfRange));
    record(errors, check_calendar(time[3], 0, 23, ConfigIssue::LaunchHourOutOfRange));
    record(errors, check_calendar(time[4], 0, 59, ConfigIssue::LaunchMinuteOutOfRange));
    record(errors, check_calendar(time[5], 0, 59, ConfigIssue::LaunchSecondOutOfRange));
    assert(errors@ =~= old(errors)@ + launch_time_issues(*time));
}

fn check_mass(mass: Scalar, stage: usize) -> (r: Option<ConfigIssue>)
    ensures
        r == mass_issue(mass, stage),
{
    if is_not_positive(mass) {
        Some(ConfigIssue::MassNotPositive { stage })
    } else if mass.gt(Scalar::from_bits(MAX_STAGE_MASS)) {
        Some(ConfigIssue::MassTooLarge { stage })
    } else {
        None
    }
}

fn check_burn_start(burn_start: Scalar, stage: usize) -> (r: Option<ConfigIssue>)
    ensures
        r == burn_start_issue(burn_start, stage),
{
    if is_negative_or_not_finite(burn_start) {
        Some(ConfigIssue::BurnStartNegative { stage })
    } else {
        None
    }
}

fn check_burn_end(burn_end: Scalar, stage: usize) -> (r: Option<ConfigIssue>)
    ensures
        r == burn_end_issue(burn_end, stage),
{
    if is_negative_or_not_finite(burn_end) {
        Some(ConfigIssue::BurnEndNegative { stage })
    } else {
        None
    }
}

fn check_burn_window(burn_start: Scalar, burn_end: Scalar, stage: usize) -> (r: Option<
    ConfigIssue,
>)
    ensures
        r == burn_window_issue(burn_start, burn_end, stage),
{
    if burn_end.le(burn_start) {
        Some(ConfigIssue::BurnEndNotAfterStart { stage })
    } else {
        None
    }
}

fn check_thrust(thrust: Scalar, stage: usize) -> (r: Option<ConfigIssue>)
    ensures
        r == thrust_issue(thrust, stage),
{
    if is_negative_or_not_finite(thrust) {
        Some(ConfigIssue::ThrustNegative { stage })
    } else if thrust.gt(Scalar::from_bits(MAX_THRUST)) {
        Some(ConfigIssue::ThrustTooLarge { stage })
    } else {
        None
    }
}

fn check_isp(isp: Scalar, stage: usize) -> (r: Option<ConfigIssue>)
    ensures
        r == isp_issue(isp, stage),
{
    if is_not_positive(isp) {
        Some(ConfigIssue::IspNotPositive { stage })
    } else if isp.gt(Scalar::from_bits(MAX_ISP)) {
        Some(ConfigIssue::IspTooHigh { stage })
    } else if isp.lt(Scalar::from_bits(MIN_ISP)) {
        Some(ConfigIssue::IspTooLow { stage })
    } else {
        None
    }
}

fn check_throat(diameter: Scalar, stage: usize) -> (r: Option<ConfigIssue>)
    ensures
        r == throat_issue(diameter, stage),
{
    if is_not_positive(diameter) {
        Some(ConfigIssue::ThroatNotPositive { stage })
    } else {
        None
    }
}

fn check_expansion_ratio(ratio: Scalar, stage: usize) -> (r: Option<ConfigIssue>)
    ensures
        r == expansion_ratio_issue(ratio, stage),
{
    if !ratio.is_finite() || ratio.lt(Scalar::from_bits(MIN_EXPANSION_RATIO)) {
        Some(ConfigIssue::ExpansionRatioBelowOne { stage })
    } else {
        None
    }
}

fn check_body_diameter(diameter: Scalar, stage: usize) -> (r: Option<ConfigIssue>)
    ensures
        r == body_diameter_issue(diameter, stage),
{
    if is_not_positive(diameter) {
        Some(ConfigIssue::BodyDiameterNotPositive { stage })
    } else if diameter.gt(Scalar::from_bits(MAX_BODY_DIAMETER)) {
        Some(ConfigIssue::BodyDiameterTooLarge { stage })
    } else {
        None
    }
}

fn validate_hand_over(
    current: &StageConfig,
    next: &StageConfig,
    stage: usize,
    errors: &mut Vec<ConfigIssue>,
)
    requires
        stage < usize::MAX,
    ensures
        final(errors)@ == old(errors)@ + hand_over_issues(*current, *next, stage),
{
    if current.stage.following_stage_exists {
        let separation = if current.stage.separation_time.le(current.thrust.burn_end_time) {
            Some(ConfigIssue::SeparationNotAfterBurnEnd { stage })
        } else {
            None
        };
        record(errors, separation);
        let ignition = if next.thrust.burn_start_time.lt(Scalar::zero()) {
            Some(ConfigIssue::NextBurnBeforeSeparation { stage: stage + 1 })
        } else {
            None
        };
        record(errors, ignition);
    }
    assert(errors@ =~= old(errors)@ + hand_over_issues(*current, *next, stage));
}

/// Checks the calculation settings and appends the findings to `errors`.
/// `coarse_step_limit` is a tenth of the end time.
pub fn validate_calculate_condition(
    calc: &CalculateCondition,
    coarse_step_limit: Scalar,
    errors: &mut Vec<ConfigIssue>,
)
    ensures
        final(errors)@ == old(errors)@ + calculate_condition_issues(*calc, coarse_step_limit),
{
    record(errors, check_end_time(calc.end_time));
    record(errors, check_time_step(calc.time_step, coarse_step_limit));
    record(errors, check_density_variation(calc.air_density_variation));
    record(errors, check_integrator(calc.integrator));
    assert(errors@ =~= old(errors)@ + calculate_condition_issues(*calc, coarse_step_limit));
}

/// Checks the launch condition and appends the findings to `errors`.
/// `speed` is the Euclidean norm of the initial velocity.
pub fn validate_launch_condition(
    launch: &LaunchCondition,
    speed: Scalar,
    errors: &mut Vec<ConfigIssue>,
)
    ensures
        final(errors)@ == old(errors)@ + launch_condition_issues(*launch, speed),
{
    record(errors, check_latitude(launch.position_llh[0]));
    record(errors, check_longitude(launch.position_llh[1]));
    record(errors, check_altitude(launch.position_llh[2]));
    record(errors, check_velocity(&launch.velocity_ned, speed));
    validate_launch_time(&launch.launch_time, errors);
    assert(errors@ =~= old(errors)@ + launch_condition_issues(*launch, speed));
}

/// Checks one stage, numbered `stage_num` from one, and appends the
/// findings to `errors`.
pub fn validate_single_stage(
    stage: &StageConfig,
    stage_num: usize,
    errors: &mut Vec<ConfigIssue>,
)
    ensures
        final(errors)@ == old(errors)@ + single_stage_issues(*stage, stage_num),
{
    let thrust = &stage.thrust;
    record(errors, check_mass(stage.mass_initial, stage_num));
    record(errors, check_burn_start(thrust.burn_start_time, stage_num));
    record(errors, check_burn_end(thrust.burn_end_time, stage_num));
    record(errors, check_burn_window(thrust.burn_start_time, thrust.burn_end_time, stage_num));
    record(errors, check_thrust(thrust.const_thrust_vac, stage_num));
    record(errors, check_isp(thrust.const_isp_vac, stage_num));
    record(errors, check_throat(thrust.throat_diameter, stage_num));
    record(errors, check_expansion_ratio(thrust.nozzle_expansion_ratio, stage_num));
    record(errors, check_body_diameter(stage.aero.body_diameter, stage_num));
    assert(errors@ =~= old(errors)@ + single_stage_issues(*stage, stage_num));
}

/// Checks every hand-over between neighbouring stages and appends the
/// findings to `errors`.
pub fn validate_stage_separation_timing(stages: &Vec<StageConfig>, errors: &mut Vec<ConfigIssue>)
    ensures
        final(errors)@ == old(errors)@ + separation_timing_issues(
            stages@,
            hand_over_count(stages@),
        ),
{
    let hand_overs: usize = if stages.len() == 0 {
        0
    } else {
        stages.len() - 1
    };
    let mut i: usize = 0;
    assert(errors@ =~= old(errors)@ + separation_timing_issues(stages@, 0));
    while i < hand_overs
        invariant
            i <= hand_overs,
            hand_overs == hand_over_count(stages@),
            hand_overs == 0 || hand_overs < stages.len(),
            errors@ == old(errors)@ + separation_timing_issues(stages@, i as nat),
        decreases hand_overs - i,
    {
        validate_hand_over(&stages[i], &stages[i + 1], i + 1, errors);
        assert(errors@ =~= old(errors)@ + separation_timing_issues(stages@, (i + 1) as nat));
        i += 1;
    }
}

/// Checks the list of stages and appends the findings to `errors`.
pub fn validate_stages(stages: &Vec<StageConfig>, errors: &mut Vec<ConfigIssue>)
    ensures
        final(errors)@ == old(errors)@ + stages_issues(stages@),
{
    if stages.len() == 0 {
        errors.push(ConfigIssue::NoStages);
        assert(errors@ =~= old(errors)@ + stages_issues(stages@));
        return;
    }
    let count = if stages.len() > MAX_STAGE_COUNT {
        Some(ConfigIssue::TooManyStages { count: stages.len() })
    } else {
        None
    };
    record(errors, count);
    let ghost before = errors@;

    let mut i: usize = 0;
    assert(errors@ =~= before + each_stage_issues(stages@, 0));
    while i < stages.len()
        invariant
            i <= stages.len(),
            errors@ == before + each_stage_issues(stages@, i as nat),
        decreases stages.len() - i,
    {
        validate_single_stage(&stages[i], i + 1, errors);
        assert(errors@ =~= before + each_stage_issues(stages@, (i + 1) as nat));
        i += 1;
    }
    validate_stage_separation_timing(stages, errors);
    assert(errors@ =~= old(errors)@ + stages_issues(stages@));
}

/// Checks the wind settings: no rule applies to them, so `errors` stays as
/// it is.
pub fn validate_wind_config(wind: &WindConfig, errors: &mut Vec<ConfigIssue>)
    ensures
        final(errors)@ == old(errors)@,
{
}

/// Checks a whole vehicle description. It passes when no rule is broken;
/// otherwise all findings come back, in the order of the rules.
pub fn validate_config(config: &RocketConfig, derived: &DerivedQuantities) -> (r: Result<
    (),
    Vec<ConfigIssue>,
>)
    ensures
        r is Ok <==> config_issues(*config, *derived).len() == 0,
        r is Err ==> r->Err_0@ == config_issues(*config, *derived),
{
    let mut errors: Vec<ConfigIssue> = Vec::new();
    validate_calculate_condition(
        &config.calculate_condition,
        derived.coarse_step_limit,
        &mut errors,
    );
    validate_launch_condition(&config.launch, derived.launch_speed, &mut errors);
    validate_stages(&config.stages, &mut errors);
    validate_wind_config(&config.wind, &mut errors);
    assert(errors@ =~= config_issues(*config, *derived));
    if errors.len() == 0 {
        Ok(())
    } else {
        Err(errors)
    }
}

/// The limits that are whole numbers stand for these.
pub proof fn lemma_limits_are_whole_numbers()
    ensures
        Scalar::from_bits(MAX_END_TIME).represents(3600),
        Scalar::from_bits(MIN_DENSITY_VARIATION).represents(-100),
        Scalar::from_bits(MAX_DENSITY_VARIATION).represents(100),
        Scalar::from_bits(MAX_RK4_STEP).represents(1),
        Scalar::from_bits(MIN_LATITUDE).represents(-90),
        Scalar::from_bits(MAX_LATITUDE).represents(90),
        Scalar::from_bits(MIN_LONGITUDE).represents(-180),
        Scalar::from_bits(MAX_LONGITUDE).represents(180),
        Scalar::from_bits(MIN_LAUNCH_ALTITUDE).represents(-500),
        Scalar::from_bits(MAX_LAUNCH_ALTITUDE).represents(10000),
        Scalar::from_bits(MAX_LAUNCH_SPEED).represents(100),
        Scalar::from_bits(MAX_STAGE_MASS).represents(1000000),
        Scalar::from_bits(MAX_THRUST).represents(50000000),
        Scalar::from_bits(MIN_ISP).represents(100),
        Scalar::from_bits(MAX_ISP).represents(500),
        Scalar::from_bits(MIN_EXPANSION_RATIO).represents(1),
        Scalar::from_bits(MAX_BODY_DIAMETER).represents(50),
{
    lemma2_to64();
    lemma2_to64_rest();
    lemma_represents(MAX_END_TIME, 3600, 41, 0x20000000000);
    lemma_represents(MIN_DENSITY_VARIATION, -100, 46, 0x400000000000);
    lemma_represents(MAX_DENSITY_VARIATION, 100, 46, 0x400000000000);
    lemma_represents(MAX_RK4_STEP, 1, 52, 0x10000000000000);
    lemma_represents(MIN_LATITUDE, -90, 46, 0x400000000000);
    lemma_represents(MAX_LATITUDE, 90, 46, 0x400000000000);
    lemma_represents(MIN_LONGITUDE, -180, 45, 0x200000000000);
    lemma_represents(MAX_LONGITUDE, 180, 45, 0x200000000000);
    lemma_represents(MIN_LAUNCH_ALTITUDE, -500, 44, 0x100000000000);
    lemma_represents(MAX_LAUNCH_ALTITUDE, 10000, 39, 0x8000000000);
    lemma_represents(MAX_LAUNCH_SPEED, 100, 46, 0x400000000000);
    lemma_represents(MAX_STAGE_MASS, 1000000, 33, 0x200000000);
    lemma_represents(MAX_THRUST, 50000000, 27, 0x8000000);
    lemma_represents(MIN_ISP, 100, 46, 0x400000000000);
    lemma_represents(MAX_ISP, 500, 44, 0x100000000000);
    lemma_represents(MIN_EXPANSION_RATIO, 1, 52, 0x10000000000000);
    lemma_represents(MAX_BODY_DIAMETER, 50, 47, 0x800000000000);
}

/// The limits that are no whole numbers are the hardware numbers nearest
/// to these ratios.
pub proof fn lemma_limits_are_nearest_to_decimals()
    ensures
        Scalar::from_bits(MIN_OUTPUT_STEP).is_nearest_to(1, 1000),
        Scalar::from_bits(MIN_RK4_STEP).is_nearest_to(1, 1000000),
{
    lemma2_to64();
    lemma2_to64_rest();
    lemma_nearest(MIN_OUTPUT_STEP, 1, 1000, 1013, 0x10624dd2f1a9fc, 62, 0x4000000000000000);
    lemma_pow2_adds(64, 8);
    lemma_nearest(MIN_RK4_STEP, 1, 1000000, 1003, 0x10c6f7a0b5ed8d, 72, 0x1000000000000000000);
}

} // verus!
