//! The case distinctions of the equations of motion and of the march to
//! an output time.
use crate::integrator::{is_usable_step, usable_step, SNAP};
use crate::scalar::Scalar;
use crate::value::lemma_nearest;
use vstd::arithmetic::power2::{lemma2_to64, lemma2_to64_rest, lemma_pow2_adds};
use vstd::prelude::*;

verus! {

/// 0.1: a speed [m/s] below which there is no aerodynamic force.
pub const MIN_SPEED: u64 = 0x3fb9_9999_9999_999a;

/// 0.000000001: the least ballistic coefficient [kg/m2] that is divided
/// by.
pub const MIN_BALLISTIC_COEFFICIENT: u64 = 0x3e11_2e0b_e826_d695;

/// The free flight mode in which drag follows the ballistic coefficient.
pub const BALLISTIC_FLIGHT: i32 = 2;

/// How the aerodynamic force is modelled.
#[derive(Clone, Copy, Debug, PartialEq, Eq, Structural)]
pub enum AeroModel {
    /// Drag against the air flow, from the ballistic coefficient.
    Ballistic,
    /// Axial and normal force from the coefficients.
    Coefficients,
}

/// Whether a Mach number is defined: the speed of sound is above zero.
/// Where it is not, the Mach number is zero.
pub fn mach_is_defined(speed_of_sound: Scalar) -> (defined: bool)
    ensures
        defined == speed_of_sound.gt(Scalar::from_bits(0)),
{
    speed_of_sound.gt(Scalar::zero())
}

/// Whether a powered engine delivers: both its vacuum thrust and its
/// specific impulse are above zero. Where it does not, there is neither
/// thrust nor mass flow.
pub fn engine_delivers(thrust_vac: Scalar, isp_vac: Scalar) -> (delivers: bool)
    ensures
        delivers == (thrust_vac.gt(Scalar::from_bits(0)) && isp_vac.gt(Scalar::from_bits(0))),
{
    thrust_vac.gt(Scalar::zero()) && isp_vac.gt(Scalar::zero())
}

/// Whether the thrust of a sample accelerates the vehicle: it is above
/// zero.
pub fn thrust_acts(thrust: Scalar) -> (acts: bool)
    ensures
        acts == thrust.gt(Scalar::from_bits(0)),
{
    thrust.gt(Scalar::zero())
}

/// Whether a burning stage loses mass: its specific impulse is above
/// zero. Where it is not, the mass of the stage is its initial mass.
pub fn mass_flows(isp: Scalar) -> (flows: bool)
    ensures
        flows == isp.gt(Scalar::from_bits(0)),
{
    isp.gt(Scalar::zero())
}

/// Whether a sample has an air flow to speak of: its air speed is above
/// 0.1 m/s. Without one there is no aerodynamic acceleration and the
/// angles of attack are zero.
pub fn air_flows(air_speed: Scalar) -> (flows: bool)
    ensures
        flows == air_speed.gt(Scalar::from_bits(MIN_SPEED)),
{
    air_speed.gt(Scalar::from_bits(MIN_SPEED))
}

/// Whether the aerodynamic force is left out: the speed or the air speed
/// is below 0.1 m/s.
pub fn aero_is_negligible(speed: Scalar, air_speed: Scalar) -> (negligible: bool)
    ensures
        negligible == (speed.lt(Scalar::from_bits(MIN_SPEED)) || air_speed.lt(
            Scalar::from_bits(MIN_SPEED),
        )),
{
    speed.lt(Scalar::from_bits(MIN_SPEED)) || air_speed.lt(Scalar::from_bits(MIN_SPEED))
}

/// The model of the aerodynamic force: ballistic where the stage asks for
/// it in free flight and is not burning, by coefficients otherwise.
pub fn aero_model(free_flight_mode: i32, burning: bool) -> (model: AeroModel)
    ensures
        model == if !burning && free_flight_mode == BALLISTIC_FLIGHT {
            AeroModel::Ballistic
        } else {
            AeroModel::Coefficients
        },
{
    if !burning && free_flight_mode == BALLISTIC_FLIGHT {
        AeroModel::Ballistic
    } else {
        AeroModel::Coefficients
    }
}

/// The ballistic coefficient that is divided by: not below 0.000000001.
pub fn held_ballistic_coefficient(coefficient: Scalar) -> (held: Scalar)
    ensures
        held == coefficient.max(Scalar::from_bits(MIN_BALLISTIC_COEFFICIENT)),
{
    coefficient.max(Scalar::from_bits(MIN_BALLISTIC_COEFFICIENT))
}

/// Whether forces accelerate the vehicle: its mass is above zero. Where
/// it is not, gravity alone acts and no mass flows.
pub fn carries_mass(mass: Scalar) -> (carries: bool)
    ensures
        carries == mass.gt(Scalar::from_bits(0)),
{
    mass.gt(Scalar::zero())
}

/// Whether the vehicle has left its first stage behind, as 0 or 1.
pub fn is_separated(stage_index: usize) -> (flag: i32)
    ensures
        flag == if stage_index > 0 {
            1int
        } else {
            0int
        },
{
    if stage_index > 0 {
        1
    } else {
        0
    }
}

/// The hardware number nearest to the half turn [rad], 3.14159..., and
/// its mirror.
pub const HALF_TURN: u64 = 0x4009_21fb_5444_2d18;

pub const MINUS_HALF_TURN: u64 = 0xc009_21fb_5444_2d18;

/// An angle [rad] brought into the span of one turn around zero, the half
/// turn included and its mirror not, given the remainder of the angle by
/// the full turn and that remainder lowered and raised by a full turn.
pub fn normalize_angle(remainder: Scalar, lowered: Scalar, raised: Scalar) -> (angle: Scalar)
    ensures
        angle == if remainder.gt(Scalar::from_bits(HALF_TURN)) {
            lowered
        } else if remainder.le(Scalar::from_bits(MINUS_HALF_TURN)) {
            raised
        } else {
            remainder
        },
{
    if remainder.gt(Scalar::from_bits(HALF_TURN)) {
        lowered
    } else if remainder.le(Scalar::from_bits(MINUS_HALF_TURN)) {
        raised
    } else {
        remainder
    }
}

/// The time to march to: the target, not after the end time; none where
/// that is not ahead of the clock.
pub fn clip_target(target_time: Scalar, end_time: Scalar, clock: Scalar) -> (target: Option<Scalar>)
    ensures
        target == if target_time.min(end_time).le(clock) {
            None
        } else {
            Some(target_time.min(end_time))
        },
{
    let target = target_time.min(end_time);
    if target.le(clock) {
        None
    } else {
        Some(target)
    }
}

/// The clock after an adaptive march: the target where the march ended
/// within 0.000000001 s of it, given the magnitude `distance` of what is
/// left, and the time the march ended at otherwise.
pub fn snap_clock(clock: Scalar, target: Scalar, distance: Scalar) -> (snapped: Scalar)
    ensures
        snapped == if distance.lt(Scalar::from_bits(SNAP)) {
            target
        } else {
            clock
        },
{
    if distance.lt(Scalar::from_bits(SNAP)) {
        target
    } else {
        clock
    }
}

/// The target of a single step of `dt`, given the sum `reach` of the
/// clock and `dt`: the sum, not after the end time; none where `dt` is
/// unusable.
pub fn step_target(dt: Scalar, reach: Scalar, end_time: Scalar) -> (target: Option<Scalar>)
    ensures
        target == if usable_step(dt) {
            Some(reach.min(end_time))
        } else {
            None
        },
{
    if is_usable_step(dt) {
        Some(reach.min(end_time))
    } else {
        None
    }
}

/// The guards of the equations of motion are the hardware numbers nearest
/// to these ratios; the half turn is the one nearest to its first sixteen
/// digits.
pub proof fn lemma_guards_are_nearest_to_decimals()
    ensures
        Scalar::from_bits(MIN_SPEED).is_nearest_to(1, 10),
        Scalar::from_bits(MIN_BALLISTIC_COEFFICIENT).is_nearest_to(1, 1000000000),
        Scalar::from_bits(HALF_TURN).is_nearest_to(3141592653589793, 1000000000000000),
        Scalar::from_bits(MINUS_HALF_TURN).is_nearest_to(-3141592653589793, 1000000000000000),
{
    lemma2_to64();
    lemma2_to64_rest();
    lemma_nearest(MIN_SPEED, 1, 10, 1019, 0x1999999999999a, 56, 0x100000000000000);
    lemma_pow2_adds(64, 18);
    lemma_nearest(
        MIN_BALLISTIC_COEFFICIENT,
        1,
        1000000000,
        993,
        0x112e0be826d695,
        82,
        0x400000000000000000000,
    );
    lemma_nearest(
        HALF_TURN,
        3141592653589793,
        1000000000000000,
        1024,
        0x1921fb54442d18,
        51,
        0x8000000000000,
    );
    lemma_nearest(
        MINUS_HALF_TURN,
        -3141592653589793,
        1000000000000000,
        1024,
        0x1921fb54442d18,
        51,
        0x8000000000000,
    );
}

} // verus!
