//! The compact vehicle description that front ends send, its defaults, and
//! its expansion into the full description with tables.
use crate::config::{
    clone_stages, AeroConfig, AttitudeConfig, AttitudeNeutralityConfig, CalculateCondition,
    DumpingProductConfig, IntegratorMethod, IntegratorSettings, LaunchCondition, RocketConfig,
    SixDofConfig, StageConfig, StageTransitionConfig, ThrustConfig, WindConfig,
};
use crate::rocket::Rocket;
use crate::scalar::Scalar;
use crate::table::TimeSeriesData;
use crate::value::{lemma_nearest, lemma_represents};
use vstd::arithmetic::power2::{lemma2_to64, lemma2_to64_rest};
use vstd::prelude::*;

verus! {

/// 120: the duration [s] of a run that names none.
pub const DEFAULT_DURATION: u64 = 0x405e_0000_0000_0000;

/// 1: the output step [s] of a run that names none, and the factor of a
/// quantity that names none.
pub const ONE: u64 = 0x3ff0_0000_0000_0000;

/// 1000: the initial mass [kg] of a stage that names none.
pub const DEFAULT_STAGE_MASS: u64 = 0x408f_4000_0000_0000;

/// 30: the burn end, forced cutoff and separation time [s] of a stage that
/// names none.
pub const DEFAULT_BURN_END: u64 = 0x403e_0000_0000_0000;

/// 0.1: the throat diameter [m] of a stage that names none.
pub const DEFAULT_THROAT_DIAMETER: u64 = 0x3fb9_9999_9999_999a;

/// 5: the nozzle expansion ratio of a stage that names none.
pub const DEFAULT_NOZZLE_EXPANSION: u64 = 0x4014_0000_0000_0000;

/// 101300: the nozzle exit pressure [Pa] of a stage that names none.
pub const DEFAULT_NOZZLE_EXIT_PRESSURE: u64 = 0x40f8_bb40_0000_0000;

/// 50000: the vacuum thrust [N] of a stage that names none.
pub const DEFAULT_THRUST: u64 = 0x40e8_6a00_0000_0000;

/// 200: the vacuum specific impulse [s] of a stage that names none.
pub const DEFAULT_ISP: u64 = 0x4069_0000_0000_0000;

/// 0.5: the body diameter [m] where none is named.
pub const DEFAULT_BODY_DIAMETER: u64 = 0x3fe0_0000_0000_0000;

/// 100: the ballistic coefficient [kg/m2] where none is named.
pub const DEFAULT_BALLISTIC_COEFFICIENT: u64 = 0x4059_0000_0000_0000;

/// 83: the elevation [deg] where none is named.
pub const DEFAULT_ELEVATION: u64 = 0x4054_c000_0000_0000;

/// 113: the azimuth [deg] where none is named.
pub const DEFAULT_AZIMUTH: u64 = 0x405c_4000_0000_0000;

/// 270: the wind direction [deg] where none is named.
pub const DEFAULT_WIND_DIRECTION: u64 = 0x4070_e000_0000_0000;

/// 1000000: the separation time [s] given to a stage that no stage
/// follows.
pub const NO_SEPARATION: u64 = 0x412e_8480_0000_0000;

pub fn default_duration_s() -> (v: Scalar)
    ensures
        v == Scalar::from_bits(DEFAULT_DURATION),
{
    Scalar::from_bits(DEFAULT_DURATION)
}

pub fn default_output_step_s() -> (v: Scalar)
    ensures
        v == Scalar::from_bits(ONE),
{
    Scalar::from_bits(ONE)
}

pub fn default_velocity_ned() -> (v: [Scalar; 3])
    ensures
        v[0] == Scalar::from_bits(0),
        v[1] == Scalar::from_bits(0),
        v[2] == Scalar::from_bits(0),
{
    [Scalar::zero(), Scalar::zero(), Scalar::zero()]
}

/// Powered flight follows the prescribed attitude.
pub fn default_power_mode() -> (mode: i32)
    ensures
        mode == 0,
{
    0
}

/// Free flight is ballistic.
pub fn default_free_mode() -> (mode: i32)
    ensures
        mode == 2,
{
    2
}

pub fn default_stage_mass() -> (v: Scalar)
    ensures
        v == Scalar::from_bits(DEFAULT_STAGE_MASS),
{
    Scalar::from_bits(DEFAULT_STAGE_MASS)
}

pub fn default_burn_start() -> (v: Scalar)
    ensures
        v == Scalar::from_bits(0),
{
    Scalar::zero()
}

pub fn default_burn_end() -> (v: Scalar)
    ensures
        v == Scalar::from_bits(DEFAULT_BURN_END),
{
    Scalar::from_bits(DEFAULT_BURN_END)
}

pub fn default_forced_cutoff() -> (v: Scalar)
    ensures
        v == Scalar::from_bits(DEFAULT_BURN_END),
{
    Scalar::from_bits(DEFAULT_BURN_END)
}

pub fn default_separation_time() -> (v: Scalar)
    ensures
        v == Scalar::from_bits(DEFAULT_BURN_END),
{
    default_forced_cutoff()
}

pub fn default_throat_diameter() -> (v: Scalar)
    ensures
        v == Scalar::from_bits(DEFAULT_THROAT_DIAMETER),
{
    Scalar::from_bits(DEFAULT_THROAT_DIAMETER)
}

pub fn default_nozzle_expansion() -> (v: Scalar)
    ensures
        v == Scalar::from_bits(DEFAULT_NOZZLE_EXPANSION),
{
    Scalar::from_bits(DEFAULT_NOZZLE_EXPANSION)
}

pub fn default_nozzle_exit_pressure() -> (v: Scalar)
    ensures
        v == Scalar::from_bits(DEFAULT_NOZZLE_EXIT_PRESSURE),
{
    Scalar::from_bits(DEFAULT_NOZZLE_EXIT_PRESSURE)
}

pub fn default_thrust_constant() -> (v: Scalar)
    ensures
        v == Scalar::from_bits(DEFAULT_THRUST),
{
    Scalar::from_bits(DEFAULT_THRUST)
}

pub fn default_isp_constant() -> (v: Scalar)
    ensures
        v == Scalar::from_bits(DEFAULT_ISP),
{
    Scalar::from_bits(DEFAULT_ISP)
}

pub fn default_multiplier() -> (v: Scalar)
    ensures
        v == Scalar::from_bits(ONE),
{
    Scalar::from_bits(ONE)
}

pub fn default_body_diameter() -> (v: Scalar)
    ensures
        v == Scalar::from_bits(DEFAULT_BODY_DIAMETER),
{
    Scalar::from_bits(DEFAULT_BODY_DIAMETER)
}

pub fn default_ballistic_coefficient() -> (v: Scalar)
    ensures
        v == Scalar::from_bits(DEFAULT_BALLISTIC_COEFFICIENT),
{
    Scalar::from_bits(DEFAULT_BALLISTIC_COEFFICIENT)
}

pub fn default_attitude_elevation() -> (v: Scalar)
    ensures
        v == Scalar::from_bits(DEFAULT_ELEVATION),
{
    Scalar::from_bits(DEFAULT_ELEVATION)
}

pub fn default_attitude_azimuth() -> (v: Scalar)
    ensures
        v == Scalar::from_bits(DEFAULT_AZIMUTH),
{
    Scalar::from_bits(DEFAULT_AZIMUTH)
}

pub fn default_gyro_bias() -> (v: [Scalar; 3])
    ensures
        v[0] == Scalar::from_bits(0),
        v[1] == Scalar::from_bits(0),
        v[2] == Scalar::from_bits(0),
{
    [Scalar::zero(), Scalar::zero(), Scalar::zero()]
}

pub fn default_wind_direction() -> (v: Scalar)
    ensures
        v == Scalar::from_bits(DEFAULT_WIND_DIRECTION),
{
    Scalar::from_bits(DEFAULT_WIND_DIRECTION)
}

/// Integrator selection of a compact description.
#[derive(Clone, Copy, Debug, PartialEq, Eq, Structural)]
pub struct ClientIntegrator {
    pub method: IntegratorMethod,
    pub rk4_step_s: Option<Scalar>,
}

/// Run settings of a compact description.
#[derive(Clone, Copy, Debug, PartialEq, Eq, Structural)]
pub struct ClientSimulation {
    pub duration_s: Scalar,
    pub output_step_s: Scalar,
    pub air_density_percent: Scalar,
    pub integrator: ClientIntegrator,
}

/// A calendar date and time of day (UTC).
#[derive(Clone, Copy, Debug, PartialEq, Eq, Structural)]
pub struct ClientDateTime {
    pub year: i32,
    pub month: u32,
    pub day: u32,
    pub hour: u32,
    pub minute: u32,
    pub second: u32,
}

/// Launch condition of a compact description.
#[derive(Clone, Copy, Debug)]
pub struct ClientLaunch {
    pub latitude_deg: Scalar,
    pub longitude_deg: Scalar,
    pub altitude_m: Scalar,
    pub velocity_ned_mps: [Scalar; 3],
    pub datetime_utc: ClientDateTime,
}

/// A value at a time.
#[derive(Clone, Copy, Debug, PartialEq, Eq, Structural)]
pub struct ClientTimeSample {
    pub time: Scalar,
    pub value: Scalar,
}

/// A value at a Mach number.
#[derive(Clone, Copy, Debug, PartialEq, Eq, Structural)]
pub struct ClientMachSample {
    pub mach: Scalar,
    pub value: Scalar,
}

/// An attitude at a time.
#[derive(Clone, Copy, Debug, PartialEq, Eq, Structural)]
pub struct ClientAttitudeSample {
    pub time: Scalar,
    pub azimuth_deg: Scalar,
    pub elevation_deg: Scalar,
}

/// A wind at an altitude.
#[derive(Clone, Copy, Debug, PartialEq, Eq, Structural)]
pub struct ClientWindSample {
    pub altitude_m: Scalar,
    pub speed_mps: Scalar,
    pub direction_deg: Scalar,
}

/// One stage of a compact description.
#[derive(Debug)]
pub struct ClientStage {
    pub power_mode: i32,
    pub free_mode: i32,
    pub mass_initial_kg: Scalar,
    pub burn_start_s: Scalar,
    pub burn_end_s: Scalar,
    pub forced_cutoff_s: Scalar,
    pub separation_time_s: Scalar,
    pub throat_diameter_m: Scalar,
    pub nozzle_expansion_ratio: Scalar,
    pub nozzle_exit_pressure_pa: Scalar,
    pub thrust_constant: Scalar,
    pub thrust_multiplier: Scalar,
    pub thrust_profile: Vec<ClientTimeSample>,
    pub isp_constant: Scalar,
    pub isp_multiplier: Scalar,
    pub isp_profile: Vec<ClientTimeSample>,
}

/// What a stage of a compact description holds.
pub struct ClientStageView {
    pub power_mode: i32,
    pub free_mode: i32,
    pub mass_initial_kg: Scalar,
    pub burn_start_s: Scalar,
    pub burn_end_s: Scalar,
    pub forced_cutoff_s: Scalar,
    pub separation_time_s: Scalar,
    pub throat_diameter_m: Scalar,
    pub nozzle_expansion_ratio: Scalar,
    pub nozzle_exit_pressure_pa: Scalar,
    pub thrust_constant: Scalar,
    pub thrust_multiplier: Scalar,
    pub thrust_profile: Seq<ClientTimeSample>,
    pub isp_constant: Scalar,
    pub isp_multiplier: Scalar,
    pub isp_profile: Seq<ClientTimeSample>,
}

impl View for ClientStage {
    type V = ClientStageView;

    open spec fn view(&self) -> ClientStageView {
        ClientStageView {
            power_mode: self.power_mode,
            free_mode: self.free_mode,
            mass_initial_kg: self.mass_initial_kg,
            burn_start_s: self.burn_start_s,
            burn_end_s: self.burn_end_s,
            forced_cutoff_s: self.forced_cutoff_s,
            separation_time_s: self.separation_time_s,
            throat_diameter_m: self.throat_diameter_m,
            nozzle_expansion_ratio: self.nozzle_expansion_ratio,
            nozzle_exit_pressure_pa: self.nozzle_exit_pressure_pa,
            thrust_constant: self.thrust_constant,
            thrust_multiplier: self.thrust_multiplier,
            thrust_profile: self.thrust_profile@,
            isp_constant: self.isp_constant,
            isp_multiplier: self.isp_multiplier,
            isp_profile: self.isp_profile@,
        }
    }
}

/// The stage that stands in where a compact description names none.
pub open spec fn default_stage() -> ClientStageView {
    ClientStageView {
        power_mode: 0,
        free_mode: 2,
        mass_initial_kg: Scalar::from_bits(DEFAULT_STAGE_MASS),
        burn_start_s: Scalar::from_bits(0),
        burn_end_s: Scalar::from_bits(DEFAULT_BURN_END),
        forced_cutoff_s: Scalar::from_bits(DEFAULT_BURN_END),
        separation_time_s: Scalar::from_bits(DEFAULT_BURN_END),
        throat_diameter_m: Scalar::from_bits(DEFAULT_THROAT_DIAMETER),
        nozzle_expansion_ratio: Scalar::from_bits(DEFAULT_NOZZLE_EXPANSION),
        nozzle_exit_pressure_pa: Scalar::from_bits(DEFAULT_NOZZLE_EXIT_PRESSURE),
        thrust_constant: Scalar::from_bits(DEFAULT_THRUST),
        thrust_multiplier: Scalar::from_bits(ONE),
        thrust_profile: Seq::empty(),
        isp_constant: Scalar::from_bits(DEFAULT_ISP),
        isp_multiplier: Scalar::from_bits(ONE),
        isp_profile: Seq::empty(),
    }
}

impl Default for ClientStage {
    fn default() -> (stage: Self)
        ensures
            stage@ == default_stage(),
    {
        ClientStage {
            power_mode: default_power_mode(),
            free_mode: default_free_mode(),
            mass_initial_kg: default_stage_mass(),
            burn_start_s: default_burn_start(),
            burn_end_s: default_burn_end(),
            forced_cutoff_s: default_forced_cutoff(),
            separation_time_s: default_separation_time(),
            throat_diameter_m: default_throat_diameter(),
            nozzle_expansion_ratio: default_nozzle_expansion(),
            nozzle_exit_pressure_pa: default_nozzle_exit_pressure(),
            thrust_constant: default_thrust_constant(),
            thrust_multiplier: default_multiplier(),
            thrust_profile: Vec::new(),
            isp_constant: default_isp_constant(),
            isp_multiplier: default_multiplier(),
            isp_profile: Vec::new(),
        }
    }
}

/// Aerodynamics of a compact description, shared by all stages.
#[derive(Debug)]
pub struct ClientAerodynamics {
    pub body_diameter_m: Scalar,
    pub cn_constant: Scalar,
    pub cn_multiplier: Scalar,
    pub cn_profile: Vec<ClientMachSample>,
    pub ca_constant: Scalar,
    pub ca_multiplier: Scalar,
    pub ca_profile: Vec<ClientMachSample>,
    pub ballistic_coefficient: Scalar,
}

/// Attitude of a compact description, shared by all stages.
#[derive(Debug)]
pub struct ClientAttitude {
    pub elevation_deg: Scalar,
    pub azimuth_deg: Scalar,
    pub pitch_offset_deg: Scalar,
    pub yaw_offset_deg: Scalar,
    pub roll_offset_deg: Scalar,
    pub gyro_bias_deg_h: [Scalar; 3],
    pub profile: Vec<ClientAttitudeSample>,
}

/// Wind of a compact description.
#[derive(Debug)]
pub struct ClientWind {
    pub speed_mps: Scalar,
    pub direction_deg: Scalar,
    pub profile: Vec<ClientWindSample>,
}

/// The compact vehicle description.
#[derive(Debug)]
pub struct ClientConfig {
    pub name: String,
    pub simulation: ClientSimulation,
    pub launch: ClientLaunch,
    /// The stages in flight order.
    pub stages: Vec<ClientStage>,
    /// The one stage of a description that lists none.
    pub stage: Option<ClientStage>,
    pub aerodynamics: ClientAerodynamics,
    pub attitude: ClientAttitude,
    pub wind: ClientWind,
}

/// The stages that a compact description stands for: those it lists; if it
/// lists none, the one it names; if it names none, the default stage.
pub open spec fn stage_sources(stages: Seq<ClientStage>, stage: Option<ClientStage>) -> Seq<
    ClientStageView,
> {
    if stages.len() > 0 {
        Seq::new(stages.len(), |i: int| stages[i]@)
    } else {
        match stage {
            Some(only) => seq![only@],
            None => seq![default_stage()],
        }
    }
}

/// `config` describes the stage `stage` of a compact description with the
/// shared aerodynamics and attitude: no file is named, no product is
/// dumped, and a stage that none follows separates after 1000000 s.
pub open spec fn is_stage_config_of(
    stage: ClientStageView,
    aerodynamics: ClientAerodynamics,
    attitude: ClientAttitude,
    has_following_stage: bool,
    config: StageConfig,
) -> bool {
    &&& config.power_flight_mode == stage.power_mode
    &&& config.free_flight_mode == stage.free_mode
    &&& config.mass_initial == stage.mass_initial_kg
    &&& !config.thrust.isp_file_exists
    &&& config.thrust.isp_file_name@.len() == 0
    &&& config.thrust.isp_coefficient == stage.isp_multiplier
    &&& config.thrust.const_isp_vac == stage.isp_constant
    &&& !config.thrust.thrust_file_exists
    &&& config.thrust.thrust_file_name@.len() == 0
    &&& config.thrust.thrust_coefficient == stage.thrust_multiplier
    &&& config.thrust.const_thrust_vac == stage.thrust_constant
    &&& config.thrust.burn_start_time == stage.burn_start_s
    &&& config.thrust.burn_end_time == stage.burn_end_s
    &&& config.thrust.forced_cutoff_time == stage.forced_cutoff_s
    &&& config.thrust.throat_diameter == stage.throat_diameter_m
    &&& config.thrust.nozzle_expansion_ratio == stage.nozzle_expansion_ratio
    &&& config.thrust.nozzle_exhaust_pressure == stage.nozzle_exit_pressure_pa
    &&& config.aero.body_diameter == aerodynamics.body_diameter_m
    &&& !config.aero.cn_file_exists
    &&& config.aero.cn_file_name@.len() == 0
    &&& config.aero.normal_multiplier == aerodynamics.cn_multiplier
    &&& config.aero.const_normal_coefficient == aerodynamics.cn_constant
    &&& !config.aero.ca_file_exists
    &&& config.aero.ca_file_name@.len() == 0
    &&& config.aero.axial_multiplier == aerodynamics.ca_multiplier
    &&& config.aero.const_axial_coefficient == aerodynamics.ca_constant
    &&& config.aero.ballistic_coefficient == aerodynamics.ballistic_coefficient
    &&& !config.attitude.attitude_file_exists
    &&& config.attitude.attitude_file_name@.len() == 0
    &&& config.attitude.const_elevation == attitude.elevation_deg
    &&& config.attitude.const_azimuth == attitude.azimuth_deg
    &&& config.attitude.pitch_offset == attitude.pitch_offset_deg
    &&& config.attitude.yaw_offset == attitude.yaw_offset_deg
    &&& config.attitude.roll_offset == attitude.roll_offset_deg
    &&& config.attitude.gyro_bias_x == attitude.gyro_bias_deg_h[0]
    &&& config.attitude.gyro_bias_y == attitude.gyro_bias_deg_h[1]
    &&& config.attitude.gyro_bias_z == attitude.gyro_bias_deg_h[2]
    &&& !config.dumping_product.dumping_product_exists
    &&& config.dumping_product.dumping_product_separation_time == Scalar::from_bits(0)
    &&& config.dumping_product.dumping_product_mass == Scalar::from_bits(0)
    &&& config.dumping_product.dumping_product_ballistic_coefficient == Scalar::from_bits(0)
    &&& config.dumping_product.additional_speed_at_dumping_ned[0] == Scalar::from_bits(0)
    &&& config.dumping_product.additional_speed_at_dumping_ned[1] == Scalar::from_bits(0)
    &&& config.dumping_product.additional_speed_at_dumping_ned[2] == Scalar::from_bits(0)
    &&& !config.attitude_neutrality.considering_neutrality
    &&& config.attitude_neutrality.cg_controller_position_file@.len() == 0
    &&& config.attitude_neutrality.cp_file@.len() == 0
    &&& config.six_dof.cg_cp_controller_position_file@.len() == 0
    &&& config.six_dof.moment_of_inertia_file_name@.len() == 0
    &&& config.stage.following_stage_exists == has_following_stage
    &&& config.stage.separation_time == if has_following_stage {
        stage.separation_time_s
    } else {
        Scalar::from_bits(NO_SEPARATION)
    }
}

/// The full description of one stage of a compact description.
pub fn build_stage_config(
    stage: &ClientStage,
    aerodynamics: &ClientAerodynamics,
    attitude: &ClientAttitude,
    has_following_stage: bool,
) -> (config: StageConfig)
    ensures
        is_stage_config_of(stage@, *aerodynamics, *attitude, has_following_stage, config),
{
    let thrust = ThrustConfig {
        isp_file_exists: false,
        isp_file_name: String::new(),
        isp_coefficient: stage.isp_multiplier,
        const_isp_vac: stage.isp_constant,
        thrust_file_exists: false,
        thrust_file_name: String::new(),
        thrust_coefficient: stage.thrust_multiplier,
        const_thrust_vac: stage.thrust_constant,
        burn_start_time: stage.burn_start_s,
        burn_end_time: stage.burn_end_s,
        forced_cutoff_time: stage.forced_cutoff_s,
        throat_diameter: stage.throat_diameter_m,
        nozzle_expansion_ratio: stage.nozzle_expansion_ratio,
        nozzle_exhaust_pressure: stage.nozzle_exit_pressure_pa,
    };
    let aero = AeroConfig {
        body_diameter: aerodynamics.body_diameter_m,
        cn_file_exists: false,
        cn_file_name: String::new(),
        normal_multiplier: aerodynamics.cn_multiplier,
        const_normal_coefficient: aerodynamics.cn_constant,
        ca_file_exists: false,
        ca_file_name: String::new(),
        axial_multiplier: aerodynamics.ca_multiplier,
        const_axial_coefficient: aerodynamics.ca_constant,
        ballistic_coefficient: aerodynamics.ballistic_coefficient,
    };
    let attitude_cfg = AttitudeConfig {
        attitude_file_exists: false,
        attitude_file_name: String::new(),
        const_elevation: attitude.elevation_deg,
        const_azimuth: attitude.azimuth_deg,
        pitch_offset: attitude.pitch_offset_deg,
        yaw_offset: attitude.yaw_offset_deg,
        roll_offset: attitude.roll_offset_deg,
        gyro_bias_x: attitude.gyro_bias_deg_h[0],
        gyro_bias_y: attitude.gyro_bias_deg_h[1],
        gyro_bias_z: attitude.gyro_bias_deg_h[2],
    };
    StageConfig {
        power_flight_mode: stage.power_mode,
        free_flight_mode: stage.free_mode,
        mass_initial: stage.mass_initial_kg,
        thrust,
        aero,
        attitude: attitude_cfg,
        dumping_product: DumpingProductConfig {
            dumping_product_exists: false,
            dumping_product_separation_time: Scalar::zero(),
            dumping_product_mass: Scalar::zero(),
            dumping_product_ballistic_coefficient: Scalar::zero(),
            additional_speed_at_dumping_ned: [Scalar::zero(), Scalar::zero(), Scalar::zero()],
        },
        attitude_neutrality: AttitudeNeutralityConfig {
            considering_neutrality: false,
            cg_controller_position_file: String::new(),
            cp_file: String::new(),
        },
        six_dof: SixDofConfig {
            cg_cp_controller_position_file: String::new(),
            moment_of_inertia_file_name: String::new(),
        },
        stage: StageTransitionConfig {
            following_stage_exists: has_following_stage,
            separation_time: if has_following_stage {
                stage.separation_time_s
            } else {
                Scalar::from_bits(NO_SEPARATION)
            },
        },
    }
}

/// The table that a profile over time gives: none for a profile without
/// samples, else one row for each sample.
pub open spec fn is_table_of_time_samples(
    profile: Seq<ClientTimeSample>,
    table: Option<TimeSeriesData>,
) -> bool {
    if profile.len() == 0 {
        table is None
    } else {
        &&& table is Some
        &&& table->0.time@ == Seq::new(profile.len(), |k: int| profile[k].time)
        &&& table->0.values@ == Seq::new(profile.len(), |k: int| profile[k].value)
    }
}

/// The table that a profile over the Mach number gives: none for a profile
/// without samples, else one row for each sample.
pub open spec fn is_table_of_mach_samples(
    profile: Seq<ClientMachSample>,
    table: Option<TimeSeriesData>,
) -> bool {
    if profile.len() == 0 {
        table is None
    } else {
        &&& table is Some
        &&& table->0.time@ == Seq::new(profile.len(), |k: int| profile[k].mach)
        &&& table->0.values@ == Seq::new(profile.len(), |k: int| profile[k].value)
    }
}

/// The rows that a profile of pairs gives: none for a profile without
/// samples, else one row for each sample.
pub open spec fn is_profile_of(
    samples: Seq<(Scalar, Scalar, Scalar)>,
    rows: Option<Vec<(Scalar, Scalar, Scalar)>>,
) -> bool {
    if samples.len() == 0 {
        rows is None
    } else {
        rows is Some && rows->0@ == samples
    }
}

/// An attitude profile as rows of time, azimuth and elevation.
pub open spec fn attitude_rows(profile: Seq<ClientAttitudeSample>) -> Seq<(Scalar, Scalar, Scalar)> {
    Seq::new(profile.len(), |k: int| (profile[k].time, profile[k].azimuth_deg, profile[k].elevation_deg))
}

/// A wind profile as rows of altitude, speed and direction.
pub open spec fn wind_rows(profile: Seq<ClientWindSample>) -> Seq<(Scalar, Scalar, Scalar)> {
    Seq::new(
        profile.len(),
        |k: int| (profile[k].altitude_m, profile[k].speed_mps, profile[k].direction_deg),
    )
}

fn table_of_time_samples(profile: &Vec<ClientTimeSample>) -> (table: Option<TimeSeriesData>)
    ensures
        is_table_of_time_samples(profile@, table),
        table is Some ==> table->0.wf(),
{
    if profile.len() == 0 {
        return None;
    }
    let mut series = TimeSeriesData::new();
    let mut k: usize = 0;
    while k < profile.len()
        invariant
            k <= profile@.len(),
            series.time@.len() == k,
            series.values@.len() == k,
            forall|q: int| 0 <= q < k ==> (#[trigger] series.time@[q]) == profile@[q].time,
            forall|q: int| 0 <= q < k ==> (#[trigger] series.values@[q]) == profile@[q].value,
        decreases profile@.len() - k,
    {
        series.time.push(profile[k].time);
        series.values.push(profile[k].value);
        k += 1;
    }
    assert(series.time@ =~= Seq::new(profile@.len(), |k: int| profile@[k].time));
    assert(series.values@ =~= Seq::new(profile@.len(), |k: int| profile@[k].value));
    Some(series)
}

fn table_of_mach_samples(profile: &Vec<ClientMachSample>) -> (table: Option<TimeSeriesData>)
    ensures
        is_table_of_mach_samples(profile@, table),
        table is Some ==> table->0.wf(),
{
    if profile.len() == 0 {
        return None;
    }
    let mut series = TimeSeriesData::new();
    let mut k: usize = 0;
    while k < profile.len()
        invariant
            k <= profile@.len(),
            series.time@.len() == k,
            series.values@.len() == k,
            forall|q: int| 0 <= q < k ==> (#[trigger] series.time@[q]) == profile@[q].mach,
            forall|q: int| 0 <= q < k ==> (#[trigger] series.values@[q]) == profile@[q].value,
        decreases profile@.len() - k,
    {
        series.time.push(profile[k].mach);
        series.values.push(profile[k].value);
        k += 1;
    }
    assert(series.time@ =~= Seq::new(profile@.len(), |k: int| profile@[k].mach));
    assert(series.values@ =~= Seq::new(profile@.len(), |k: int| profile@[k].value));
    Some(series)
}

fn rows_of_attitude(profile: &Vec<ClientAttitudeSample>) -> (rows: Option<
    Vec<(Scalar, Scalar, Scalar)>,
>)
    ensures
        is_profile_of(attitude_rows(profile@), rows),
{
    if profile.len() == 0 {
        return None;
    }
    let mut rows: Vec<(Scalar, Scalar, Scalar)> = Vec::new();
    let mut k: usize = 0;
    while k < profile.len()
        invariant
            k <= profile@.len(),
            rows@.len() == k,
            forall|q: int| 0 <= q < k ==> (#[trigger] rows@[q]) == attitude_rows(profile@)[q],
        decreases profile@.len() - k,
    {
        let sample = profile[k];
        rows.push((sample.time, sample.azimuth_deg, sample.elevation_deg));
        k += 1;
    }
    assert(rows@ =~= attitude_rows(profile@));
    Some(rows)
}

fn rows_of_wind(profile: &Vec<ClientWindSample>) -> (rows: Option<Vec<(Scalar, Scalar, Scalar)>>)
    ensures
        is_profile_of(wind_rows(profile@), rows),
{
    if profile.len() == 0 {
        return None;
    }
    let mut rows: Vec<(Scalar, Scalar, Scalar)> = Vec::new();
    let mut k: usize = 0;
    while k < profile.len()
        invariant
            k <= profile@.len(),
            rows@.len() == k,
            forall|q: int| 0 <= q < k ==> (#[trigger] rows@[q]) == wind_rows(profile@)[q],
        decreases profile@.len() - k,
    {
        let sample = profile[k];
        rows.push((sample.altitude_m, sample.speed_mps, sample.direction_deg));
        k += 1;
    }
    assert(rows@ =~= wind_rows(profile@));
    Some(rows)
}

/// `rocket` is the vehicle that the compact description stands for.
pub open spec fn is_rocket_of(client: ClientConfig, rocket: Rocket) -> bool {
    let sources = stage_sources(client.stages@, client.stage);
    let config = rocket.config;
    &&& rocket.wf()
    &&& config.name == client.name
    &&& config.calculate_condition.end_time == client.simulation.duration_s
    &&& config.calculate_condition.time_step == client.simulation.output_step_s
    &&& !config.calculate_condition.air_density_file_exists
    &&& config.calculate_condition.air_density_file@.len() == 0
    &&& config.calculate_condition.air_density_variation == client.simulation.air_density_percent
    &&& config.calculate_condition.integrator == (IntegratorSettings {
        method: client.simulation.integrator.method,
        rk4_step: client.simulation.integrator.rk4_step_s,
    })
    &&& config.launch.position_llh[0] == client.launch.latitude_deg
    &&& config.launch.position_llh[1] == client.launch.longitude_deg
    &&& config.launch.position_llh[2] == client.launch.altitude_m
    &&& config.launch.velocity_ned == client.launch.velocity_ned_mps
    &&& config.launch.launch_time[0] == client.launch.datetime_utc.year
    &&& config.launch.launch_time[1] == client.launch.datetime_utc.month as i32
    &&& config.launch.launch_time[2] == client.launch.datetime_utc.day as i32
    &&& config.launch.launch_time[3] == client.launch.datetime_utc.hour as i32
    &&& config.launch.launch_time[4] == client.launch.datetime_utc.minute as i32
    &&& config.launch.launch_time[5] == client.launch.datetime_utc.second as i32
    &&& !config.wind.wind_file_exists
    &&& config.wind.wind_file_name@.len() == 0
    &&& config.wind.const_wind[0] == client.wind.speed_mps
    &&& config.wind.const_wind[1] == client.wind.direction_deg
    &&& config.stages@.len() == sources.len()
    &&& forall|i: int|
        0 <= i < sources.len() ==> is_stage_config_of(
            sources[i],
            client.aerodynamics,
            client.attitude,
            i + 1 < sources.len(),
            #[trigger] config.stages@[i],
        )
    &&& forall|i: int|
        0 <= i < sources.len() ==> is_table_of_time_samples(
            sources[i].thrust_profile,
            #[trigger] rocket.thrust_tables@[i],
        )
    &&& forall|i: int|
        0 <= i < sources.len() ==> is_table_of_time_samples(
            sources[i].isp_profile,
            #[trigger] rocket.isp_tables@[i],
        )
    &&& is_table_of_mach_samples(client.aerodynamics.cn_profile@, rocket.cn_data)
    &&& rocket.cn_surface is None
    &&& is_table_of_mach_samples(client.aerodynamics.ca_profile@, rocket.ca_data)
    &&& is_profile_of(attitude_rows(client.attitude.profile@), rocket.attitude_data)
    &&& is_profile_of(wind_rows(client.wind.profile@), rocket.wind_data)
}

/// The stages that a compact description stands for.
fn take_stage_sources(stages: Vec<ClientStage>, stage: Option<ClientStage>) -> (sources: Vec<
    ClientStage,
>)
    ensures
        Seq::new(sources@.len(), |i: int| sources@[i]@) == stage_sources(stages@, stage),
{
    if stages.len() > 0 {
        assert(Seq::new(stages@.len(), |i: int| stages@[i]@) =~= stage_sources(stages@, stage));
        stages
    } else {
        let only = match stage {
            Some(named) => named,
            None => ClientStage::default(),
        };
        let mut sources: Vec<ClientStage> = Vec::new();
        sources.push(only);
        assert(Seq::new(sources@.len(), |i: int| sources@[i]@) =~= stage_sources(stages@, stage));
        sources
    }
}

/// A wide calendar field as the narrower number of the full description.
fn calendar_field(value: u32) -> (narrow: i32)
    ensures
        narrow == value as i32,
{
    #[verifier::truncate]
    (value as i32)
}

impl ClientConfig {
    /// Expands the compact description into the vehicle: the full
    /// description, and a table for every profile that has samples.
    pub fn into_rocket(self) -> (rocket: Rocket)
        ensures
            is_rocket_of(self, rocket),
    {
        let ghost client = self;
        let ClientConfig { name, simulation, launch, stages, stage, aerodynamics, attitude, wind } =
            self;
        let calc = CalculateCondition {
            end_time: simulation.duration_s,
            time_step: simulation.output_step_s,
            air_density_file_exists: false,
            air_density_file: String::new(),
            air_density_variation: simulation.air_density_percent,
            integrator: IntegratorSettings {
                method: simulation.integrator.method,
                rk4_step: simulation.integrator.rk4_step_s,
            },
        };
        let launch_condition = LaunchCondition {
            position_llh: [launch.latitude_deg, launch.longitude_deg, launch.altitude_m],
            velocity_ned: launch.velocity_ned_mps,
            launch_time: [
                launch.datetime_utc.year,
                calendar_field(launch.datetime_utc.month),
                calendar_field(launch.datetime_utc.day),
                calendar_field(launch.datetime_utc.hour),
                calendar_field(launch.datetime_utc.minute),
                calendar_field(launch.datetime_utc.second),
            ],
        };
        let sources = take_stage_sources(stages, stage);
        let ghost views = stage_sources(client.stages@, client.stage);
        assert(views.len() == sources@.len());
        assert(forall|i: int| 0 <= i < sources@.len() ==> views[i] == (#[trigger] sources@[i])@);
        let total = sources.len();

        let mut stage_configs: Vec<StageConfig> = Vec::new();
        let mut thrust_tables: Vec<Option<TimeSeriesData>> = Vec::new();
        let mut isp_tables: Vec<Option<TimeSeriesData>> = Vec::new();
        let mut i: usize = 0;
        while i < total
            invariant
                i <= total,
                total == sources@.len(),
                views.len() == total,
                forall|q: int| 0 <= q < total ==> views[q] == (#[trigger] sources@[q])@,
                stage_configs@.len() == i,
                thrust_tables@.len() == i,
                isp_tables@.len() == i,
                forall|q: int|
                    0 <= q < i ==> is_stage_config_of(
                        views[q],
                        aerodynamics,
                        attitude,
                        q + 1 < total,
                        #[trigger] stage_configs@[q],
                    ),
                forall|q: int|
                    0 <= q < i ==> is_table_of_time_samples(
                        views[q].thrust_profile,
                        #[trigger] thrust_tables@[q],
                    ),
                forall|q: int|
                    0 <= q < i ==> is_table_of_time_samples(
                        views[q].isp_profile,
                        #[trigger] isp_tables@[q],
                    ),
            decreases total - i,
        {
            let source = &sources[i];
            stage_configs.push(build_stage_config(source, &aerodynamics, &attitude, i + 1 < total));
            thrust_tables.push(table_of_time_samples(&source.thrust_profile));
            isp_tables.push(table_of_time_samples(&source.isp_profile));
            i += 1;
        }
        let cn_data = table_of_mach_samples(&aerodynamics.cn_profile);
        let ca_data = table_of_mach_samples(&aerodynamics.ca_profile);
        let attitude_data = rows_of_attitude(&attitude.profile);
        let wind_data = rows_of_wind(&wind.profile);
        let config = RocketConfig {
            name,
            calculate_condition: calc,
            launch: launch_condition,
            stages: clone_stages(&stage_configs),
            wind: WindConfig {
                wind_file_exists: false,
                wind_file_name: String::new(),
                const_wind: [wind.speed_mps, wind.direction_deg],
            },
        };
        Rocket {
            config,
            stage_configs,
            thrust_tables,
            isp_tables,
            cn_data,
            cn_surface: None,
            ca_data,
            attitude_data,
            wind_data,
        }
    }
}

/// The defaults that are whole numbers stand for these.
pub proof fn lemma_defaults_are_whole_numbers()
    ensures
        Scalar::from_bits(DEFAULT_DURATION).represents(120),
        Scalar::from_bits(ONE).represents(1),
        Scalar::from_bits(DEFAULT_STAGE_MASS).represents(1000),
        Scalar::from_bits(DEFAULT_BURN_END).represents(30),
        Scalar::from_bits(DEFAULT_NOZZLE_EXPANSION).represents(5),
        Scalar::from_bits(DEFAULT_NOZZLE_EXIT_PRESSURE).represents(101300),
        Scalar::from_bits(DEFAULT_THRUST).represents(50000),
        Scalar::from_bits(DEFAULT_ISP).represents(200),
        Scalar::from_bits(DEFAULT_BALLISTIC_COEFFICIENT).represents(100),
        Scalar::from_bits(DEFAULT_ELEVATION).represents(83),
        Scalar::from_bits(DEFAULT_AZIMUTH).represents(113),
        Scalar::from_bits(DEFAULT_WIND_DIRECTION).represents(270),
        Scalar::from_bits(NO_SEPARATION).represents(1000000),
{
    lemma2_to64();
    lemma2_to64_rest();
    lemma_represents(DEFAULT_DURATION, 120, 46, 0x400000000000);
    lemma_represents(ONE, 1, 52, 0x10000000000000);
    lemma_represents(DEFAULT_STAGE_MASS, 1000, 43, 0x80000000000);
    lemma_represents(DEFAULT_BURN_END, 30, 48, 0x1000000000000);
    lemma_represents(DEFAULT_NOZZLE_EXPANSION, 5, 50, 0x4000000000000);
    lemma_represents(DEFAULT_NOZZLE_EXIT_PRESSURE, 101300, 36, 0x1000000000);
    lemma_represents(DEFAULT_THRUST, 50000, 37, 0x2000000000);
    lemma_represents(DEFAULT_ISP, 200, 45, 0x200000000000);
    lemma_represents(DEFAULT_BALLISTIC_COEFFICIENT, 100, 46, 0x400000000000);
    lemma_represents(DEFAULT_ELEVATION, 83, 46, 0x400000000000);
    lemma_represents(DEFAULT_AZIMUTH, 113, 46, 0x400000000000);
    lemma_represents(DEFAULT_WIND_DIRECTION, 270, 44, 0x100000000000);
    lemma_represents(NO_SEPARATION, 1000000, 33, 0x200000000);
}

/// The defaults that are no whole numbers: the throat diameter is the
/// hardware number nearest to a tenth, the body diameter is a half.
pub proof fn lemma_defaults_are_nearest_to_decimals()
    ensures
        Scalar::from_bits(DEFAULT_THROAT_DIAMETER).is_nearest_to(1, 10),
        Scalar::from_bits(DEFAULT_BODY_DIAMETER).is_ratio(1, 2),
{
    lemma2_to64();
    lemma2_to64_rest();
    lemma_nearest(DEFAULT_THROAT_DIAMETER, 1, 10, 1019, 0x1999999999999a, 56, 0x100000000000000);
    lemma_nearest(DEFAULT_BODY_DIAMETER, 1, 2, 1022, 0x10000000000000, 53, 0x20000000000000);
}

} // verus!
