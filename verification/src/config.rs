//! The vehicle description: calculation settings, launch condition, the
//! ordered stages and the wind.
use crate::scalar::Scalar;
use vstd::prelude::*;

verus! {

/// Which integrator advances the state.
#[derive(Clone, Copy, Debug, PartialEq, Eq, Structural)]
pub enum IntegratorMethod {
    /// Classical fixed-step Runge-Kutta of order four.
    Rk4,
    /// Adaptive Dormand-Prince 5(4).
    Rk45,
}

/// Integrator selection and its optional fixed step [s].
#[derive(Clone, Copy, Debug, PartialEq, Eq, Structural)]
pub struct IntegratorSettings {
    pub method: IntegratorMethod,
    pub rk4_step: Option<Scalar>,
}

impl Default for IntegratorSettings {
    fn default() -> (settings: Self)
        ensures
            settings == (IntegratorSettings { method: IntegratorMethod::Rk4, rk4_step: None }),
    {
        IntegratorSettings { method: IntegratorMethod::Rk4, rk4_step: None }
    }
}

/// Calculation settings of one run.
#[derive(Debug)]
pub struct CalculateCondition {
    /// End time [s].
    pub end_time: Scalar,
    /// Output time step [s].
    pub time_step: Scalar,
    pub air_density_file_exists: bool,
    pub air_density_file: String,
    /// Air density variation [%], from -100 to 100.
    pub air_density_variation: Scalar,
    pub integrator: IntegratorSettings,
}

impl Clone for CalculateCondition {
    fn clone(&self) -> (copy: Self)
        ensures
            copy == *self,
    {
        CalculateCondition {
            end_time: self.end_time,
            time_step: self.time_step,
            air_density_file_exists: self.air_density_file_exists,
            air_density_file: self.air_density_file.clone(),
            air_density_variation: self.air_density_variation,
            integrator: self.integrator,
        }
    }
}

/// Where and when the vehicle starts.
#[derive(Clone, Copy, Debug)]
pub struct LaunchCondition {
    /// Latitude [deg], longitude [deg], height [m].
    pub position_llh: [Scalar; 3],
    /// North, east, down velocity [m/s].
    pub velocity_ned: [Scalar; 3],
    /// Year, month, day, hour, minute, second (UTC).
    pub launch_time: [i32; 6],
}

/// Thrust and specific impulse of one stage. Times are relative to the
/// ignition of the stage.
#[derive(Debug)]
pub struct ThrustConfig {
    pub isp_file_exists: bool,
    pub isp_file_name: String,
    pub isp_coefficient: Scalar,
    /// Constant vacuum specific impulse [s].
    pub const_isp_vac: Scalar,
    pub thrust_file_exists: bool,
    pub thrust_file_name: String,
    pub thrust_coefficient: Scalar,
    /// Constant vacuum thrust [N].
    pub const_thrust_vac: Scalar,
    pub burn_start_time: Scalar,
    pub burn_end_time: Scalar,
    pub forced_cutoff_time: Scalar,
    /// Throat diameter [m].
    pub throat_diameter: Scalar,
    pub nozzle_expansion_ratio: Scalar,
    /// Nozzle exhaust pressure [Pa].
    pub nozzle_exhaust_pressure: Scalar,
}

impl Clone for ThrustConfig {
    fn clone(&self) -> (copy: Self)
        ensures
            copy == *self,
    {
        ThrustConfig {
            isp_file_exists: self.isp_file_exists,
            isp_file_name: self.isp_file_name.clone(),
            isp_coefficient: self.isp_coefficient,
            const_isp_vac: self.const_isp_vac,
            thrust_file_exists: self.thrust_file_exists,
            thrust_file_name: self.thrust_file_name.clone(),
            thrust_coefficient: self.thrust_coefficient,
            const_thrust_vac: self.const_thrust_vac,
            burn_start_time: self.burn_start_time,
            burn_end_time: self.burn_end_time,
            forced_cutoff_time: self.forced_cutoff_time,
            throat_diameter: self.throat_diameter,
            nozzle_expansion_ratio: self.nozzle_expansion_ratio,
            nozzle_exhaust_pressure: self.nozzle_exhaust_pressure,
        }
    }
}

/// Aerodynamic description of one stage.
#[derive(Debug)]
pub struct AeroConfig {
    /// Body diameter [m].
    pub body_diameter: Scalar,
    pub cn_file_exists: bool,
    pub cn_file_name: String,
    pub normal_multiplier: Scalar,
    pub const_normal_coefficient: Scalar,
    pub ca_file_exists: bool,
    pub ca_file_name: String,
    pub axial_multiplier: Scalar,
    pub const_axial_coefficient: Scalar,
    /// Ballistic coefficient [kg/m2] of the ballistic flight mode.
    pub ballistic_coefficient: Scalar,
}

impl Clone for AeroConfig {
    fn clone(&self) -> (copy: Self)
        ensures
            copy == *self,
    {
        AeroConfig {
            body_diameter: self.body_diameter,
            cn_file_exists: self.cn_file_exists,
            cn_file_name: self.cn_file_name.clone(),
            normal_multiplier: self.normal_multiplier,
            const_normal_coefficient: self.const_normal_coefficient,
            ca_file_exists: self.ca_file_exists,
            ca_file_name: self.ca_file_name.clone(),
            axial_multiplier: self.axial_multiplier,
            const_axial_coefficient: self.const_axial_coefficient,
            ballistic_coefficient: self.ballistic_coefficient,
        }
    }
}

/// Prescribed attitude of one stage. Angles in degrees, gyro bias in
/// degrees per hour.
#[derive(Debug)]
pub struct AttitudeConfig {
    pub attitude_file_exists: bool,
    pub attitude_file_name: String,
    pub const_elevation: Scalar,
    pub const_azimuth: Scalar,
    pub pitch_offset: Scalar,
    pub yaw_offset: Scalar,
    pub roll_offset: Scalar,
    pub gyro_bias_x: Scalar,
    pub gyro_bias_y: Scalar,
    pub gyro_bias_z: Scalar,
}

impl Clone for AttitudeConfig {
    fn clone(&self) -> (copy: Self)
        ensures
            copy == *self,
    {
        AttitudeConfig {
            attitude_file_exists: self.attitude_file_exists,
            attitude_file_name: self.attitude_file_name.clone(),
            const_elevation: self.const_elevation,
            const_azimuth: self.const_azimuth,
            pitch_offset: self.pitch_offset,
            yaw_offset: self.yaw_offset,
            roll_offset: self.roll_offset,
            gyro_bias_x: self.gyro_bias_x,
            gyro_bias_y: self.gyro_bias_y,
            gyro_bias_z: self.gyro_bias_z,
        }
    }
}

/// A product dumped in flight.
#[derive(Clone, Copy, Debug)]
pub struct DumpingProductConfig {
    pub dumping_product_exists: bool,
    pub dumping_product_separation_time: Scalar,
    pub dumping_product_mass: Scalar,
    pub dumping_product_ballistic_coefficient: Scalar,
    pub additional_speed_at_dumping_ned: [Scalar; 3],
}

/// Attitude neutrality settings.
#[derive(Debug)]
pub struct AttitudeNeutralityConfig {
    pub considering_neutrality: bool,
    pub cg_controller_position_file: String,
    pub cp_file: String,
}

impl Clone for AttitudeNeutralityConfig {
    fn clone(&self) -> (copy: Self)
        ensures
            copy == *self,
    {
        AttitudeNeutralityConfig {
            considering_neutrality: self.considering_neutrality,
            cg_controller_position_file: self.cg_controller_position_file.clone(),
            cp_file: self.cp_file.clone(),
        }
    }
}

/// File references of the six-degree-of-freedom data.
#[derive(Debug)]
pub struct SixDofConfig {
    pub cg_cp_controller_position_file: String,
    pub moment_of_inertia_file_name: String,
}

impl Clone for SixDofConfig {
    fn clone(&self) -> (copy: Self)
        ensures
            copy == *self,
    {
        SixDofConfig {
            cg_cp_controller_position_file: self.cg_cp_controller_position_file.clone(),
            moment_of_inertia_file_name: self.moment_of_inertia_file_name.clone(),
        }
    }
}

/// Whether a stage follows this one, and when this one separates, relative
/// to its ignition [s].
#[derive(Clone, Copy, Debug)]
pub struct StageTransitionConfig {
    pub following_stage_exists: bool,
    pub separation_time: Scalar,
}

/// One stage of the vehicle.
#[derive(Debug)]
pub struct StageConfig {
    pub power_flight_mode: i32,
    pub free_flight_mode: i32,
    /// Initial mass [kg].
    pub mass_initial: Scalar,
    pub thrust: ThrustConfig,
    pub aero: AeroConfig,
    pub attitude: AttitudeConfig,
    pub dumping_product: DumpingProductConfig,
    pub attitude_neutrality: AttitudeNeutralityConfig,
    pub six_dof: SixDofConfig,
    pub stage: StageTransitionConfig,
}

impl Clone for StageConfig {
    fn clone(&self) -> (copy: Self)
        ensures
            copy == *self,
    {
        StageConfig {
            power_flight_mode: self.power_flight_mode,
            free_flight_mode: self.free_flight_mode,
            mass_initial: self.mass_initial,
            thrust: self.thrust.clone(),
            aero: self.aero.clone(),
            attitude: self.attitude.clone(),
            dumping_product: self.dumping_product,
            attitude_neutrality: self.attitude_neutrality.clone(),
            six_dof: self.six_dof.clone(),
            stage: self.stage,
        }
    }
}

/// Wind: a profile file, or a constant speed [m/s] and direction [deg].
#[derive(Debug)]
pub struct WindConfig {
    pub wind_file_exists: bool,
    pub wind_file_name: String,
    pub const_wind: [Scalar; 2],
}

impl Clone for WindConfig {
    fn clone(&self) -> (copy: Self)
        ensures
            copy == *self,
    {
        WindConfig {
            wind_file_exists: self.wind_file_exists,
            wind_file_name: self.wind_file_name.clone(),
            const_wind: self.const_wind,
        }
    }
}

/// The whole vehicle description.
#[derive(Debug)]
pub struct RocketConfig {
    pub name: String,
    pub calculate_condition: CalculateCondition,
    pub launch: LaunchCondition,
    pub stages: Vec<StageConfig>,
    pub wind: WindConfig,
}

/// A copy of a list of stages, stage by stage.
pub fn clone_stages(stages: &Vec<StageConfig>) -> (copy: Vec<StageConfig>)
    ensures
        copy@ == stages@,
{
    let mut copy: Vec<StageConfig> = Vec::new();
    let mut i: usize = 0;
    while i < stages.len()
        invariant
            i <= stages.len(),
            copy@ == stages@.take(i as int),
        decreases stages.len() - i,
    {
        copy.push(stages[i].clone());
        assert(stages@.take(i + 1) =~= stages@.take(i as int).push(stages@[i as int]));
        i += 1;
    }
    assert(stages@.take(stages.len() as int) =~= stages@);
    copy
}

impl Clone for RocketConfig {
    fn clone(&self) -> (copy: Self)
        ensures
            copy.name == self.name,
            copy.calculate_condition == self.calculate_condition,
            copy.launch == self.launch,
            copy.stages@ == self.stages@,
            copy.wind == self.wind,
    {
        RocketConfig {
            name: self.name.clone(),
            calculate_condition: self.calculate_condition.clone(),
            launch: self.launch,
            stages: clone_stages(&self.stages),
            wind: self.wind.clone(),
        }
    }
}

/// No stage, or the one stage of a place that is filled.
pub open spec fn present(stage: Option<StageConfig>) -> Seq<StageConfig> {
    match stage {
        Some(s) => seq![s],
        None => Seq::empty(),
    }
}

/// The stages of a description that may give them in three ways: as a
/// list; or in the numbered places of a first, second and third stage; or
/// as a single stage. The list counts where it has a stage; else the
/// numbered places that are filled, in their order; else the single
/// stage.
pub open spec fn selected_stages(
    stages: Seq<StageConfig>,
    stage1: Option<StageConfig>,
    stage2: Option<StageConfig>,
    stage3: Option<StageConfig>,
    stage: Option<StageConfig>,
) -> Seq<StageConfig> {
    if stages.len() > 0 {
        stages
    } else if (present(stage1) + present(stage2) + present(stage3)).len() > 0 {
        present(stage1) + present(stage2) + present(stage3)
    } else {
        present(stage)
    }
}

/// Selects the stages of a description, or none where it gives no stage
/// in any of the three ways.
pub fn select_stages(
    stages: Vec<StageConfig>,
    stage1: Option<StageConfig>,
    stage2: Option<StageConfig>,
    stage3: Option<StageConfig>,
    stage: Option<StageConfig>,
) -> (selected: Option<Vec<StageConfig>>)
    ensures
        selected is None <==> selected_stages(stages@, stage1, stage2, stage3, stage).len() == 0,
        selected is Some ==> selected->0@ == selected_stages(
            stages@,
            stage1,
            stage2,
            stage3,
            stage,
        ),
{
    if stages.len() > 0 {
        return Some(stages);
    }
    let mut chosen: Vec<StageConfig> = Vec::new();
    match stage1 {
        Some(s) => {
            chosen.push(s);
        },
        None => {},
    }
    assert(chosen@ =~= present(stage1));
    match stage2 {
        Some(s) => {
            chosen.push(s);
        },
        None => {},
    }
    assert(chosen@ =~= present(stage1) + present(stage2));
    match stage3 {
        Some(s) => {
            chosen.push(s);
        },
        None => {},
    }
    assert(chosen@ =~= present(stage1) + present(stage2) + present(stage3));
    if chosen.len() == 0 {
        match stage {
            Some(s) => {
                chosen.push(s);
            },
            None => {},
        }
        assert(chosen@ =~= present(stage));
    }
    if chosen.len() == 0 {
        None
    } else {
        Some(chosen)
    }
}

impl RocketConfig {
    /// The number of stages.
    pub fn stage_count(&self) -> (n: usize)
        ensures
            n == self.stages@.len(),
    {
        self.stages.len()
    }

    /// The stage at `index`, counted from zero, if there is one.
    pub fn stage(&self, index: usize) -> (found: Option<&StageConfig>)
        ensures
            index < self.stages@.len() ==> found == Some(&self.stages@[index as int]),
            index >= self.stages@.len() ==> found is None,
    {
        if index < self.stages.len() {
            Some(&self.stages[index])
        } else {
            None
        }
    }

    /// The first stage, whose attitude and aerodynamic tables stand for the
    /// vehicle.
    pub fn primary_stage(&self) -> (first: &StageConfig)
        requires
            self.stages@.len() > 0,
        ensures
            *first == self.stages@[0],
    {
        &self.stages[0]
    }
}

} // verus!
