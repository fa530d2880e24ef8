//! The vehicle: its description together with the tables that were loaded
//! for it, and what each of its quantities is read from.
//!
//! A query names the rows and factors that give a quantity; working the
//! number out of them is arithmetic and is left to the caller.
use crate::config::{clone_stages, RocketConfig, StageConfig};
use crate::ingest::{
    cn_surface_from_records, is_shaped_surface, raw_machs, shapes_into_surface, surface_rows,
    Field,
};
use crate::order::is_stable_order;
use crate::scalar::Scalar;
use crate::surface::{SplitCell, SurfaceData2D};
use crate::table::{
    is_clamped_lookup, is_floored_lookup, is_scanned_lookup, locate_floored, locate_scanned,
    profile_axis, Lookup, TimeSeriesData,
};
use vstd::prelude::*;

verus! {

/// What a quantity is read from before its factor is applied.
#[derive(Clone, Copy, Debug, PartialEq, Eq, Structural)]
pub enum Base {
    /// The constant of the description.
    Constant(Scalar),
    /// Rows of the table that was loaded for the quantity.
    Rows(Lookup),
}

/// A quantity as a base and the factor that multiplies it.
#[derive(Clone, Copy, Debug, PartialEq, Eq, Structural)]
pub struct Reading {
    pub base: Base,
    pub multiplier: Scalar,
}

/// The normal-force coefficient at a Mach number and an angle.
#[derive(Clone, Copy, Debug, PartialEq, Eq, Structural)]
pub enum CnReading {
    /// From the table over Mach number and angle: the cell to blend by the
    /// triangular scheme, none where the table has no cell and the value
    /// is zero; times the factor.
    Surface { cell: Option<SplitCell>, multiplier: Scalar },
    /// No such table: the reading over the Mach number is a slope per
    /// radian, to be multiplied by the angle, given here in degrees.
    PerRadian { slope: Reading, angle_deg: Scalar },
}

/// Two quantities that come as a pair: attitude as azimuth and elevation,
/// wind as speed and direction.
#[derive(Clone, Copy, Debug, PartialEq, Eq, Structural)]
pub enum PairReading {
    /// The constants of the description.
    Constant(Scalar, Scalar),
    /// Rows of the profile that was loaded.
    Rows(Lookup),
}

/// The vehicle description and the tables loaded for it.
#[derive(Debug)]
pub struct Rocket {
    pub config: RocketConfig,
    pub stage_configs: Vec<StageConfig>,
    /// Vacuum thrust over stage time, stage by stage.
    pub thrust_tables: Vec<Option<TimeSeriesData>>,
    /// Vacuum specific impulse over stage time, stage by stage.
    pub isp_tables: Vec<Option<TimeSeriesData>>,
    /// Normal-force coefficient over Mach number.
    pub cn_data: Option<TimeSeriesData>,
    /// Normal-force coefficient over Mach number and angle.
    pub cn_surface: Option<SurfaceData2D>,
    /// Axial-force coefficient over Mach number.
    pub ca_data: Option<TimeSeriesData>,
    /// Time, azimuth, elevation.
    pub attitude_data: Option<Vec<(Scalar, Scalar, Scalar)>>,
    /// Altitude, wind speed, wind direction.
    pub wind_data: Option<Vec<(Scalar, Scalar, Scalar)>>,
}

/// The reading of a quantity that has a constant, a factor, and possibly a
/// table over `at`.
pub open spec fn is_reading(
    table: Option<TimeSeriesData>,
    constant: Scalar,
    multiplier: Scalar,
    at: Scalar,
    r: Reading,
) -> bool {
    &&& r.multiplier == multiplier
    &&& match table {
        Some(series) => r.base is Rows && is_clamped_lookup(series.time@, at, r.base->Rows_0),
        None => r.base == Base::Constant(constant),
    }
}

fn read(table: &Option<TimeSeriesData>, constant: Scalar, multiplier: Scalar, at: Scalar) -> (r:
    Reading)
    ensures
        is_reading(*table, constant, multiplier, at, r),
{
    match table {
        Some(series) => Reading { base: Base::Rows(series.locate(at)), multiplier },
        None => Reading { base: Base::Constant(constant), multiplier },
    }
}

impl Rocket {
    /// The stages are those of the description, each stage has its place
    /// in the lists of tables, and the table over two axes is well formed.
    pub open spec fn wf(&self) -> bool {
        &&& self.stage_configs@ == self.config.stages@
        &&& self.thrust_tables@.len() == self.stage_configs@.len()
        &&& self.isp_tables@.len() == self.stage_configs@.len()
        &&& self.cn_surface is Some ==> self.cn_surface->0.wf()
    }

    /// The vehicle of a description, with no table loaded.
    pub fn new(config: RocketConfig) -> (rocket: Self)
        ensures
            rocket.wf(),
            rocket.config == config,
            forall|i: int|
                0 <= i < config.stages@.len() ==> (#[trigger] rocket.thrust_tables@[i]) is None
                    && rocket.isp_tables@[i] is None,
            rocket.cn_data is None,
            rocket.cn_surface is None,
            rocket.ca_data is None,
            rocket.attitude_data is None,
            rocket.wind_data is None,
    {
        let stage_configs = clone_stages(&config.stages);
        let mut thrust_tables: Vec<Option<TimeSeriesData>> = Vec::new();
        let mut isp_tables: Vec<Option<TimeSeriesData>> = Vec::new();
        let mut i: usize = 0;
        while i < stage_configs.len()
            invariant
                i <= stage_configs@.len(),
                thrust_tables@.len() == i,
                isp_tables@.len() == i,
                forall|k: int|
                    0 <= k < i ==> (#[trigger] thrust_tables@[k]) is None && isp_tables@[k] is None,
            decreases stage_configs@.len() - i,
        {
            thrust_tables.push(None);
            isp_tables.push(None);
            i += 1;
        }
        Rocket {
            config,
            stage_configs,
            thrust_tables,
            isp_tables,
            cn_data: None,
            cn_surface: None,
            ca_data: None,
            attitude_data: None,
            wind_data: None,
        }
    }

    /// Takes the normal-force coefficient from the records of its data
    /// file. Where the records shape into a table over Mach number and
    /// angle, that table is used and a table over the Mach number alone is
    /// dropped. Where they do not, the file is loaded as a table over the
    /// Mach number alone by `load_series`, whose failure is handed on and
    /// leaves the vehicle as it was.
    pub fn attach_cn<E, L: FnOnce() -> Result<TimeSeriesData, E>>(
        &mut self,
        records: &Vec<Vec<Field>>,
        load_series: L,
    ) -> (r: Result<(), E>)
        requires
            old(self).wf(),
            !shapes_into_surface(records@) ==> call_requires(load_series, ()),
        ensures
            final(self).wf(),
            final(self).config == old(self).config,
            final(self).stage_configs == old(self).stage_configs,
            final(self).thrust_tables == old(self).thrust_tables,
            final(self).isp_tables == old(self).isp_tables,
            final(self).ca_data == old(self).ca_data,
            final(self).attitude_data == old(self).attitude_data,
            final(self).wind_data == old(self).wind_data,
            shapes_into_surface(records@) ==> r is Ok && final(self).cn_data is None
                && final(self).cn_surface is Some && exists|order: Seq<usize>|
                is_stable_order(raw_machs(surface_rows(records@)), order) && is_shaped_surface(
                    surface_rows(records@),
                    order,
                    final(self).cn_surface->0,
                ),
            !shapes_into_surface(records@) ==> final(self).cn_surface == old(self).cn_surface
                && exists|outcome: Result<TimeSeriesData, E>|
                call_ensures(load_series, (), outcome) && match outcome {
                    Ok(series) => r is Ok && final(self).cn_data == Some(series),
                    Err(e) => r == Err::<(), E>(e) && final(self).cn_data == old(self).cn_data,
                },
    {
        match cn_surface_from_records(records) {
            Ok(surface) => {
                self.cn_surface = Some(surface);
                self.cn_data = None;
                Ok(())
            },
            Err(_) => {
                match load_series() {
                    Ok(series) => {
                        self.cn_data = Some(series);
                        Ok(())
                    },
                    Err(e) => Err(e),
                }
            },
        }
    }

    /// The number of stages.
    pub fn stage_count(&self) -> (n: usize)
        ensures
            n == self.stage_configs@.len(),
    {
        self.stage_configs.len()
    }

    /// The description of the stage at `index`, counted from zero.
    pub fn stage_config(&self, index: usize) -> (stage: &StageConfig)
        requires
            index < self.stage_configs@.len(),
        ensures
            *stage == self.stage_configs@[index as int],
    {
        &self.stage_configs[index]
    }

    /// Vacuum thrust [N] of a stage at a time since its ignition: the
    /// table of the stage where it has one, its constant otherwise, times
    /// the thrust factor of the stage.
    pub fn thrust_at(&self, stage_index: usize, time: Scalar) -> (r: Reading)
        requires
            self.wf(),
            stage_index < self.stage_configs@.len(),
        ensures
            is_reading(
                self.thrust_tables@[stage_index as int],
                self.stage_configs@[stage_index as int].thrust.const_thrust_vac,
                self.stage_configs@[stage_index as int].thrust.thrust_coefficient,
                time,
                r,
            ),
    {
        let stage = &self.stage_configs[stage_index];
        read(
            &self.thrust_tables[stage_index],
            stage.thrust.const_thrust_vac,
            stage.thrust.thrust_coefficient,
            time,
        )
    }

    /// Vacuum thrust [N] of the first stage.
    pub fn thrust_at_time(&self, time: Scalar) -> (r: Reading)
        requires
            self.wf(),
            self.stage_configs@.len() > 0,
        ensures
            is_reading(
                self.thrust_tables@[0],
                self.stage_configs@[0].thrust.const_thrust_vac,
                self.stage_configs@[0].thrust.thrust_coefficient,
                time,
                r,
            ),
    {
        self.thrust_at(0, time)
    }

    /// Vacuum specific impulse [s] of a stage at a time since its
    /// ignition: the table of the stage where it has one, its constant
    /// otherwise, times the factor of the stage.
    pub fn isp_at(&self, stage_index: usize, time: Scalar) -> (r: Reading)
        requires
            self.wf(),
            stage_index < self.stage_configs@.len(),
        ensures
            is_reading(
                self.isp_tables@[stage_index as int],
                self.stage_configs@[stage_index as int].thrust.const_isp_vac,
                self.stage_configs@[stage_index as int].thrust.isp_coefficient,
                time,
                r,
            ),
    {
        let stage = &self.stage_configs[stage_index];
        read(
            &self.isp_tables[stage_index],
            stage.thrust.const_isp_vac,
            stage.thrust.isp_coefficient,
            time,
        )
    }

    /// Vacuum specific impulse [s] of the first stage.
    pub fn isp_at_time(&self, time: Scalar) -> (r: Reading)
        requires
            self.wf(),
            self.stage_configs@.len() > 0,
        ensures
            is_reading(
                self.isp_tables@[0],
                self.stage_configs@[0].thrust.const_isp_vac,
                self.stage_configs@[0].thrust.isp_coefficient,
                time,
                r,
            ),
    {
        self.isp_at(0, time)
    }

    /// Axial-force coefficient of a stage at a Mach number: the table
    /// where one is loaded, the constant of the stage otherwise, times the
    /// axial factor of the stage.
    pub fn ca_at_mach(&self, stage_index: usize, mach: Scalar) -> (r: Reading)
        requires
            stage_index < self.stage_configs@.len(),
        ensures
            is_reading(
                self.ca_data,
                self.stage_configs@[stage_index as int].aero.const_axial_coefficient,
                self.stage_configs@[stage_index as int].aero.axial_multiplier,
                mach,
                r,
            ),
    {
        let stage = &self.stage_configs[stage_index];
        read(&self.ca_data, stage.aero.const_axial_coefficient, stage.aero.axial_multiplier, mach)
    }

    /// Normal-force coefficient of a stage over the Mach number alone: the
    /// table where one is loaded, the constant of the stage otherwise,
    /// times the normal factor of the stage.
    pub fn cn_at_mach(&self, stage_index: usize, mach: Scalar) -> (r: Reading)
        requires
            stage_index < self.stage_configs@.len(),
        ensures
            is_reading(
                self.cn_data,
                self.stage_configs@[stage_index as int].aero.const_normal_coefficient,
                self.stage_configs@[stage_index as int].aero.normal_multiplier,
                mach,
                r,
            ),
    {
        let stage = &self.stage_configs[stage_index];
        read(&self.cn_data, stage.aero.const_normal_coefficient, stage.aero.normal_multiplier, mach)
    }

    /// Normal-force coefficient of a stage at a Mach number and the
    /// magnitude of an angle [deg]. With a table over both, the triangular
    /// scheme is used at the angle, held at zero from below, and the
    /// result is multiplied by the normal factor of the stage. Without
    /// one, the reading over the Mach number is taken per radian of the
    /// angle.
    pub fn cn_at(&self, stage_index: usize, mach: Scalar, angle_deg_abs: Scalar) -> (r: CnReading)
        requires
            self.wf(),
            stage_index < self.stage_configs@.len(),
        ensures
            match self.cn_surface {
                Some(surface) => r is Surface && r->multiplier
                    == self.stage_configs@[stage_index as int].aero.normal_multiplier
                    && surface.is_split_cell(
                    mach,
                    angle_deg_abs.max(Scalar::from_bits(0)),
                    r->cell,
                ),
                None => r is PerRadian && r->angle_deg == angle_deg_abs && is_reading(
                    self.cn_data,
                    self.stage_configs@[stage_index as int].aero.const_normal_coefficient,
                    self.stage_configs@[stage_index as int].aero.normal_multiplier,
                    mach,
                    r->slope,
                ),
            },
    {
        match &self.cn_surface {
            Some(surface) => CnReading::Surface {
                cell: surface.split_cell(mach, angle_deg_abs.max(Scalar::zero())),
                multiplier: self.stage_configs[stage_index].aero.normal_multiplier,
            },
            None => CnReading::PerRadian {
                slope: self.cn_at_mach(stage_index, mach),
                angle_deg: angle_deg_abs,
            },
        }
    }

    /// Azimuth and elevation [deg] at a time on the mission clock: from
    /// the attitude profile where one with rows is loaded, the first pair
    /// of rows that encloses the time, else the first row up to it and the
    /// last row after it; the constants of the first stage otherwise.
    pub fn attitude_at_time(&self, time: Scalar) -> (r: PairReading)
        requires
            self.config.stages@.len() > 0,
        ensures
            match self.attitude_data {
                Some(rows) if rows@.len() > 0 => r is Rows && is_scanned_lookup(
                    profile_axis(rows@),
                    time,
                    r->Rows_0,
                ),
                _ => r == PairReading::Constant(
                    self.config.stages@[0].attitude.const_azimuth,
                    self.config.stages@[0].attitude.const_elevation,
                ),
            },
    {
        match &self.attitude_data {
            Some(rows) => {
                if rows.len() > 0 {
                    return PairReading::Rows(locate_scanned(rows, time));
                }
            },
            None => {},
        }
        let attitude = &self.config.primary_stage().attitude;
        PairReading::Constant(attitude.const_azimuth, attitude.const_elevation)
    }

    /// Wind speed [m/s] and direction [deg] at an altitude [m]: from the
    /// wind profile where one with rows is loaded, the first row up to it,
    /// else the first pair of rows that encloses the altitude, else the
    /// last row; the constant wind of the description otherwise.
    pub fn wind_at_altitude(&self, altitude: Scalar) -> (r: PairReading)
        ensures
            match self.wind_data {
                Some(rows) if rows@.len() > 0 => r is Rows && is_floored_lookup(
                    profile_axis(rows@),
                    altitude,
                    r->Rows_0,
                ),
                _ => r == PairReading::Constant(
                    self.config.wind.const_wind[0],
                    self.config.wind.const_wind[1],
                ),
            },
    {
        match &self.wind_data {
            Some(rows) => {
                if rows.len() > 0 {
                    return PairReading::Rows(locate_floored(rows, altitude));
                }
            },
            None => {},
        }
        PairReading::Constant(self.config.wind.const_wind[0], self.config.wind.const_wind[1])
    }

    /// Whether a time since the ignition of a stage lies in the burn
    /// window of the stage, ends included; outside it the mass of the
    /// stage is its initial mass.
    pub fn burns_at(&self, stage_index: usize, time: Scalar) -> (burning: bool)
        requires
            stage_index < self.stage_configs@.len(),
        ensures
            burning == !(time.lt(self.stage_configs@[stage_index as int].thrust.burn_start_time)
                || time.gt(self.stage_configs@[stage_index as int].thrust.burn_end_time)),
    {
        let thrust = &self.stage_configs[stage_index].thrust;
        !(time.lt(thrust.burn_start_time) || time.gt(thrust.burn_end_time))
    }
}

} // verus!
