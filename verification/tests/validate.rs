use open_tsiolkovsky::config::{
    AeroConfig, AttitudeConfig, AttitudeNeutralityConfig, CalculateCondition,
    DumpingProductConfig, IntegratorMethod, IntegratorSettings, LaunchCondition, RocketConfig,
    SixDofConfig, StageConfig, StageTransitionConfig, ThrustConfig, WindConfig,
};
use open_tsiolkovsky::scalar::Scalar;
use open_tsiolkovsky::validate::{
    validate_calculate_condition, validate_config, validate_launch_condition,
    validate_single_stage, validate_stage_separation_timing, validate_stages,
    validate_wind_config, ConfigIssue, ConfigValidationError, DerivedQuantities,
    MAX_BODY_DIAMETER, MAX_DENSITY_VARIATION, MAX_END_TIME, MAX_ISP, MAX_LATITUDE,
    MAX_LAUNCH_ALTITUDE, MAX_LAUNCH_SPEED, MAX_LONGITUDE, MAX_RK4_STEP, MAX_STAGE_COUNT,
    MAX_STAGE_MASS, MAX_THRUST, MIN_DENSITY_VARIATION, MIN_EXPANSION_RATIO, MIN_ISP,
    MIN_LATITUDE, MIN_LAUNCH_ALTITUDE, MIN_LONGITUDE, MIN_OUTPUT_STEP, MIN_RK4_STEP,
};

fn s(x: f64) -> Scalar {
    Scalar::from_bits(x.to_bits())
}

fn stage() -> StageConfig {
    StageConfig {
        power_flight_mode: 0,
        free_flight_mode: 2,
        mass_initial: s(1000.0),
        thrust: ThrustConfig {
            isp_file_exists: false,
            isp_file_name: String::new(),
            isp_coefficient: s(1.0),
            const_isp_vac: s(200.0),
            thrust_file_exists: false,
            thrust_file_name: String::new(),
            thrust_coefficient: s(1.0),
            const_thrust_vac: s(50_000.0),
            burn_start_time: s(0.0),
            burn_end_time: s(30.0),
            forced_cutoff_time: s(30.0),
            throat_diameter: s(0.1),
            nozzle_expansion_ratio: s(5.0),
            nozzle_exhaust_pressure: s(101300.0),
        },
        aero: AeroConfig {
            body_diameter: s(0.5),
            cn_file_exists: false,
            cn_file_name: String::new(),
            normal_multiplier: s(1.0),
            const_normal_coefficient: s(0.2),
            ca_file_exists: false,
            ca_file_name: String::new(),
            axial_multiplier: s(1.0),
            const_axial_coefficient: s(0.2),
            ballistic_coefficient: s(100.0),
        },
        attitude: AttitudeConfig {
            attitude_file_exists: false,
            attitude_file_name: String::new(),
            const_elevation: s(83.0),
            const_azimuth: s(113.0),
            pitch_offset: s(0.0),
            yaw_offset: s(0.0),
            roll_offset: s(0.0),
            gyro_bias_x: s(0.0),
            gyro_bias_y: s(0.0),
            gyro_bias_z: s(0.0),
        },
        dumping_product: DumpingProductConfig {
            dumping_product_exists: false,
            dumping_product_separation_time: s(130.0),
            dumping_product_mass: s(10.0),
            dumping_product_ballistic_coefficient: s(100.0),
            additional_speed_at_dumping_ned: [s(0.0), s(0.0), s(0.0)],
        },
        attitude_neutrality: AttitudeNeutralityConfig {
            considering_neutrality: false,
            cg_controller_position_file: String::new(),
            cp_file: String::new(),
        },
        six_dof: SixDofConfig {
            cg_cp_controller_position_file: String::new(),
            moment_of_inertia_file_name: String::new(),
        },
        stage: StageTransitionConfig { following_stage_exists: false, separation_time: s(1.0e6) },
    }
}

fn calc() -> CalculateCondition {
    CalculateCondition {
        end_time: s(100.0),
        time_step: s(1.0),
        air_density_file_exists: false,
        air_density_file: String::new(),
        air_density_variation: s(0.0),
        integrator: IntegratorSettings { method: IntegratorMethod::Rk4, rk4_step: None },
    }
}

fn launch() -> LaunchCondition {
    LaunchCondition {
        position_llh: [s(35.0), s(139.0), s(0.0)],
        velocity_ned: [s(0.0), s(0.0), s(0.0)],
        launch_time: [2023, 1, 1, 12, 0, 0],
    }
}

fn config() -> RocketConfig {
    RocketConfig {
        name: "test".to_string(),
        calculate_condition: calc(),
        launch: launch(),
        stages: vec![stage()],
        wind: WindConfig {
            wind_file_exists: false,
            wind_file_name: String::new(),
            const_wind: [s(0.0), s(270.0)],
        },
    }
}

fn derived(config: &RocketConfig) -> DerivedQuantities {
    let end = f64::from_bits(config.calculate_condition.end_time.to_bits());
    let v = config.launch.velocity_ned;
    let (vn, ve, vd) = (
        f64::from_bits(v[0].to_bits()),
        f64::from_bits(v[1].to_bits()),
        f64::from_bits(v[2].to_bits()),
    );
    DerivedQuantities {
        coarse_step_limit: s(end / 10.0),
        launch_speed: s((vn * vn + ve * ve + vd * vd).sqrt()),
    }
}

fn calc_issues(calc: &CalculateCondition) -> Vec<ConfigIssue> {
    let mut errors = Vec::new();
    let end = f64::from_bits(calc.end_time.to_bits());
    validate_calculate_condition(calc, s(end / 10.0), &mut errors);
    errors
}

fn launch_issues(launch: &LaunchCondition) -> Vec<ConfigIssue> {
    let mut errors = Vec::new();
    let v: Vec<f64> = launch.velocity_ned.iter().map(|c| f64::from_bits(c.to_bits())).collect();
    let speed = (v[0] * v[0] + v[1] * v[1] + v[2] * v[2]).sqrt();
    validate_launch_condition(launch, s(speed), &mut errors);
    errors
}

fn stage_issues(stage: &StageConfig, number: usize) -> Vec<ConfigIssue> {
    let mut errors = Vec::new();
    validate_single_stage(stage, number, &mut errors);
    errors
}

#[test]
fn validation_limits_are_the_documented_numbers() {
    assert_eq!(MAX_END_TIME, 3600.0f64.to_bits());
    assert_eq!(MIN_OUTPUT_STEP, 0.001f64.to_bits());
    assert_eq!(MIN_DENSITY_VARIATION, (-100.0f64).to_bits());
    assert_eq!(MAX_DENSITY_VARIATION, 100.0f64.to_bits());
    assert_eq!(MAX_RK4_STEP, 1.0f64.to_bits());
    assert_eq!(MIN_RK4_STEP, 1e-6f64.to_bits());
    assert_eq!(MIN_LATITUDE, (-90.0f64).to_bits());
    assert_eq!(MAX_LATITUDE, 90.0f64.to_bits());
    assert_eq!(MIN_LONGITUDE, (-180.0f64).to_bits());
    assert_eq!(MAX_LONGITUDE, 180.0f64.to_bits());
    assert_eq!(MIN_LAUNCH_ALTITUDE, (-500.0f64).to_bits());
    assert_eq!(MAX_LAUNCH_ALTITUDE, 10000.0f64.to_bits());
    assert_eq!(MAX_LAUNCH_SPEED, 100.0f64.to_bits());
    assert_eq!(MAX_STAGE_COUNT, 10);
    assert_eq!(MAX_STAGE_MASS, 1000000.0f64.to_bits());
    assert_eq!(MAX_THRUST, 50000000.0f64.to_bits());
    assert_eq!(MIN_ISP, 100.0f64.to_bits());
    assert_eq!(MAX_ISP, 500.0f64.to_bits());
    assert_eq!(MIN_EXPANSION_RATIO, 1.0f64.to_bits());
    assert_eq!(MAX_BODY_DIAMETER, 50.0f64.to_bits());
}

#[test]
fn valid_config_passes() {
    let config = config();
    assert_eq!(validate_config(&config, &derived(&config)), Ok(()));
}

#[test]
fn findings_come_in_rule_order() {
    let mut config = config();
    config.calculate_condition.end_time = s(-1.0);
    config.launch.position_llh[0] = s(91.0);
    config.launch.launch_time[1] = 13;
    config.stages[0].mass_initial = s(0.0);
    config.stages[0].aero.body_diameter = s(60.0);
    let got = validate_config(&config, &derived(&config));
    assert_eq!(
        got,
        Err(vec![
            ConfigIssue::EndTimeNotPositive,
            ConfigIssue::TimeStepTooCoarse,
            ConfigIssue::LatitudeOutOfRange,
            ConfigIssue::LaunchMonthOutOfRange,
            ConfigIssue::MassNotPositive { stage: 1 },
            ConfigIssue::BodyDiameterTooLarge { stage: 1 },
        ])
    );
    let error = ConfigValidationError { errors: got.unwrap_err() };
    assert_eq!(error.errors.len(), 6);
}

#[test]
fn end_time_rules() {
    let mut c = calc();
    c.time_step = s(0.01);
    for (end, want) in [
        (0.0, vec![ConfigIssue::EndTimeNotPositive, ConfigIssue::TimeStepTooCoarse]),
        (f64::NAN, vec![ConfigIssue::EndTimeNotPositive]),
        (f64::INFINITY, vec![ConfigIssue::EndTimeNotPositive]),
        (3600.0, vec![]),
        (3600.5, vec![ConfigIssue::EndTimeOverHour]),
        (1.0, vec![]),
    ] {
        c.end_time = s(end);
        assert_eq!(calc_issues(&c), want, "end time {end}");
    }
}

#[test]
fn time_step_rules() {
    let mut c = calc();
    for (step, want) in [
        (0.0, vec![ConfigIssue::TimeStepNotPositive]),
        (-1.0, vec![ConfigIssue::TimeStepNotPositive]),
        (f64::NAN, vec![ConfigIssue::TimeStepNotPositive]),
        (10.0, vec![]),
        (10.5, vec![ConfigIssue::TimeStepTooCoarse]),
        (0.001, vec![]),
        (0.0005, vec![ConfigIssue::TimeStepTooFine]),
    ] {
        c.time_step = s(step);
        assert_eq!(calc_issues(&c), want, "time step {step}");
    }
}

#[test]
fn density_variation_rules() {
    let mut c = calc();
    for (variation, want) in [
        (f64::NAN, vec![ConfigIssue::DensityVariationNotFinite]),
        (f64::NEG_INFINITY, vec![ConfigIssue::DensityVariationNotFinite]),
        (-100.0, vec![]),
        (100.0, vec![]),
        (-100.5, vec![ConfigIssue::DensityVariationOutOfRange]),
        (101.0, vec![ConfigIssue::DensityVariationOutOfRange]),
    ] {
        c.air_density_variation = s(variation);
        assert_eq!(calc_issues(&c), want, "variation {variation}");
    }
}

#[test]
fn integrator_rules() {
    let mut c = calc();
    for (step, want) in [
        (0.0, vec![ConfigIssue::Rk4StepNotPositive]),
        (f64::NAN, vec![ConfigIssue::Rk4StepNotPositive]),
        (1.0, vec![]),
        (1.5, vec![ConfigIssue::Rk4StepTooLarge]),
        (1e-6, vec![]),
        (1e-7, vec![ConfigIssue::Rk4StepTooSmall]),
    ] {
        c.integrator = IntegratorSettings { method: IntegratorMethod::Rk4, rk4_step: Some(s(step)) };
        assert_eq!(calc_issues(&c), want, "rk4 step {step}");
        c.integrator = IntegratorSettings { method: IntegratorMethod::Rk45, rk4_step: Some(s(step)) };
        assert_eq!(calc_issues(&c), vec![], "rk45 ignores the step {step}");
    }
}

#[test]
fn launch_position_rules() {
    let mut l = launch();
    for (lat, want) in [
        (90.0, vec![]),
        (-90.0, vec![]),
        (90.5, vec![ConfigIssue::LatitudeOutOfRange]),
        (f64::NAN, vec![ConfigIssue::LatitudeOutOfRange]),
    ] {
        l.position_llh[0] = s(lat);
        assert_eq!(launch_issues(&l), want, "latitude {lat}");
    }
    l = launch();
    for (lon, want) in [
        (180.0, vec![]),
        (-180.0, vec![]),
        (-181.0, vec![ConfigIssue::LongitudeOutOfRange]),
        (f64::INFINITY, vec![ConfigIssue::LongitudeOutOfRange]),
    ] {
        l.position_llh[1] = s(lon);
        assert_eq!(launch_issues(&l), want, "longitude {lon}");
    }
    l = launch();
    for (alt, want) in [
        (-500.0, vec![]),
        (10000.0, vec![]),
        (-501.0, vec![ConfigIssue::AltitudeTooLow]),
        (10001.0, vec![ConfigIssue::AltitudeTooHigh]),
        (f64::NAN, vec![ConfigIssue::AltitudeNotFinite]),
    ] {
        l.position_llh[2] = s(alt);
        assert_eq!(launch_issues(&l), want, "altitude {alt}");
    }
}

#[test]
fn launch_velocity_rules() {
    let mut l = launch();
    l.velocity_ned = [s(60.0), s(80.0), s(0.0)];
    assert_eq!(launch_issues(&l), vec![]);
    l.velocity_ned = [s(60.0), s(80.0), s(1.0)];
    assert_eq!(launch_issues(&l), vec![ConfigIssue::VelocityTooLarge]);
    l.velocity_ned = [s(0.0), s(f64::NAN), s(0.0)];
    assert_eq!(launch_issues(&l), vec![ConfigIssue::VelocityNotFinite]);
    l.velocity_ned = [s(f64::INFINITY), s(0.0), s(0.0)];
    assert_eq!(launch_issues(&l), vec![ConfigIssue::VelocityNotFinite]);
}

#[test]
fn launch_time_rules() {
    let mut l = launch();
    l.launch_time = [1899, 0, 32, 24, 60, 60];
    assert_eq!(
        launch_issues(&l),
        vec![
            ConfigIssue::LaunchYearOutOfRange,
            ConfigIssue::LaunchMonthOutOfRange,
            ConfigIssue::LaunchDayOutOfRange,
            ConfigIssue::LaunchHourOutOfRange,
            ConfigIssue::LaunchMinuteOutOfRange,
            ConfigIssue::LaunchSecondOutOfRange,
        ]
    );
    l.launch_time = [1900, 1, 1, 0, 0, 0];
    assert_eq!(launch_issues(&l), vec![]);
    l.launch_time = [2100, 12, 31, 23, 59, 59];
    assert_eq!(launch_issues(&l), vec![]);
    l.launch_time = [2101, 12, 31, 23, 59, -1];
    assert_eq!(
        launch_issues(&l),
        vec![ConfigIssue::LaunchYearOutOfRange, ConfigIssue::LaunchSecondOutOfRange]
    );
}

#[test]
fn single_stage_rules() {
    assert_eq!(stage_issues(&stage(), 1), vec![]);

    let mut st = stage();
    st.mass_initial = s(1_000_001.0);
    assert_eq!(stage_issues(&st, 3), vec![ConfigIssue::MassTooLarge { stage: 3 }]);
    st.mass_initial = s(f64::NAN);
    assert_eq!(stage_issues(&st, 3), vec![ConfigIssue::MassNotPositive { stage: 3 }]);

    let mut st = stage();
    st.thrust.burn_start_time = s(-1.0);
    assert_eq!(stage_issues(&st, 1), vec![ConfigIssue::BurnStartNegative { stage: 1 }]);
    st.thrust.burn_start_time = s(30.0);
    assert_eq!(stage_issues(&st, 1), vec![ConfigIssue::BurnEndNotAfterStart { stage: 1 }]);
    st.thrust.burn_start_time = s(0.0);
    st.thrust.burn_end_time = s(-2.0);
    assert_eq!(
        stage_issues(&st, 1),
        vec![
            ConfigIssue::BurnEndNegative { stage: 1 },
            ConfigIssue::BurnEndNotAfterStart { stage: 1 }
        ]
    );
    st.thrust.burn_end_time = s(f64::NAN);
    assert_eq!(stage_issues(&st, 1), vec![ConfigIssue::BurnEndNegative { stage: 1 }]);

    let mut st = stage();
    st.thrust.const_thrust_vac = s(0.0);
    assert_eq!(stage_issues(&st, 1), vec![]);
    st.thrust.const_thrust_vac = s(-1.0);
    assert_eq!(stage_issues(&st, 1), vec![ConfigIssue::ThrustNegative { stage: 1 }]);
    st.thrust.const_thrust_vac = s(50_000_001.0);
    assert_eq!(stage_issues(&st, 1), vec![ConfigIssue::ThrustTooLarge { stage: 1 }]);

    let mut st = stage();
    st.thrust.const_isp_vac = s(0.0);
    assert_eq!(stage_issues(&st, 1), vec![ConfigIssue::IspNotPositive { stage: 1 }]);
    st.thrust.const_isp_vac = s(501.0);
    assert_eq!(stage_issues(&st, 1), vec![ConfigIssue::IspTooHigh { stage: 1 }]);
    st.thrust.const_isp_vac = s(99.0);
    assert_eq!(stage_issues(&st, 1), vec![ConfigIssue::IspTooLow { stage: 1 }]);
    st.thrust.const_isp_vac = s(100.0);
    assert_eq!(stage_issues(&st, 1), vec![]);
    st.thrust.const_isp_vac = s(500.0);
    assert_eq!(stage_issues(&st, 1), vec![]);

    let mut st = stage();
    st.thrust.throat_diameter = s(0.0);
    assert_eq!(stage_issues(&st, 2), vec![ConfigIssue::ThroatNotPositive { stage: 2 }]);
    let mut st = stage();
    st.thrust.nozzle_expansion_ratio = s(0.99);
    assert_eq!(stage_issues(&st, 2), vec![ConfigIssue::ExpansionRatioBelowOne { stage: 2 }]);
    st.thrust.nozzle_expansion_ratio = s(1.0);
    assert_eq!(stage_issues(&st, 2), vec![]);
    let mut st = stage();
    st.aero.body_diameter = s(-0.5);
    assert_eq!(stage_issues(&st, 2), vec![ConfigIssue::BodyDiameterNotPositive { stage: 2 }]);
    st.aero.body_diameter = s(50.0);
    assert_eq!(stage_issues(&st, 2), vec![]);
}

#[test]
fn stage_list_rules() {
    let mut errors = vec![ConfigIssue::EndTimeOverHour];
    validate_stages(&Vec::new(), &mut errors);
    assert_eq!(errors, vec![ConfigIssue::EndTimeOverHour, ConfigIssue::NoStages]);

    let many: Vec<StageConfig> = (0..11).map(|_| stage()).collect();
    let mut errors = Vec::new();
    validate_stages(&many, &mut errors);
    assert_eq!(errors, vec![ConfigIssue::TooManyStages { count: 11 }]);

    let ten: Vec<StageConfig> = (0..10).map(|_| stage()).collect();
    let mut errors = Vec::new();
    validate_stages(&ten, &mut errors);
    assert_eq!(errors, vec![]);

    let mut bad = stage();
    bad.mass_initial = s(-1.0);
    let mut errors = Vec::new();
    validate_stages(&vec![stage(), bad], &mut errors);
    assert_eq!(errors, vec![ConfigIssue::MassNotPositive { stage: 2 }]);
}

#[test]
fn separation_timing_rules() {
    // Separation at the burn end is too early; a burn start of the next
    // stage counts from its own ignition, which is that separation.
    let mut first = stage();
    first.stage.following_stage_exists = true;
    first.stage.separation_time = s(30.0);
    let mut second = stage();
    second.thrust.burn_start_time = s(29.0);
    let mut errors = Vec::new();
    validate_stage_separation_timing(&vec![first.clone(), second.clone()], &mut errors);
    assert_eq!(errors, vec![ConfigIssue::SeparationNotAfterBurnEnd { stage: 1 }]);

    first.stage.separation_time = s(31.0);
    second.thrust.burn_start_time = s(0.0);
    let mut errors = Vec::new();
    validate_stage_separation_timing(&vec![first.clone(), second.clone()], &mut errors);
    assert_eq!(errors, vec![]);

    second.thrust.burn_start_time = s(-0.5);
    let mut errors = Vec::new();
    validate_stage_separation_timing(&vec![first.clone(), second.clone()], &mut errors);
    assert_eq!(errors, vec![ConfigIssue::NextBurnBeforeSeparation { stage: 2 }]);

    second.thrust.burn_start_time = s(f64::NAN);
    let mut errors = Vec::new();
    validate_stage_separation_timing(&vec![first.clone(), second.clone()], &mut errors);
    assert_eq!(errors, vec![]);

    first.stage.following_stage_exists = false;
    first.stage.separation_time = s(0.0);
    second.thrust.burn_start_time = s(-0.5);
    let mut errors = Vec::new();
    validate_stage_separation_timing(&vec![first, second], &mut errors);
    assert_eq!(errors, vec![]);

    let mut errors = Vec::new();
    validate_stage_separation_timing(&Vec::new(), &mut errors);
    validate_stage_separation_timing(&vec![stage()], &mut errors);
    assert_eq!(errors, vec![]);
}

#[test]
fn two_stages_that_hand_over_at_separation_are_valid() {
    let mut first = stage();
    first.thrust.burn_end_time = s(6.0);
    first.thrust.forced_cutoff_time = s(6.0);
    first.stage.following_stage_exists = true;
    first.stage.separation_time = s(6.5);
    let mut second = stage();
    second.mass_initial = s(200.0);
    second.thrust.burn_start_time = s(0.0);
    let stages = vec![first, second];
    let mut errors = Vec::new();
    validate_stage_separation_timing(&stages, &mut errors);
    assert!(errors.is_empty());
    let mut errors = Vec::new();
    validate_stages(&stages, &mut errors);
    assert!(errors.is_empty());
    let mut whole = config();
    whole.stages = stages;
    assert_eq!(validate_config(&whole, &derived(&whole)), Ok(()));
}

#[test]
fn wind_has_no_rule() {
    let mut errors = vec![ConfigIssue::NoStages];
    validate_wind_config(&config().wind, &mut errors);
    assert_eq!(errors, vec![ConfigIssue::NoStages]);
}
