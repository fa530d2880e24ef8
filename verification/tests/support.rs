use open_tsiolkovsky::environment::{
    AtmosphereModel, CoordinateTransform, GravityModel, PointMassGravity, VariationCurve, BAR_C20,
    LAYERS, MINUS_ONE, MIN_AIR_SPEED, MIN_FORWARD_SPEED, NEGLIGIBLE, PLUS_ONE,
};
use open_tsiolkovsky::error::SimError;
use open_tsiolkovsky::files::{blank, maybe_load, resolve_data_path, white_space};
use open_tsiolkovsky::scalar::Scalar;
use open_tsiolkovsky::summary::last_maximum;

fn s(x: f64) -> Scalar {
    Scalar::from_bits(x.to_bits())
}

fn f(x: Scalar) -> f64 {
    f64::from_bits(x.to_bits())
}

fn axis(xs: &[f64]) -> Vec<Scalar> {
    xs.iter().map(|x| s(*x)).collect()
}

#[test]
fn white_space_is_what_trimming_takes_off() {
    for code in 0..=0x10ffffu32 {
        if let Some(c) = char::from_u32(code) {
            assert_eq!(white_space(c), c.is_whitespace(), "U+{code:04X}");
        }
    }
}

#[test]
fn blank_names_are_told() {
    for text in ["", " ", "\t\n", " \u{3000}\u{a0} ", "a", " a ", "\u{200b}", "thrust.csv", " . "] {
        assert_eq!(blank(text), text.trim().is_empty(), "{text:?}");
    }
}

#[test]
fn data_files_are_looked_for_only_when_asked_for() {
    let mut asked = Vec::new();
    let found = resolve_data_path(true, "thrust.csv", |name: &str| {
        asked.push(name.to_string());
        true
    });
    assert_eq!(found, Some("thrust.csv"));
    assert_eq!(asked, vec!["thrust.csv".to_string()]);
    assert_eq!(resolve_data_path(true, "thrust.csv", |_: &str| false), None);
    assert_eq!(resolve_data_path(false, "thrust.csv", |_: &str| -> bool { unreachable!() }), None);
    assert_eq!(resolve_data_path(true, "  ", |_: &str| -> bool { unreachable!() }), None);
    assert_eq!(resolve_data_path(true, "", |_: &str| -> bool { unreachable!() }), None);
    assert_eq!(resolve_data_path(true, " a.csv", |_: &str| true), Some(" a.csv"));
}

#[test]
fn absent_files_are_no_error() {
    let yes = |_: &str| true;
    let no = |_: &str| false;
    let load = |name: &str| -> Result<usize, String> { Ok(name.len()) };
    let fail = |name: &str| -> Result<usize, String> { Err(format!("cannot read {name}")) };
    let never = |_: &str| -> Result<usize, String> { unreachable!() };
    assert_eq!(maybe_load(true, "isp.csv", yes, load), Ok(Some(7)));
    assert_eq!(maybe_load(true, "isp.csv", yes, fail), Err("cannot read isp.csv".to_string()));
    assert_eq!(maybe_load(true, "isp.csv", no, never), Ok(None));
    assert_eq!(maybe_load(false, "isp.csv", yes, never), Ok(None));
    assert_eq!(maybe_load(true, " \t", yes, never), Ok(None));
}

#[test]
fn environment_constants_are_the_documented_numbers() {
    assert_eq!(NEGLIGIBLE, 1.0e-10f64.to_bits());
    assert_eq!(MIN_AIR_SPEED, 0.01f64.to_bits());
    assert_eq!(MIN_FORWARD_SPEED, 0.001f64.to_bits());
    assert_eq!(MINUS_ONE, (-1.0f64).to_bits());
    assert_eq!(PLUS_ONE, 1.0f64.to_bits());
    assert_eq!(BAR_C20, (-0.484165371736e-3f64).to_bits());
    assert_eq!(LAYERS, 8);
    let model = AtmosphereModel::new();
    let bases: Vec<f64> = model.height_layers.iter().map(|b| f(*b)).collect();
    assert_eq!(bases, vec![0.0, 11000.0, 20000.0, 32000.0, 47000.0, 51000.0, 71000.0, 84852.0]);
    assert_eq!(AtmosphereModel::default().height_layers, model.height_layers);
    assert_eq!(GravityModel::new().bar_c20, s(-0.484165371736e-3));
    assert_eq!(GravityModel::default(), GravityModel::new());
}

#[test]
fn layer_is_the_highest_at_or_below_the_altitude() {
    let model = AtmosphereModel::new();
    for (altitude, layer) in [
        (-100.0, 0),
        (0.0, 0),
        (5000.0, 0),
        (10999.9, 0),
        (11000.0, 1),
        (15000.0, 1),
        (20000.0, 2),
        (31999.0, 2),
        (32000.0, 3),
        (47000.0, 4),
        (51000.0, 5),
        (71000.0, 6),
        (84851.9, 6),
        (84852.0, 7),
        (200000.0, 7),
        (f64::INFINITY, 7),
        (f64::NAN, 7),
    ] {
        assert_eq!(model.determine_layer(s(altitude)), layer, "altitude {altitude}");
    }
}

fn temperature(model: &AtmosphereModel, altitude: f64) -> f64 {
    let lapse_rates = [-0.0065, 0.0, 0.001, 0.0028, 0.0, -0.0028, -0.002, 0.0];
    let base_temperatures = [288.15, 216.65, 216.65, 228.65, 270.65, 270.65, 214.65, 186.95];
    let layer = model.determine_layer(s(altitude));
    base_temperatures[layer] + lapse_rates[layer] * (altitude - f(model.height_layers[layer]))
}

#[test]
fn physics_test_temperature_profile() {
    let atm = AtmosphereModel::new();
    let temp_5km = temperature(&atm, 5000.0);
    let expected_5km = 288.15 + (-0.0065) * 5000.0;
    assert!((temp_5km - expected_5km).abs() <= 0.01);
    let temp_15km = temperature(&atm, 15000.0);
    assert!((temp_15km - 216.65).abs() <= 0.01);
}

#[test]
fn atmosphere_test_temperature_profile() {
    let atm = AtmosphereModel::new();
    let temp_5km = temperature(&atm, 5000.0);
    let expected_5km = 288.15 + (-0.0065) * 5000.0;
    assert!((temp_5km - expected_5km).abs() <= 0.01);
    let temp_15km = temperature(&atm, 15000.0);
    assert!((temp_15km - 216.65).abs() <= 0.01);
}

#[test]
fn atmosphere_case_distinctions() {
    assert!(AtmosphereModel::is_isothermal(s(0.0)));
    assert!(!AtmosphereModel::is_isothermal(s(0.0065)));
    assert!(!AtmosphereModel::is_isothermal(s(1.0e-10)));
    assert_eq!(AtmosphereModel::variation_curve(s(0.0)), VariationCurve::Flat);
    assert_eq!(AtmosphereModel::variation_curve(s(-1.0e-11)), VariationCurve::Flat);
    assert_eq!(AtmosphereModel::variation_curve(s(-20.0)), VariationCurve::Minus);
    assert_eq!(AtmosphereModel::variation_curve(s(20.0)), VariationCurve::Plus);
    assert_eq!(AtmosphereModel::variation_curve(s(f64::NAN)), VariationCurve::Plus);
}

#[test]
fn gravity_and_coordinate_guards() {
    assert!(GravityModel::is_degenerate(s(0.0)));
    assert!(!GravityModel::is_degenerate(s(1.0e-10)));
    assert!(!GravityModel::is_degenerate(s(6378137.0)));
    assert!(PointMassGravity::is_degenerate(s(1.0e-11)));
    assert!(!PointMassGravity::is_degenerate(s(1.0)));
    assert_eq!(GravityModel::effective_radius(s(100.0), s(6356752.3)), s(6356752.3));
    assert_eq!(GravityModel::effective_radius(s(7.0e6), s(6356752.3)), s(7.0e6));
    assert_eq!(GravityModel::effective_radius(s(6356752.3), s(6356752.3)), s(6356752.3));
    assert!(CoordinateTransform::defines_angle_of_attack(s(10.0), s(5.0)));
    assert!(!CoordinateTransform::defines_angle_of_attack(s(0.009), s(5.0)));
    assert!(!CoordinateTransform::defines_angle_of_attack(s(10.0), s(0.0009)));
    assert!(CoordinateTransform::defines_angle_of_attack(s(0.01), s(0.001)));
    assert!(CoordinateTransform::spans_angle(s(1.0), s(2.0)));
    assert!(!CoordinateTransform::spans_angle(s(0.0), s(2.0)));
    assert!(!CoordinateTransform::spans_angle(s(1.0), s(-2.0)));
    assert_eq!(CoordinateTransform::held_cosine(s(1.0000001)), s(1.0));
    assert_eq!(CoordinateTransform::held_cosine(s(-1.5)), s(-1.0));
    assert_eq!(CoordinateTransform::held_cosine(s(0.25)), s(0.25));
    let _ = (PointMassGravity, CoordinateTransform);
}

#[test]
fn last_maximum_passes_over_nan() {
    assert_eq!(last_maximum(&Vec::new()), None);
    assert_eq!(last_maximum(&axis(&[f64::NAN, f64::NAN])), None);
    assert_eq!(last_maximum(&axis(&[1.0])), Some(0));
    assert_eq!(last_maximum(&axis(&[1.0, 3.0, 2.0])), Some(1));
    assert_eq!(last_maximum(&axis(&[1.0, 3.0, 2.0, 3.0, 0.0])), Some(3));
    assert_eq!(last_maximum(&axis(&[f64::NAN, -5.0, f64::NAN, -7.0])), Some(1));
    assert_eq!(last_maximum(&axis(&[0.0, -0.0])), Some(1));
    assert_eq!(last_maximum(&axis(&[1.0, f64::INFINITY, f64::NAN])), Some(1));
}

#[test]
fn last_maximum_agrees_with_the_standard_search() {
    let values = [3.0, f64::NAN, 9.0, 4.0, 9.0, -1.0, f64::NAN, 9.0, 2.0];
    let want = values
        .iter()
        .enumerate()
        .filter(|(_, v)| !v.is_nan())
        .max_by(|a, b| a.1.partial_cmp(b.1).unwrap())
        .map(|(i, _)| i);
    assert_eq!(last_maximum(&axis(&values)), want);
}

#[test]
fn sim_error_speaks() {
    assert_eq!(SimError::Config("no stages".to_string()).message(), "Configuration error: no stages");
    assert_eq!(SimError::Integration("stalled".to_string()).message(), "Integration error: stalled");
    assert_eq!(SimError::Physics(String::new()).message(), "Physics error: ");
}
