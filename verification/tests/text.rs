use open_tsiolkovsky::client::{ClientConfig, ClientDateTime, ClientLaunch, ClientSimulation};
use open_tsiolkovsky::client::{ClientAerodynamics, ClientAttitude, ClientIntegrator, ClientWind};
use open_tsiolkovsky::config::IntegratorMethod;
use open_tsiolkovsky::files::blank;
use open_tsiolkovsky::ingest::{time_series_from_records, Field};
use open_tsiolkovsky::records::{classify_record, read_records, RecordsError};
use open_tsiolkovsky::scalar::Scalar;
use open_tsiolkovsky::table::TimeSeriesData;
use open_tsiolkovsky::text::{
    split_fields, split_records, Span, CARRIAGE_RETURN, COMMA, LINE_FEED,
};
use open_tsiolkovsky::value::LEADING_BIT;

fn s(x: f64) -> Scalar {
    Scalar::from_bits(x.to_bits())
}

fn texts() -> Vec<&'static str> {
    vec![
        "",
        "\n",
        "\n\n",
        "a",
        "a\n",
        "a\nb",
        "a,b\nc,d\n",
        "a,b\r\nc,d\r\n",
        "a,b\r\nc,d\r",
        "\r\n",
        "\r",
        "a\r\r\n",
        ",",
        ",,\n,",
        "time,value\n0,10\n1,20\n2,30\n",
        "mach[-],0,2\n0.5, 0.0 ,0.1\n\n2.0,2.0\n",
        "1,2,3,\n",
        " \u{3000}a\u{a0},é\n,",
    ]
}

fn cut(text: &str) -> Vec<Vec<String>> {
    split_records(text.as_bytes())
        .iter()
        .map(|record| {
            record
                .iter()
                .map(|span| String::from_utf8(text.as_bytes()[span.start..span.end].to_vec()).unwrap())
                .collect()
        })
        .collect()
}

#[test]
fn records_are_the_lines_and_fields_lie_between_commas() {
    for text in texts() {
        let want: Vec<Vec<String>> =
            text.lines().map(|line| line.split(',').map(|t| t.to_string()).collect()).collect();
        assert_eq!(cut(text), want, "{text:?}");
    }
}

#[test]
fn records_by_example() {
    assert_eq!((LINE_FEED, CARRIAGE_RETURN, COMMA), (b'\n', b'\r', b','));
    assert_eq!(split_records(b""), Vec::<Vec<Span>>::new());
    assert_eq!(split_records(b"\n"), vec![vec![Span { start: 0, end: 0 }]]);
    assert_eq!(
        split_records(b"ab,c\r\n,d"),
        vec![
            vec![Span { start: 0, end: 2 }, Span { start: 3, end: 4 }],
            vec![Span { start: 6, end: 6 }, Span { start: 7, end: 8 }],
        ]
    );
    assert_eq!(
        split_fields(b"1,22,,333", 2, 9),
        vec![Span { start: 2, end: 4 }, Span { start: 5, end: 5 }, Span { start: 6, end: 9 }]
    );
    assert_eq!(split_fields(b"1,22", 4, 4), vec![Span { start: 4, end: 4 }]);
    assert_eq!(split_fields(b"1,22", 0, 1), vec![Span { start: 0, end: 1 }]);
}

fn fields_of_text(text: &str) -> Vec<Vec<Field>> {
    split_records(text.as_bytes())
        .iter()
        .map(|record| {
            record
                .iter()
                .map(|span| {
                    let token = std::str::from_utf8(&text.as_bytes()[span.start..span.end]).unwrap();
                    Field::classify(blank(token), token.trim().parse::<f64>().ok().map(s))
                })
                .collect()
        })
        .collect()
}

#[test]
fn fields_are_classified() {
    assert_eq!(Field::classify(true, None), Field::Blank);
    assert_eq!(Field::classify(true, Some(s(1.0))), Field::Blank);
    assert_eq!(Field::classify(false, Some(s(1.0))), Field::Number(s(1.0)));
    assert_eq!(Field::classify(false, None), Field::Text);
    assert_eq!(
        fields_of_text("time, value\n 0 ,1e1\n,x\n"),
        vec![
            vec![Field::Text, Field::Text],
            vec![Field::Number(s(0.0)), Field::Number(s(10.0))],
            vec![Field::Blank, Field::Text],
        ]
    );
}

fn plain_rocket() -> open_tsiolkovsky::rocket::Rocket {
    ClientConfig {
        name: "cn".to_string(),
        simulation: ClientSimulation {
            duration_s: s(10.0),
            output_step_s: s(1.0),
            air_density_percent: s(0.0),
            integrator: ClientIntegrator { method: IntegratorMethod::Rk4, rk4_step_s: None },
        },
        launch: ClientLaunch {
            latitude_deg: s(0.0),
            longitude_deg: s(0.0),
            altitude_m: s(0.0),
            velocity_ned_mps: [s(0.0); 3],
            datetime_utc: ClientDateTime { year: 2023, month: 1, day: 1, hour: 0, minute: 0, second: 0 },
        },
        stages: Vec::new(),
        stage: None,
        aerodynamics: ClientAerodynamics {
            body_diameter_m: s(1.0),
            cn_constant: s(0.1),
            cn_multiplier: s(1.0),
            cn_profile: Vec::new(),
            ca_constant: s(0.2),
            ca_multiplier: s(1.0),
            ca_profile: Vec::new(),
            ballistic_coefficient: s(100.0),
        },
        attitude: ClientAttitude {
            elevation_deg: s(90.0),
            azimuth_deg: s(0.0),
            pitch_offset_deg: s(0.0),
            yaw_offset_deg: s(0.0),
            roll_offset_deg: s(0.0),
            gyro_bias_deg_h: [s(0.0); 3],
            profile: Vec::new(),
        },
        wind: ClientWind { speed_mps: s(0.0), direction_deg: s(0.0), profile: Vec::new() },
    }
    .into_rocket()
}

#[test]
fn cn_file_is_a_surface_or_else_a_series() {
    let surface_text = "mach,angle\n0,0,5\n0.0,0.1,0.2\n1.0,0.3,0.4\n";
    let series_text = "mach,cn\n0.0,0.1\n";
    let series_of = |text: &'static str| {
        move || -> Result<TimeSeriesData, String> {
            let rows: Vec<Vec<Field>> = fields_of_text(text).into_iter().skip(1).collect();
            Ok(time_series_from_records(&rows))
        }
    };

    let mut rocket = plain_rocket();
    rocket.cn_data = Some(TimeSeriesData::new());
    let never = || -> Result<TimeSeriesData, String> { unreachable!() };
    assert_eq!(rocket.attach_cn(&fields_of_text(surface_text), never), Ok(()));
    assert!(rocket.cn_data.is_none());
    let surface = rocket.cn_surface.as_ref().unwrap();
    assert_eq!(surface.x, vec![s(0.0), s(1.0)]);
    assert_eq!(surface.y[..2], [s(0.0), s(5.0)]);
    assert_eq!(surface.z[1][..2], [s(0.3), s(0.4)]);

    let mut rocket = plain_rocket();
    assert_eq!(rocket.attach_cn(&fields_of_text(series_text), series_of(series_text)), Ok(()));
    assert!(rocket.cn_surface.is_none());
    let series = rocket.cn_data.as_ref().unwrap();
    assert_eq!(series.time, vec![s(0.0)]);
    assert_eq!(series.values, vec![s(0.1)]);

    let mut rocket = plain_rocket();
    let fails = || -> Result<TimeSeriesData, String> { Err("unreadable".to_string()) };
    assert_eq!(rocket.attach_cn(&fields_of_text(series_text), fails), Err("unreadable".to_string()));
    assert!(rocket.cn_surface.is_none());
    assert!(rocket.cn_data.is_none());
}

#[test]
fn whole_numbers_are_encoded_as_the_hardware_encodes_them() {
    assert_eq!(LEADING_BIT, 1u64 << 52);
    let mut n: i64 = -70_000;
    while n <= 70_000 {
        assert_eq!(Scalar::from_i32(n as i32).to_bits(), (n as f64).to_bits(), "{n}");
        n += 1;
    }
    for n in [i32::MIN, i32::MIN + 1, -1_000_000_007, 1_000_000_007, i32::MAX - 1, i32::MAX, 3600, 84852]
    {
        assert_eq!(Scalar::from_i32(n).to_bits(), (n as f64).to_bits(), "{n}");
    }
    assert_eq!(Scalar::from_i32(0), s(0.0));
    assert_eq!(Scalar::from_i32(-1), s(-1.0));
}

#[test]
fn records_with_a_heading_are_read_as_the_csv_crate_reads_them() {
    let rows = read_records("time,value\n0,10\n1,\"2,0\"\n \"x\" , \n").unwrap();
    assert_eq!(
        rows,
        vec![
            vec!["0".to_string(), "10".to_string()],
            vec!["1".to_string(), "2,0".to_string()],
            vec![" \"x\" ".to_string(), " ".to_string()],
        ]
    );
    assert_eq!(read_records("").unwrap(), Vec::<Vec<String>>::new());
    assert_eq!(read_records("time,value\n").unwrap(), Vec::<Vec<String>>::new());
    // A record with more fields than the heading is malformed.
    match read_records("time,value\n0,10\n1,20,30\n") {
        Err(RecordsError::Malformed(account)) => assert!(!account.is_empty()),
        Ok(rows) => panic!("read {rows:?}"),
    }
    let cells = vec!["1.5".to_string(), "  ".to_string(), "abc".to_string(), String::new()];
    let numbers = vec![Some(s(1.5)), None, None, Some(s(7.0))];
    assert_eq!(
        classify_record(&cells, &numbers),
        vec![Field::Number(s(1.5)), Field::Blank, Field::Text, Field::Blank]
    );
}
