use open_tsiolkovsky::ingest::{
    check_axis, checked_time_series_from_records, cn_surface_from_records, collect_surface_rows, contains_nan, level_axis, numeric_pairs,
    numeric_record, numeric_triples, surface_row, time_series_from_records, Field, TableError,
    CN_COLUMNS,
};
use open_tsiolkovsky::order::{is_sorted_before, stable_order};
use open_tsiolkovsky::records::{classify_record, read_records};
use open_tsiolkovsky::scalar::Scalar;
use open_tsiolkovsky::surface::{
    bilinear_index, cell_is_flat, corner_for, split_index, BilinearCell, Cell, Corner, SplitCell,
    SurfaceData2D, CELL_MIDDLE, MIN_CELL_WIDTH,
};
use open_tsiolkovsky::table::{
    first_bracket, first_profile_bracket, locate_clamped, locate_floored, locate_scanned,
    rows_coincide, Lookup, TimeSeriesData, MIN_INTERVAL,
};

fn s(x: f64) -> Scalar {
    Scalar::from_bits(x.to_bits())
}

fn f(x: Scalar) -> f64 {
    f64::from_bits(x.to_bits())
}

fn axis(xs: &[f64]) -> Vec<Scalar> {
    xs.iter().map(|x| s(*x)).collect()
}

fn blend(xs: &[Scalar], ys: &[Scalar], lookup: Lookup, t: f64, degenerate: bool) -> f64 {
    match lookup {
        Lookup::Empty => 0.0,
        Lookup::Row(k) => f(ys[k]),
        Lookup::Between(i) => {
            let dt = f(xs[i + 1]) - f(xs[i]);
            if degenerate && rows_coincide(s(dt)) {
                return f(ys[i]);
            }
            let alpha = (t - f(xs[i])) / dt;
            f(ys[i]) + alpha * (f(ys[i + 1]) - f(ys[i]))
        }
    }
}

fn interpolate(ts: &TimeSeriesData, t: f64) -> f64 {
    blend(&ts.time, &ts.values, ts.locate(s(t)), t, true)
}

fn linear_interpolate(y: f64, y_array: &[f64], x_array: &[f64]) -> f64 {
    let ys = axis(y_array);
    let xs = axis(x_array);
    blend(&ys, &xs, locate_clamped(&ys, s(y)), y, false)
}

fn fields(line: &str) -> Vec<Field> {
    line.split(',')
        .map(|token| {
            let token = token.trim();
            if token.is_empty() {
                Field::Blank
            } else {
                match token.parse::<f64>() {
                    Ok(v) => Field::Number(s(v)),
                    Err(_) => Field::Text,
                }
            }
        })
        .collect()
}

fn records(text: &str) -> Vec<Vec<Field>> {
    text.lines().map(fields).collect()
}

#[test]
fn io_test_time_series_interpolation() {
    let mut ts = TimeSeriesData::new();
    ts.time = axis(&[0.0, 10.0, 20.0, 30.0]);
    ts.values = axis(&[0.0, 100.0, 200.0, 300.0]);

    assert_eq!(interpolate(&ts, 0.0), 0.0);
    assert_eq!(interpolate(&ts, 10.0), 100.0);

    assert_eq!(interpolate(&ts, 5.0), 50.0);
    assert_eq!(interpolate(&ts, 15.0), 150.0);

    assert_eq!(interpolate(&ts, -10.0), 0.0);
    assert_eq!(interpolate(&ts, 40.0), 300.0);
}

#[test]
fn io_test_parse_time_series_from_str() {
    let csv = "time,value\n0,10\n1,20\n2,30\n";
    let rows: Vec<Vec<Field>> = read_records(csv)
        .unwrap()
        .iter()
        .map(|cells| {
            let numbers: Vec<Option<Scalar>> =
                cells.iter().map(|cell| cell.trim().parse::<f64>().ok().map(s)).collect();
            classify_record(cells, &numbers)
        })
        .collect();
    let ts = time_series_from_records(&rows);
    assert_eq!(ts.time.len(), 3);
    assert_eq!(f(ts.values[1]), 20.0);
}

#[test]
fn physics_test_linear_interpolation() {
    let y_vals = [0.0, 10.0, 20.0, 30.0];
    let x_vals = [0.0, 1.0, 4.0, 9.0];
    assert!((linear_interpolate(10.0, &y_vals, &x_vals) - 1.0).abs() <= 1e-12);
    assert!((linear_interpolate(15.0, &y_vals, &x_vals) - 2.5).abs() <= 1e-12);
    assert!((linear_interpolate(-5.0, &y_vals, &x_vals) - 0.0).abs() <= 1e-12);
    assert!((linear_interpolate(35.0, &y_vals, &x_vals) - 9.0).abs() <= 1e-12);
}

#[test]
fn atmosphere_test_linear_interpolation() {
    let y_vals = [0.0, 10.0, 20.0, 30.0];
    let x_vals = [0.0, 1.0, 4.0, 9.0];
    assert!((linear_interpolate(10.0, &y_vals, &x_vals) - 1.0).abs() <= 1e-12);
    assert!((linear_interpolate(15.0, &y_vals, &x_vals) - 2.5).abs() <= 1e-12);
    assert!((linear_interpolate(-5.0, &y_vals, &x_vals) - 0.0).abs() <= 1e-12);
    assert!((linear_interpolate(35.0, &y_vals, &x_vals) - 9.0).abs() <= 1e-12);
}

#[test]
fn clamped_lookup_names_rows() {
    let xs = axis(&[0.0, 10.0, 20.0, 30.0]);
    assert_eq!(locate_clamped(&Vec::new(), s(1.0)), Lookup::Empty);
    assert_eq!(locate_clamped(&xs, s(-1.0)), Lookup::Row(0));
    assert_eq!(locate_clamped(&xs, s(0.0)), Lookup::Row(0));
    assert_eq!(locate_clamped(&xs, s(30.0)), Lookup::Row(3));
    assert_eq!(locate_clamped(&xs, s(31.0)), Lookup::Row(3));
    assert_eq!(locate_clamped(&xs, s(0.5)), Lookup::Between(0));
    assert_eq!(locate_clamped(&xs, s(10.0)), Lookup::Between(0));
    assert_eq!(locate_clamped(&xs, s(10.5)), Lookup::Between(1));
    assert_eq!(locate_clamped(&xs, s(29.0)), Lookup::Between(2));
    assert_eq!(locate_clamped(&xs, s(f64::NAN)), Lookup::Row(3));
    assert_eq!(locate_clamped(&axis(&[5.0]), s(7.0)), Lookup::Row(0));
    // An axis that goes back: the ends are held before any pair is looked for.
    assert_eq!(locate_clamped(&axis(&[0.0, 20.0, 18.0, 30.0, 12.0]), s(15.0)), Lookup::Row(4));
    assert_eq!(locate_clamped(&axis(&[10.0, 5.0, 30.0, 12.0]), s(11.0)), Lookup::Between(1));
    assert_eq!(locate_clamped(&axis(&[10.0, 5.0, 4.0, 12.0]), s(11.0)), Lookup::Between(2));
    assert_eq!(locate_clamped(&axis(&[10.0, 5.0, 4.0, 12.0]), s(13.0)), Lookup::Row(3));
    assert_eq!(locate_clamped(&axis(&[10.0, 14.0, 4.0, 16.0, 6.0]), s(15.0)), Lookup::Row(4));
    // No pair encloses the point: the last row answers.
    assert_eq!(locate_clamped(&axis(&[10.0, f64::NAN, 20.0]), s(15.0)), Lookup::Row(2));
    assert_eq!(locate_clamped(&axis(&[10.0, 12.0, 4.0, 6.0, 20.0]), s(13.0)), Lookup::Between(3));
}

#[test]
fn first_bracket_is_the_first() {
    let xs = axis(&[0.0, 5.0, 5.0, 5.0, 9.0]);
    assert_eq!(first_bracket(&xs, s(5.0)), Some(0));
    assert_eq!(first_bracket(&xs, s(6.0)), Some(3));
    assert_eq!(first_bracket(&xs, s(10.0)), None);
    assert_eq!(first_bracket(&xs, s(f64::NAN)), None);
    assert_eq!(first_bracket(&axis(&[1.0]), s(1.0)), None);
    assert_eq!(first_bracket(&Vec::new(), s(1.0)), None);
}

#[test]
fn profile_lookups_differ_at_the_edges() {
    let rows: Vec<(Scalar, Scalar, Scalar)> =
        [(0.0, 0.0, 90.0), (10.0, 45.0, 85.0), (20.0, 90.0, 80.0)]
            .iter()
            .map(|r| (s(r.0), s(r.1), s(r.2)))
            .collect();
    let none: Vec<(Scalar, Scalar, Scalar)> = Vec::new();
    assert_eq!(locate_scanned(&none, s(1.0)), Lookup::Empty);
    assert_eq!(locate_floored(&none, s(1.0)), Lookup::Empty);
    assert_eq!(first_profile_bracket(&rows, s(10.0)), Some(0));
    assert_eq!(first_profile_bracket(&rows, s(10.5)), Some(1));
    assert_eq!(first_profile_bracket(&rows, s(25.0)), None);

    // At the first row the scan finds the first pair, the floor holds the row.
    assert_eq!(locate_scanned(&rows, s(0.0)), Lookup::Between(0));
    assert_eq!(locate_floored(&rows, s(0.0)), Lookup::Row(0));
    assert_eq!(locate_scanned(&rows, s(-5.0)), Lookup::Row(0));
    assert_eq!(locate_floored(&rows, s(-5.0)), Lookup::Row(0));
    assert_eq!(locate_scanned(&rows, s(15.0)), Lookup::Between(1));
    assert_eq!(locate_floored(&rows, s(15.0)), Lookup::Between(1));
    assert_eq!(locate_scanned(&rows, s(20.0)), Lookup::Between(1));
    assert_eq!(locate_floored(&rows, s(20.0)), Lookup::Between(1));
    assert_eq!(locate_scanned(&rows, s(25.0)), Lookup::Row(2));
    assert_eq!(locate_floored(&rows, s(25.0)), Lookup::Row(2));
    assert_eq!(locate_scanned(&rows, s(f64::NAN)), Lookup::Row(2));
    assert_eq!(locate_floored(&rows, s(f64::NAN)), Lookup::Row(2));
}

#[test]
fn series_from_pairs_keeps_rows_in_order() {
    let ts = TimeSeriesData::from_pairs(vec![(s(2.0), s(20.0)), (s(1.0), s(10.0)), (s(3.0), s(30.0))]);
    assert_eq!(ts.time, axis(&[2.0, 1.0, 3.0]));
    assert_eq!(ts.values, axis(&[20.0, 10.0, 30.0]));
    let copy = ts.duplicate();
    assert_eq!(copy.time, ts.time);
    assert_eq!(copy.values, ts.values);
    let empty = TimeSeriesData::from_pairs(Vec::new());
    assert_eq!(empty.time.len(), 0);
    assert_eq!(TimeSeriesData::default().values.len(), 0);
    assert_eq!(empty.locate(s(1.0)), Lookup::Empty);
}

fn unit_surface() -> SurfaceData2D {
    SurfaceData2D {
        x: axis(&[0.0, 1.0]),
        y: axis(&[0.0, 1.0]),
        z: vec![axis(&[1.0, 2.0]), axis(&[3.0, 5.0])],
    }
}

fn bilinear(surface: &SurfaceData2D, xv: f64, yv: f64) -> f64 {
    let Some(BilinearCell { cell: Cell { i, j }, x, y }) = surface.cell(s(xv), s(yv)) else {
        return 0.0;
    };
    let (x0, x1) = (f(surface.x[i]), f(surface.x[i + 1]));
    let (y0, y1) = (f(surface.y[j]), f(surface.y[j + 1]));
    let tx = if cell_is_flat(s(x1 - x0)) { 0.0 } else { (f(x) - x0) / (x1 - x0) };
    let ty = if cell_is_flat(s(y1 - y0)) { 0.0 } else { (f(y) - y0) / (y1 - y0) };
    let z = |a: usize, b: usize| f(surface.value_at(a, b));
    let z0 = z(i, j) + (z(i + 1, j) - z(i, j)) * tx;
    let z1 = z(i, j + 1) + (z(i + 1, j + 1) - z(i, j + 1)) * tx;
    z0 + (z1 - z0) * ty
}

fn triangular(surface: &SurfaceData2D, mach: f64, angle: f64) -> f64 {
    let Some(SplitCell { cell: Cell { i, j }, x, y }) = surface.split_cell(s(mach), s(angle)) else {
        return 0.0;
    };
    let (x0, x1) = (f(surface.x[i]), f(surface.x[i + 1]));
    let (y0, y1) = (f(surface.y[j]), f(surface.y[j + 1]));
    let dx = if cell_is_flat(s(x1 - x0)) { 0.0 } else { (f(x) - x0) / (x1 - x0) };
    let dy = if cell_is_flat(s(y1 - y0)) { 0.0 } else { (f(y) - y0) / (y1 - y0) };
    let z = |a: usize, b: usize| f(surface.value_at(a, b));
    match corner_for(s(dx), s(dy)) {
        Corner::LowLow => z(i, j) + (z(i + 1, j) - z(i, j)) * dx + (z(i, j + 1) - z(i, j)) * dy,
        Corner::LowHigh => {
            z(i, j + 1) + (z(i + 1, j + 1) - z(i, j + 1)) * dx + (z(i, j + 1) - z(i, j)) * (dy - 1.0)
        }
        Corner::HighLow => {
            z(i + 1, j) + (z(i + 1, j) - z(i, j)) * (dx - 1.0) + (z(i + 1, j + 1) - z(i + 1, j)) * dy
        }
        Corner::HighHigh => {
            z(i + 1, j + 1)
                + (z(i + 1, j + 1) - z(i, j + 1)) * (dx - 1.0)
                + (z(i + 1, j + 1) - z(i + 1, j)) * (dy - 1.0)
        }
    }
}

#[test]
fn unit_cell_reproduces_corner_values() {
    let surface = unit_surface();
    for (x, y, want) in [(0.0, 0.0, 1.0), (0.0, 1.0, 2.0), (1.0, 0.0, 3.0), (1.0, 1.0, 5.0)] {
        assert_eq!(bilinear(&surface, x, y), want, "bilinear at ({x}, {y})");
        assert_eq!(triangular(&surface, x, y), want, "triangular at ({x}, {y})");
    }
    assert_eq!(bilinear(&surface, 0.5, 0.5), 2.75);
    // Outside the grid both schemes hold the edge value.
    assert_eq!(bilinear(&surface, -3.0, 0.0), 1.0);
    assert_eq!(bilinear(&surface, 9.0, 9.0), 5.0);
    assert_eq!(bilinear(&surface, 0.5, -7.0), 2.0);
    assert_eq!(triangular(&surface, 0.25, 0.25), 1.0 + 2.0 * 0.25 + 1.0 * 0.25);
    // Outside the grid the triangular scheme holds the edge value.
    assert_eq!(triangular(&surface, -3.0, 0.0), 1.0);
    assert_eq!(triangular(&surface, 9.0, 9.0), 5.0);
}

#[test]
fn surface_cells_are_found() {
    let xs = axis(&[0.0, 1.0, 2.0, 4.0]);
    assert_eq!(bilinear_index(&xs, s(-1.0)), 0);
    assert_eq!(bilinear_index(&xs, s(0.0)), 0);
    assert_eq!(bilinear_index(&xs, s(1.0)), 0);
    assert_eq!(bilinear_index(&xs, s(1.5)), 1);
    assert_eq!(bilinear_index(&xs, s(2.0)), 1);
    assert_eq!(bilinear_index(&xs, s(3.0)), 2);
    assert_eq!(bilinear_index(&xs, s(4.0)), 2);
    assert_eq!(bilinear_index(&xs, s(9.0)), 2);
    assert_eq!(bilinear_index(&xs, s(f64::NAN)), 0);

    assert_eq!(split_index(&xs, s(0.0)), 0);
    assert_eq!(split_index(&xs, s(0.5)), 0);
    assert_eq!(split_index(&xs, s(1.0)), 1);
    assert_eq!(split_index(&xs, s(1.5)), 1);
    assert_eq!(split_index(&xs, s(2.0)), 2);
    assert_eq!(split_index(&xs, s(4.0)), 2);
    assert_eq!(split_index(&xs, s(f64::NAN)), 2);

    let surface = SurfaceData2D {
        x: axis(&[0.0, 1.0, 2.0]),
        y: axis(&[0.0, 10.0, 20.0]),
        z: vec![axis(&[0.0, 1.0, 2.0]), axis(&[3.0, 4.0, 5.0]), axis(&[6.0, 7.0, 8.0])],
    };
    assert_eq!(
        surface.cell(s(1.5), s(5.0)),
        Some(BilinearCell { cell: Cell { i: 1, j: 0 }, x: s(1.5), y: s(5.0) })
    );
    assert_eq!(
        surface.cell(s(-4.0), s(99.0)),
        Some(BilinearCell { cell: Cell { i: 0, j: 1 }, x: s(0.0), y: s(20.0) })
    );
    assert_eq!(
        surface.split_cell(s(5.0), s(-2.0)),
        Some(SplitCell { cell: Cell { i: 1, j: 0 }, x: s(2.0), y: s(0.0) })
    );
    assert_eq!(
        surface.split_cell(s(1.0), s(10.0)),
        Some(SplitCell { cell: Cell { i: 1, j: 1 }, x: s(1.0), y: s(10.0) })
    );
    assert_eq!(surface.value_at(2, 1), s(7.0));
    let copy = surface.duplicate();
    assert_eq!(copy.x, surface.x);
    assert_eq!(copy.y, surface.y);
    assert_eq!(copy.z, surface.z);

    let thin = SurfaceData2D { x: axis(&[0.0]), y: axis(&[0.0, 1.0]), z: vec![axis(&[1.0, 2.0])] };
    assert_eq!(thin.cell(s(0.0), s(0.0)), None);
    assert_eq!(thin.split_cell(s(0.0), s(0.0)), None);
    let empty = SurfaceData2D { x: Vec::new(), y: Vec::new(), z: Vec::new() };
    assert_eq!(empty.cell(s(0.0), s(0.0)), None);
}

#[test]
fn corner_follows_the_half_of_the_cell() {
    assert_eq!(CELL_MIDDLE, 0.5f64.to_bits());
    assert_eq!(corner_for(s(0.0), s(0.0)), Corner::LowLow);
    assert_eq!(corner_for(s(0.49), s(0.5)), Corner::LowHigh);
    assert_eq!(corner_for(s(0.5), s(0.49)), Corner::HighLow);
    assert_eq!(corner_for(s(0.5), s(0.5)), Corner::HighHigh);
    assert_eq!(corner_for(s(1.0), s(1.0)), Corner::HighHigh);
    assert_eq!(corner_for(s(f64::NAN), s(0.0)), Corner::HighLow);
}

#[test]
fn stable_order_sorts_and_keeps_ties() {
    assert_eq!(stable_order(&Vec::new()), Vec::<usize>::new());
    assert_eq!(stable_order(&axis(&[3.0, 1.0, 2.0])), vec![1, 2, 0]);
    assert_eq!(stable_order(&axis(&[2.0, 1.0, 2.0, 1.0, 0.5])), vec![4, 1, 3, 0, 2]);
    assert_eq!(stable_order(&axis(&[0.0, -0.0, 0.0])), vec![0, 1, 2]);
    assert_eq!(
        stable_order(&axis(&[f64::NAN, 1.0, f64::INFINITY, f64::NAN, -1.0])),
        vec![4, 1, 2, 0, 3]
    );
    assert!(is_sorted_before(s(1.0), s(2.0)));
    assert!(!is_sorted_before(s(2.0), s(2.0)));
    assert!(is_sorted_before(s(2.0), s(f64::NAN)));
    assert!(!is_sorted_before(s(f64::NAN), s(2.0)));
    assert!(!is_sorted_before(s(f64::NAN), s(f64::NAN)));
}

#[test]
fn stable_order_agrees_with_the_standard_sort() {
    let keys = [5.0, 3.0, 9.5, 3.0, -2.0, 0.0, 7.25, -0.0, 3.0, 9.5, 1e-3, -1e9];
    let mut want: Vec<usize> = (0..keys.len()).collect();
    want.sort_by(|&i, &j| keys[i].partial_cmp(&keys[j]).unwrap());
    assert_eq!(stable_order(&axis(&keys)), want);
}

#[test]
fn numeric_records_are_told_from_text() {
    assert_eq!(numeric_record(&fields("1, 2.5"), 2), Some(axis(&[1.0, 2.5])));
    assert_eq!(numeric_record(&fields("1, 2.5, x"), 2), Some(axis(&[1.0, 2.5])));
    assert_eq!(numeric_record(&fields("1, 2.5, 3"), 3), Some(axis(&[1.0, 2.5, 3.0])));
    assert_eq!(numeric_record(&fields("1"), 2), None);
    assert_eq!(numeric_record(&fields("1,"), 2), None);
    assert_eq!(numeric_record(&fields("time,value"), 2), None);
    assert_eq!(numeric_record(&fields("1,abc"), 2), None);
    assert_eq!(numeric_record(&fields("anything"), 0), Some(Vec::new()));

    let recs = records("0.0,1000.0\nnote,here\n10.0,2000.0\n\n20.0,3000.0,extra");
    assert_eq!(
        numeric_pairs(&recs),
        vec![(s(0.0), s(1000.0)), (s(10.0), s(2000.0)), (s(20.0), s(3000.0))]
    );
    let recs = records("0.0,0.0,90.0\n10.0,45.0\n10.0,45.0,85.0\nt,a,e\n20.0,90.0,80.0");
    assert_eq!(
        numeric_triples(&recs),
        vec![(s(0.0), s(0.0), s(90.0)), (s(10.0), s(45.0), s(85.0)), (s(20.0), s(90.0), s(80.0))]
    );
}

#[test]
fn surface_rows_are_fitted_to_fifteen_columns() {
    assert_eq!(CN_COLUMNS, 15);
    assert_eq!(surface_row(&fields("mach,1,2")), None);
    assert_eq!(surface_row(&Vec::new()), None);
    let short = surface_row(&fields("1, 2, 3")).unwrap();
    assert_eq!(short.len(), 15);
    assert_eq!(short[..3], axis(&[1.0, 2.0, 3.0])[..]);
    assert!(short[3..].iter().all(|v| *v == s(3.0)));
    let blank = surface_row(&fields("")).unwrap();
    assert_eq!(blank, axis(&[0.0; 15]));
    let gaps = surface_row(&fields("1,,3,")).unwrap();
    assert_eq!(gaps[..4], axis(&[1.0, 0.0, 3.0, 0.0])[..]);
    assert!(gaps[4..].iter().all(|v| *v == s(0.0)));
    let long: Vec<f64> = (0..20).map(|k| k as f64).collect();
    let line: Vec<String> = long.iter().map(|v| v.to_string()).collect();
    let fitted = surface_row(&fields(&line.join(","))).unwrap();
    assert_eq!(fitted, axis(&long[..15]));
    // Text beyond the width still spoils the record.
    let mut spoiled = line.clone();
    spoiled.push("x".to_string());
    assert_eq!(surface_row(&fields(&spoiled.join(","))), None);

    let rows = collect_surface_rows(&records("mach,a\n0,1\nx\n2,3,4"));
    assert_eq!(rows.len(), 2);
    assert_eq!(rows[0][..2], axis(&[0.0, 1.0])[..]);
    assert_eq!(rows[1][..3], axis(&[2.0, 3.0, 4.0])[..]);
}

#[test]
fn axis_is_levelled() {
    assert_eq!(level_axis(&axis(&[0.0, 5.0, 4.0, 6.0, 6.0, 1.0])), axis(&[0.0, 5.0, 5.0, 6.0, 6.0, 6.0]));
    assert_eq!(level_axis(&Vec::new()), Vec::new());
    assert!(contains_nan(&axis(&[0.0, f64::NAN])));
    assert!(!contains_nan(&axis(&[0.0, f64::INFINITY])));
    assert!(!contains_nan(&Vec::new()));
}

#[test]
fn cn_surface_is_shaped_from_records() {
    let text = "\
mach[-],0,2,4,6,8,10,12,14,16,18,20,22,24,26
0.5,0.0,0.1,0.2,0.3,0.4,0.5,0.6,0.7,0.8,0.9,1.0,1.1,1.2,1.3
2.0,2.0,2.1,2.2
0.2,9.0,9.1,9.2,9.3,9.4,9.5,9.6,9.7,9.8,9.9,9.95,9.96,9.97,9.98,77,78
2.0,3.0,3.1

0.0,0,5,5,4,8,10,12,14,16,18,20,22,24,20
";
    // The heading is text and drops out; the first numeric record gives
    // the angles.
    let mut recs = records(text);
    let angles = recs.pop().unwrap();
    recs.insert(1, angles);
    let surface = cn_surface_from_records(&recs).unwrap();
    assert_eq!(
        surface.y,
        axis(&[0.0, 5.0, 5.0, 5.0, 8.0, 10.0, 12.0, 14.0, 16.0, 18.0, 20.0, 22.0, 24.0, 24.0])
    );
    // Rows by ascending Mach number; the blank line is a row of zeros; the
    // two rows at Mach 2 keep their order.
    assert_eq!(surface.x, axis(&[0.0, 0.2, 0.5, 2.0, 2.0]));
    assert_eq!(surface.z.len(), 5);
    assert_eq!(surface.z[0], axis(&[0.0; 14]));
    assert_eq!(
        surface.z[1],
        axis(&[9.0, 9.1, 9.2, 9.3, 9.4, 9.5, 9.6, 9.7, 9.8, 9.9, 9.95, 9.96, 9.97, 9.98])
    );
    assert_eq!(surface.z[2][0], s(0.0));
    assert_eq!(surface.z[2][13], s(1.3));
    assert_eq!(surface.z[3][..3], axis(&[2.0, 2.1, 2.2])[..]);
    assert!(surface.z[3][3..].iter().all(|v| *v == s(2.2)));
    assert_eq!(surface.z[4][..2], axis(&[3.0, 3.1])[..]);
    assert!(surface.z[4][2..].iter().all(|v| *v == s(3.1)));
    assert!(surface.z.iter().all(|row| row.len() == 14));
}

#[test]
fn cn_surface_needs_three_rows() {
    assert_eq!(cn_surface_from_records(&Vec::new()).unwrap_err(), TableError::TooShort);
    assert_eq!(
        cn_surface_from_records(&records("mach,a,b\n0,1,2\n1,2,3")).unwrap_err(),
        TableError::TooShort
    );
    assert!(cn_surface_from_records(&records("0,1,2\n1,2,3\n2,3,4")).is_ok());
}

#[test]
fn cn_surface_rejects_an_axis_with_a_nan() {
    assert_eq!(
        cn_surface_from_records(&records("0,1,NaN\n1,2,3\n2,3,4")).unwrap_err(),
        TableError::AxisNotANumber
    );
    assert_eq!(
        cn_surface_from_records(&records("0,1,2\nNaN,2,3\n2,3,4")).unwrap_err(),
        TableError::AxisNotANumber
    );
    // A not-a-number among the values, or in the corner that is ignored,
    // is no fault of an axis.
    assert!(cn_surface_from_records(&records("NaN,1,2\n1,NaN,3\n2,3,4")).is_ok());
}

#[test]
fn axis_must_hold_numbers_that_do_not_descend() {
    assert_eq!(check_axis(&Vec::new()), Ok(()));
    assert_eq!(check_axis(&axis(&[1.0])), Ok(()));
    assert_eq!(check_axis(&axis(&[0.0, 0.0, 1.0, f64::INFINITY])), Ok(()));
    assert_eq!(check_axis(&axis(&[0.0, -0.0, 0.0])), Ok(()));
    assert_eq!(check_axis(&axis(&[0.0, 2.0, 1.0])), Err(TableError::AxisDescends));
    assert_eq!(check_axis(&axis(&[0.0, f64::NAN, 1.0])), Err(TableError::AxisNotANumber));
    assert_eq!(check_axis(&axis(&[2.0, 1.0, f64::NAN])), Err(TableError::AxisNotANumber));

    let good = checked_time_series_from_records(&records("0,10\nt,v\n1,20\n1,30\n")).unwrap();
    assert_eq!(good.time, axis(&[0.0, 1.0, 1.0]));
    assert_eq!(good.values, axis(&[10.0, 20.0, 30.0]));
    assert_eq!(
        checked_time_series_from_records(&records("0,10\n2,20\n1,30\n")).unwrap_err(),
        TableError::AxisDescends
    );
    assert_eq!(
        checked_time_series_from_records(&records("0,10\nNaN,20\n")).unwrap_err(),
        TableError::AxisNotANumber
    );
    // A value that is not a number is no fault of the axis.
    assert!(checked_time_series_from_records(&records("0,NaN\n1,20\n")).is_ok());
}

#[test]
fn triangular_lookup_reproduces_every_grid_point_and_holds_the_edges() {
    let surface = SurfaceData2D {
        x: axis(&[0.0, 0.5, 2.0, 3.0]),
        y: axis(&[0.0, 10.0, 25.0]),
        z: vec![
            axis(&[0.1, 1.3, 2.7]),
            axis(&[3.9, 4.2, 5.5]),
            axis(&[6.1, 7.7, 8.3]),
            axis(&[9.4, 10.6, 11.8]),
        ],
    };
    for i in 0..4 {
        for j in 0..3 {
            let (x, y) = (f(surface.x[i]), f(surface.y[j]));
            assert_eq!(triangular(&surface, x, y), f(surface.z[i][j]), "at ({x}, {y})");
            let found = surface.split_cell(s(x), s(y)).unwrap();
            assert_eq!(found.cell, Cell { i: i.min(2), j: j.min(1) });
        }
    }
    let outside: [(f64, f64); 6] =
        [(-1.0, 5.0), (7.0, 5.0), (1.0, -3.0), (1.0, 40.0), (-2.0, 99.0), (f64::INFINITY, 0.0)];
    for (a, b) in outside {
        let held = (a.clamp(0.0, 3.0), b.clamp(0.0, 25.0));
        assert_eq!(surface.split_cell(s(a), s(b)), surface.split_cell(s(held.0), s(held.1)));
        assert_eq!(triangular(&surface, a, b), triangular(&surface, held.0, held.1));
    }
}

#[test]
fn narrow_intervals_count_as_one_place() {
    assert_eq!(MIN_INTERVAL, 1.0e-10f64.to_bits());
    assert_eq!(MIN_CELL_WIDTH, 1.0e-12f64.to_bits());
    assert!(rows_coincide(s(0.0)));
    assert!(rows_coincide(s(-0.5e-10)));
    assert!(!rows_coincide(s(1.0e-10)));
    assert!(!rows_coincide(s(f64::NAN)));
    assert!(cell_is_flat(s(0.5e-12)));
    assert!(cell_is_flat(s(-0.5e-12)));
    assert!(!cell_is_flat(s(1.0e-12)));
    assert!(!cell_is_flat(s(1.0)));
}
