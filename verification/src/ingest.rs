//! From the fields of tabular text to tables.
//!
//! The caller splits the text into records and fields and reads each field
//! as a number where it is one; what is done with the fields is decided
//! here: which records count, how rows are fitted to the width of a table,
//! how axes are put in order.
use crate::order::{is_stable_order, precedes, stable_order};
use crate::scalar::Scalar;
use crate::surface::SurfaceData2D;
use crate::table::{ascending, TimeSeriesData};
use vstd::prelude::*;

verus! {

/// The columns of a normal-force table: the Mach number and fourteen
/// angles.
pub const CN_COLUMNS: usize = 15;

/// One field of a record, after surrounding blanks were taken off.
#[derive(Clone, Copy, Debug, PartialEq, Eq, Structural)]
pub enum Field {
    /// Nothing was left.
    Blank,
    /// The field reads as this number.
    Number(Scalar),
    /// The field does not read as a number.
    Text,
}

impl Field {
    /// What a field is, given whether it is white space throughout and
    /// the number it reads as, where it reads as one.
    pub fn classify(blank: bool, number: Option<Scalar>) -> (field: Field)
        ensures
            field == if blank {
                Field::Blank
            } else {
                match number {
                    Some(v) => Field::Number(v),
                    None => Field::Text,
                }
            },
    {
        if blank {
            Field::Blank
        } else {
            match number {
                Some(v) => Field::Number(v),
                None => Field::Text,
            }
        }
    }
}

/// Why records do not make a table.
#[derive(Clone, Copy, Debug, PartialEq, Eq, Structural)]
pub enum TableError {
    /// Fewer than three rows: the angles and two rows of values are the
    /// least.
    TooShort,
    /// An axis holds a not-a-number.
    AxisNotANumber,
    /// An axis descends.
    AxisDescends,
}

/// What is wrong with an axis whose points must be numbers that do not
/// descend, if anything is.
pub open spec fn axis_fault(axis: Seq<Scalar>) -> Option<TableError> {
    if has_nan(axis) {
        Some(TableError::AxisNotANumber)
    } else if !ascending(axis) {
        Some(TableError::AxisDescends)
    } else {
        None
    }
}

/// Checks that the points of an axis are numbers and do not descend.
pub fn check_axis(axis: &Vec<Scalar>) -> (r: Result<(), TableError>)
    ensures
        r is Ok <==> axis_fault(axis@) is None,
        r is Err ==> Some(r->Err_0) == axis_fault(axis@),
{
    if contains_nan(axis) {
        return Err(TableError::AxisNotANumber);
    }
    let mut k: usize = 1;
    while k < axis.len()
        invariant
            1 <= k,
            !has_nan(axis@),
            forall|i: int, j: int| 0 <= i <= j < k && j < axis@.len() ==> axis@[i].le(axis@[j]),
        decreases axis@.len() - k,
    {
        if axis[k].lt(axis[k - 1]) {
            assert(!axis@[k - 1].le(axis@[k as int]));
            return Err(TableError::AxisDescends);
        }
        assert forall|i: int, j: int| 0 <= i <= j < k + 1 && j < axis@.len() implies axis@[i].le(
            axis@[j],
        ) by {
            assert(!axis@[i].is_nan() && !axis@[j].is_nan() && !axis@[k - 1].is_nan());
            if j == k && i < k {
                assert(axis@[i].le(axis@[k - 1]));
            }
        }
        k += 1;
    }
    assert forall|i: int, j: int| 0 <= i <= j < axis@.len() implies axis@[i].le(axis@[j]) by {
        assert(!axis@[i].is_nan() && !axis@[j].is_nan());
    }
    Ok(())
}

/// The series whose rows are the numeric records among `records`, where
/// their axis is fit for lookups: its points are numbers and do not
/// descend.
pub fn checked_time_series_from_records(records: &Vec<Vec<Field>>) -> (r: Result<
    TimeSeriesData,
    TableError,
>)
    ensures
        r is Ok <==> axis_fault(pairs_of(records@).map_values(|p: (Scalar, Scalar)| p.0)) is None,
        r is Err ==> Some(r->Err_0) == axis_fault(
            pairs_of(records@).map_values(|p: (Scalar, Scalar)| p.0),
        ),
        r is Ok ==> r->Ok_0.wf() && r->Ok_0.time@ == pairs_of(records@).map_values(
            |p: (Scalar, Scalar)| p.0,
        ) && r->Ok_0.values@ == pairs_of(records@).map_values(|p: (Scalar, Scalar)| p.1),
{
    let series = time_series_from_records(records);
    match check_axis(&series.time) {
        Ok(()) => Ok(series),
        Err(e) => Err(e),
    }
}

/// The first `n` fields of a record are numbers.
pub open spec fn is_numeric_record(fields: Seq<Field>, n: nat) -> bool {
    fields.len() >= n && forall|k: int| 0 <= k < n ==> (#[trigger] fields[k]) is Number
}

/// The first `n` numbers of a numeric record.
pub open spec fn numeric_values(fields: Seq<Field>, n: nat) -> Seq<Scalar> {
    Seq::new(n, |k: int| fields[k]->Number_0)
}

/// The numeric records among `records`, each as its first two numbers, in
/// the order of the records.
pub open spec fn pairs_of(records: Seq<Vec<Field>>) -> Seq<(Scalar, Scalar)>
    decreases records.len(),
{
    if records.len() == 0 {
        Seq::empty()
    } else {
        let rest = pairs_of(records.drop_last());
        let fields = records.last()@;
        if is_numeric_record(fields, 2) {
            rest.push((fields[0]->Number_0, fields[1]->Number_0))
        } else {
            rest
        }
    }
}

/// The numeric records among `records`, each as its first three numbers,
/// in the order of the records.
pub open spec fn triples_of(records: Seq<Vec<Field>>) -> Seq<(Scalar, Scalar, Scalar)>
    decreases records.len(),
{
    if records.len() == 0 {
        Seq::empty()
    } else {
        let rest = triples_of(records.drop_last());
        let fields = records.last()@;
        if is_numeric_record(fields, 3) {
            rest.push((fields[0]->Number_0, fields[1]->Number_0, fields[2]->Number_0))
        } else {
            rest
        }
    }
}

/// The first `n` fields of a record as numbers, where the record has that
/// many fields and each of them is a number.
pub fn numeric_record(fields: &Vec<Field>, n: usize) -> (r: Option<Vec<Scalar>>)
    ensures
        r is Some <==> is_numeric_record(fields@, n as nat),
        r is Some ==> r->0@ == numeric_values(fields@, n as nat),
{
    if fields.len() < n {
        return None;
    }
    let mut values: Vec<Scalar> = Vec::new();
    let mut k: usize = 0;
    while k < n
        invariant
            k <= n <= fields@.len(),
            values@.len() == k,
            forall|q: int| 0 <= q < k ==> (#[trigger] fields@[q]) is Number,
            forall|q: int| 0 <= q < k ==> (#[trigger] values@[q]) == fields@[q]->Number_0,
        decreases n - k,
    {
        match fields[k] {
            Field::Number(v) => {
                values.push(v);
            },
            _ => {
                return None;
            },
        }
        k += 1;
    }
    assert(values@ =~= numeric_values(fields@, n as nat));
    Some(values)
}

/// The numeric records among `records` as pairs of an axis point and a
/// value.
pub fn numeric_pairs(records: &Vec<Vec<Field>>) -> (pairs: Vec<(Scalar, Scalar)>)
    ensures
        pairs@ == pairs_of(records@),
{
    let mut pairs: Vec<(Scalar, Scalar)> = Vec::new();
    let mut i: usize = 0;
    while i < records.len()
        invariant
            i <= records.len(),
            pairs@ == pairs_of(records@.take(i as int)),
        decreases records.len() - i,
    {
        assert(records@.take(i + 1).drop_last() =~= records@.take(i as int));
        match numeric_record(&records[i], 2) {
            Some(values) => {
                pairs.push((values[0], values[1]));
            },
            None => {},
        }
        i += 1;
    }
    assert(records@.take(records.len() as int) =~= records@);
    pairs
}

/// The numeric records among `records` as rows of a profile: an axis point
/// and two values.
pub fn numeric_triples(records: &Vec<Vec<Field>>) -> (rows: Vec<(Scalar, Scalar, Scalar)>)
    ensures
        rows@ == triples_of(records@),
{
    let mut rows: Vec<(Scalar, Scalar, Scalar)> = Vec::new();
    let mut i: usize = 0;
    while i < records.len()
        invariant
            i <= records.len(),
            rows@ == triples_of(records@.take(i as int)),
        decreases records.len() - i,
    {
        assert(records@.take(i + 1).drop_last() =~= records@.take(i as int));
        match numeric_record(&records[i], 3) {
            Some(values) => {
                rows.push((values[0], values[1], values[2]));
            },
            None => {},
        }
        i += 1;
    }
    assert(records@.take(records.len() as int) =~= records@);
    rows
}

/// The series whose rows are the numeric records among `records`.
pub fn time_series_from_records(records: &Vec<Vec<Field>>) -> (series: TimeSeriesData)
    ensures
        series.wf(),
        series.time@ == pairs_of(records@).map_values(|p: (Scalar, Scalar)| p.0),
        series.values@ == pairs_of(records@).map_values(|p: (Scalar, Scalar)| p.1),
{
    TimeSeriesData::from_pairs(numeric_pairs(records))
}

/// A record makes a row of a normal-force table: it has a field, and no
/// field is text.
pub open spec fn is_surface_row(fields: Seq<Field>) -> bool {
    fields.len() > 0 && forall|k: int| 0 <= k < fields.len() ==> !((#[trigger] fields[k]) is Text)
}

/// The number that a field of a table row stands for: a blank is zero.
pub open spec fn field_value(field: Field) -> Scalar {
    match field {
        Field::Number(v) => v,
        _ => Scalar::from_bits(0),
    }
}

/// A row fitted to the width of the table: fields beyond the width are
/// dropped, and a short row is filled up with its last value.
pub open spec fn fitted_row(fields: Seq<Field>) -> Seq<Scalar> {
    Seq::new(
        CN_COLUMNS as nat,
        |k: int|
            field_value(
                if k < fields.len() {
                    fields[k]
                } else {
                    fields[fields.len() - 1]
                },
            ),
    )
}

/// The rows of a normal-force table among `records`, fitted, in the order
/// of the records.
pub open spec fn surface_rows(records: Seq<Vec<Field>>) -> Seq<Seq<Scalar>>
    decreases records.len(),
{
    if records.len() == 0 {
        Seq::empty()
    } else {
        let rest = surface_rows(records.drop_last());
        let fields = records.last()@;
        if is_surface_row(fields) {
            rest.push(fitted_row(fields))
        } else {
            rest
        }
    }
}

/// The angles as the first row gives them, after the column of the Mach
/// number.
pub open spec fn raw_angles(rows: Seq<Seq<Scalar>>) -> Seq<Scalar> {
    rows[0].subrange(1, CN_COLUMNS as int)
}

/// The Mach numbers as the rows after the first give them.
pub open spec fn raw_machs(rows: Seq<Seq<Scalar>>) -> Seq<Scalar> {
    Seq::new((rows.len() - 1) as nat, |k: int| rows[k + 1][0])
}

/// An axis levelled so that it does not descend: a point below its
/// levelled predecessor is raised to it.
pub open spec fn levelled(raw: Seq<Scalar>, k: int) -> Scalar
    decreases k,
{
    if k <= 0 {
        raw[0]
    } else {
        let previous = levelled(raw, k - 1);
        if raw[k].lt(previous) {
            previous
        } else {
            raw[k]
        }
    }
}

/// An axis holds a not-a-number.
pub open spec fn has_nan(axis: Seq<Scalar>) -> bool {
    exists|k: int| 0 <= k < axis.len() && (#[trigger] axis[k]).is_nan()
}

/// Records shape into a normal-force table: they give three rows or more,
/// and neither the angles nor the Mach numbers hold a not-a-number.
pub open spec fn shapes_into_surface(records: Seq<Vec<Field>>) -> bool {
    &&& surface_rows(records).len() >= 3
    &&& !has_nan(raw_angles(surface_rows(records)))
    &&& !has_nan(raw_machs(surface_rows(records)))
}

/// `surface` is the table that `rows` give when the rows after the first
/// are taken in the order `order`: the angles are those of the first row,
/// levelled; each row after it gives a Mach number and the values over
/// the angles.
pub open spec fn is_shaped_surface(
    rows: Seq<Seq<Scalar>>,
    order: Seq<usize>,
    surface: SurfaceData2D,
) -> bool {
    &&& surface.y@ == Seq::new((CN_COLUMNS - 1) as nat, |k: int| levelled(raw_angles(rows), k))
    &&& surface.x@ == Seq::new((rows.len() - 1) as nat, |k: int| raw_machs(rows)[order[k] as int])
    &&& surface.z@.len() == rows.len() - 1
    &&& forall|k: int|
        0 <= k < rows.len() - 1 ==> (#[trigger] surface.z@[k])@ == rows[order[k] + 1].subrange(
            1,
            CN_COLUMNS as int,
        )
}

/// The row that a record gives, fitted to the width of the table, where it
/// gives one.
pub fn surface_row(fields: &Vec<Field>) -> (r: Option<Vec<Scalar>>)
    ensures
        r is Some <==> is_surface_row(fields@),
        r is Some ==> r->0@ == fitted_row(fields@),
{
    let n = fields.len();
    if n == 0 {
        return None;
    }
    let mut row: Vec<Scalar> = Vec::new();
    let mut last = Scalar::zero();
    let mut k: usize = 0;
    while k < n
        invariant
            n == fields@.len(),
            k <= n,
            row@.len() == (if k < CN_COLUMNS { k } else { CN_COLUMNS }),
            forall|q: int| 0 <= q < k ==> !((#[trigger] fields@[q]) is Text),
            forall|q: int| 0 <= q < row@.len() ==> (#[trigger] row@[q]) == field_value(fields@[q]),
            k > 0 ==> last == field_value(fields@[k - 1]),
        decreases n - k,
    {
        let value = match fields[k] {
            Field::Number(v) => v,
            Field::Blank => Scalar::zero(),
            Field::Text => {
                return None;
            },
        };
        if k < CN_COLUMNS {
            row.push(value);
        }
        last = value;
        k += 1;
    }
    while row.len() < CN_COLUMNS
        invariant
            n == fields@.len(),
            n > 0,
            row@.len() <= CN_COLUMNS,
            row@.len() < CN_COLUMNS ==> row@.len() >= n,
            last == field_value(fields@[n - 1]),
            forall|q: int| 0 <= q < row@.len() ==> (#[trigger] row@[q]) == fitted_row(fields@)[q],
        decreases CN_COLUMNS - row@.len(),
    {
        row.push(last);
    }
    assert(row@ =~= fitted_row(fields@));
    Some(row)
}

/// The rows of a normal-force table among `records`.
pub fn collect_surface_rows(records: &Vec<Vec<Field>>) -> (rows: Vec<Vec<Scalar>>)
    ensures
        rows@.len() == surface_rows(records@).len(),
        forall|k: int| 0 <= k < rows@.len() ==> (#[trigger] rows@[k])@ == surface_rows(records@)[k],
{
    let mut rows: Vec<Vec<Scalar>> = Vec::new();
    let mut i: usize = 0;
    while i < records.len()
        invariant
            i <= records.len(),
            rows@.len() == surface_rows(records@.take(i as int)).len(),
            forall|k: int|
                0 <= k < rows@.len() ==> (#[trigger] rows@[k])@ == surface_rows(
                    records@.take(i as int),
                )[k],
        decreases records.len() - i,
    {
        assert(records@.take(i + 1).drop_last() =~= records@.take(i as int));
        match surface_row(&records[i]) {
            Some(row) => {
                rows.push(row);
            },
            None => {},
        }
        i += 1;
    }
    assert(records@.take(records.len() as int) =~= records@);
    rows
}

/// Whether an axis holds a not-a-number.
pub fn contains_nan(axis: &Vec<Scalar>) -> (r: bool)
    ensures
        r == has_nan(axis@),
{
    let mut k: usize = 0;
    while k < axis.len()
        invariant
            k <= axis.len(),
            forall|q: int| 0 <= q < k ==> !(#[trigger] axis@[q]).is_nan(),
        decreases axis.len() - k,
    {
        if axis[k].is_nan() {
            return true;
        }
        k += 1;
    }
    false
}

/// An axis of numbers, levelled so that it does not descend.
pub fn level_axis(raw: &Vec<Scalar>) -> (axis: Vec<Scalar>)
    requires
        !has_nan(raw@),
    ensures
        axis@ == Seq::new(raw@.len(), |k: int| levelled(raw@, k)),
        ascending(axis@),
{
    let mut axis: Vec<Scalar> = Vec::new();
    let mut k: usize = 0;
    while k < raw.len()
        invariant
            k <= raw.len(),
            axis@.len() == k,
            !has_nan(raw@),
            forall|q: int| 0 <= q < k ==> (#[trigger] axis@[q]) == levelled(raw@, q),
            forall|q: int| 0 <= q < k ==> !(#[trigger] axis@[q]).is_nan(),
            ascending(axis@),
        decreases raw.len() - k,
    {
        let point = raw[k];
        assert(!raw@[k as int].is_nan());
        let ghost before = axis@;
        if k > 0 && point.lt(axis[k - 1]) {
            let previous = axis[k - 1];
            axis.push(previous);
        } else {
            axis.push(point);
        }
        assert forall|i: int, j: int| 0 <= i <= j < axis@.len() implies axis@[i].le(axis@[j]) by {
            if j < k {
                assert(axis@[i] == before[i] && axis@[j] == before[j]);
            } else if i < k {
                assert(axis@[i] == before[i]);
                assert(before[i].le(before[k - 1]));
            }
        }
        k += 1;
    }
    assert(axis@ =~= Seq::new(raw@.len(), |k: int| levelled(raw@, k)));
    axis
}

/// Shapes records into a normal-force table over Mach number and angle.
///
/// The records that make rows are fitted to fifteen columns. The first row
/// gives the angles, after a first column that is ignored; they are
/// levelled so that they do not descend. Every further row gives a Mach
/// number and the values over the angles; these rows are put in ascending
/// order of the Mach number, rows of equal Mach number staying in the
/// order of the records.
///
/// Fewer than three rows make no table, and neither does an axis with a
/// not-a-number.
pub fn cn_surface_from_records(records: &Vec<Vec<Field>>) -> (r: Result<
    SurfaceData2D,
    TableError,
>)
    ensures
        r is Ok <==> shapes_into_surface(records@),
        r is Err ==> r->Err_0 == if surface_rows(records@).len() < 3 {
            TableError::TooShort
        } else {
            TableError::AxisNotANumber
        },
        r is Ok ==> r->Ok_0.wf() && exists|order: Seq<usize>|
            is_stable_order(raw_machs(surface_rows(records@)), order) && is_shaped_surface(
                surface_rows(records@),
                order,
                r->Ok_0,
            ),
{
    let rows = collect_surface_rows(records);
    let ghost shaped = surface_rows(records@);
    proof {
        lemma_surface_rows_width(records@);
    }
    if rows.len() < 3 {
        return Err(TableError::TooShort);
    }
    assert(rows@[0]@ == shaped[0]);
    let mut angles: Vec<Scalar> = Vec::new();
    let mut k: usize = 1;
    while k < CN_COLUMNS
        invariant
            1 <= k <= CN_COLUMNS,
            rows@.len() >= 3,
            rows@[0]@ == shaped[0],
            shaped[0].len() == CN_COLUMNS,
            angles@.len() == k - 1,
            forall|q: int| 0 <= q < k - 1 ==> (#[trigger] angles@[q]) == shaped[0][q + 1],
        decreases CN_COLUMNS - k,
    {
        angles.push(rows[0][k]);
        k += 1;
    }
    assert(angles@ =~= raw_angles(shaped));

    let mut machs: Vec<Scalar> = Vec::new();
    let mut i: usize = 1;
    while i < rows.len()
        invariant
            1 <= i <= rows@.len(),
            rows@.len() == shaped.len(),
            forall|q: int| 0 <= q < rows@.len() ==> (#[trigger] rows@[q])@ == shaped[q],
            forall|q: int| 0 <= q < shaped.len() ==> (#[trigger] shaped[q]).len() == CN_COLUMNS,
            machs@.len() == i - 1,
            forall|q: int| 0 <= q < i - 1 ==> (#[trigger] machs@[q]) == shaped[q + 1][0],
        decreases rows@.len() - i,
    {
        assert(rows@[i as int]@ == shaped[i as int]);
        machs.push(rows[i][0]);
        i += 1;
    }
    assert(machs@ =~= raw_machs(shaped));

    if contains_nan(&angles) || contains_nan(&machs) {
        return Err(TableError::AxisNotANumber);
    }
    let y = level_axis(&angles);
    let order = stable_order(&machs);

    let mut x: Vec<Scalar> = Vec::new();
    let mut z: Vec<Vec<Scalar>> = Vec::new();
    let mut p: usize = 0;
    while p < order.len()
        invariant
            p <= order@.len(),
            order@.len() == machs@.len(),
            machs@.len() == rows@.len() - 1,
            rows@.len() == shaped.len(),
            is_stable_order(machs@, order@),
            forall|q: int| 0 <= q < rows@.len() ==> (#[trigger] rows@[q])@ == shaped[q],
            forall|q: int| 0 <= q < shaped.len() ==> (#[trigger] shaped[q]).len() == CN_COLUMNS,
            x@.len() == p,
            z@.len() == p,
            forall|q: int| 0 <= q < p ==> (#[trigger] x@[q]) == machs@[order@[q] as int],
            forall|q: int|
                0 <= q < p ==> (#[trigger] z@[q])@ == shaped[order@[q] + 1].subrange(
                    1,
                    CN_COLUMNS as int,
                ),
        decreases order@.len() - p,
    {
        let source = order[p];
        x.push(machs[source]);
        let row = &rows[source + 1];
        assert(row@ == shaped[source + 1]);
        let mut values: Vec<Scalar> = Vec::new();
        let mut c: usize = 1;
        while c < CN_COLUMNS
            invariant
                1 <= c <= CN_COLUMNS,
                row@.len() == CN_COLUMNS,
                values@.len() == c - 1,
                forall|q: int| 0 <= q < c - 1 ==> (#[trigger] values@[q]) == row@[q + 1],
            decreases CN_COLUMNS - c,
        {
            values.push(row[c]);
            c += 1;
        }
        assert(values@ =~= row@.subrange(1, CN_COLUMNS as int));
        z.push(values);
        p += 1;
    }
    let surface = SurfaceData2D { x, y, z };
    proof {
        assert(surface.x@ =~= Seq::new(
            (shaped.len() - 1) as nat,
            |k: int| raw_machs(shaped)[order@[k] as int],
        ));
        assert(is_shaped_surface(shaped, order@, surface));
        assert forall|a: int, b: int| 0 <= a <= b < surface.x@.len() implies surface.x@[a].le(
            surface.x@[b],
        ) by {
            assert(!machs@[order@[a] as int].is_nan());
            assert(!machs@[order@[b] as int].is_nan());
            if a < b {
                assert(precedes(machs@, order@[a] as int, order@[b] as int));
            }
        }
        assert(surface.wf());
    }
    Ok(surface)
}

/// The rows of a table have the width of the table.
pub proof fn lemma_surface_rows_width(records: Seq<Vec<Field>>)
    ensures
        forall|q: int|
            0 <= q < surface_rows(records).len() ==> (#[trigger] surface_rows(records)[q]).len()
                == CN_COLUMNS,
    decreases records.len(),
{
    if records.len() > 0 {
        lemma_surface_rows_width(records.drop_last());
        let rest = surface_rows(records.drop_last());
        assert forall|q: int| 0 <= q < surface_rows(records).len() implies (#[trigger] surface_rows(
            records,
        )[q]).len() == CN_COLUMNS by {
            if q < rest.len() {
                assert(surface_rows(records)[q] == rest[q]);
            } else {
                assert(surface_rows(records)[q] == fitted_row(records.last()@));
            }
        }
    }
}

} // verus!
