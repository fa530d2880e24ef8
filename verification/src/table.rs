//! Tabulated data over one axis and the search for the rows that a lookup
//! blends.
//!
//! A lookup is decided here: which single row answers, or which pair of
//! neighbouring rows is blended. The blend itself is arithmetic and is
//! left to the caller.
use crate::scalar::Scalar;
use crate::value::lemma_nearest;
use vstd::arithmetic::power2::{lemma2_to64, lemma2_to64_rest, lemma_pow2_adds};
use vstd::prelude::*;

verus! {

/// 0.0000000001: a distance of two rows along the axis below which they
/// count as one place.
pub const MIN_INTERVAL: u64 = 0x3ddb_7cdf_d9d7_bdbb;

/// Whether two rows that enclose a point lie at one place, given the
/// difference of their axis points: its magnitude is below 0.0000000001.
/// The first of the two rows answers then, as it stands.
pub fn rows_coincide(width: Scalar) -> (coincide: bool)
    ensures
        coincide == width.abs().lt(Scalar::from_bits(MIN_INTERVAL)),
{
    width.abs().lt(Scalar::from_bits(MIN_INTERVAL))
}

/// The least distance of two rows is the hardware number nearest to this
/// ratio.
pub proof fn lemma_min_interval_is_nearest_to_decimal()
    ensures
        Scalar::from_bits(MIN_INTERVAL).is_nearest_to(1, 10000000000),
{
    lemma2_to64();
    lemma2_to64_rest();
    lemma_pow2_adds(64, 22);
    lemma_nearest(MIN_INTERVAL, 1, 10000000000, 989, 0x1b7cdfd9d7bdbb, 86, 0x4000000000000000000000);
}

/// The rows that answer a lookup.
#[derive(Clone, Copy, Debug, PartialEq, Eq, Structural)]
pub enum Lookup {
    /// The table has no row; the value is zero.
    Empty,
    /// The value of this row, as it stands.
    Row(usize),
    /// A blend of this row and the next.
    Between(usize),
}

/// Rows `i` and `i + 1` enclose `t`: `xs[i] <= t <= xs[i + 1]`.
pub open spec fn brackets(xs: Seq<Scalar>, t: Scalar, i: int) -> bool {
    0 <= i && i + 1 < xs.len() && t.ge(xs[i]) && t.le(xs[i + 1])
}

/// `i` is the first pair of rows that encloses `t`.
pub open spec fn is_first_bracket(xs: Seq<Scalar>, t: Scalar, i: int) -> bool {
    brackets(xs, t, i) && forall|j: int| 0 <= j < i ==> !brackets(xs, t, j)
}

/// No pair of neighbouring rows encloses `t`.
pub open spec fn no_bracket(xs: Seq<Scalar>, t: Scalar) -> bool {
    forall|j: int| !brackets(xs, t, j)
}

/// The axis does not descend and holds numbers only.
pub open spec fn ascending(xs: Seq<Scalar>) -> bool {
    forall|i: int, j: int| 0 <= i <= j < xs.len() ==> xs[i].le(xs[j])
}

/// The answer of a scan for the first enclosing pair.
pub open spec fn is_scan_result(xs: Seq<Scalar>, t: Scalar, r: Option<usize>) -> bool {
    match r {
        Some(i) => is_first_bracket(xs, t, i as int),
        None => no_bracket(xs, t),
    }
}

/// The answer of a lookup that holds the ends first: at or below the first
/// row, the first row; at or above the last row, the last row; otherwise
/// the first enclosing pair; and the last row where no pair encloses `t`.
pub open spec fn is_clamped_lookup(xs: Seq<Scalar>, t: Scalar, r: Lookup) -> bool {
    if xs.len() == 0 {
        r == Lookup::Empty
    } else if t.le(xs[0]) {
        r == Lookup::Row(0)
    } else if t.ge(xs[xs.len() - 1]) {
        r == Lookup::Row((xs.len() - 1) as usize)
    } else {
        match r {
            Lookup::Between(i) => is_first_bracket(xs, t, i as int),
            Lookup::Row(k) => k == xs.len() - 1 && no_bracket(xs, t),
            Lookup::Empty => false,
        }
    }
}

/// The answer of a lookup that scans first: the first enclosing pair;
/// where there is none, the first row at or below it and the last row
/// otherwise.
pub open spec fn is_scanned_lookup(xs: Seq<Scalar>, t: Scalar, r: Lookup) -> bool {
    if xs.len() == 0 {
        r == Lookup::Empty
    } else {
        match r {
            Lookup::Between(i) => is_first_bracket(xs, t, i as int),
            Lookup::Row(k) => no_bracket(xs, t) && k == (if t.le(xs[0]) {
                0
            } else {
                xs.len() - 1
            }),
            Lookup::Empty => false,
        }
    }
}

/// The answer of a lookup that holds the lower end only: at or below the
/// first row, the first row; otherwise the first enclosing pair; and the
/// last row where no pair encloses `t`.
pub open spec fn is_floored_lookup(xs: Seq<Scalar>, t: Scalar, r: Lookup) -> bool {
    if xs.len() == 0 {
        r == Lookup::Empty
    } else if t.le(xs[0]) {
        r == Lookup::Row(0)
    } else {
        match r {
            Lookup::Between(i) => is_first_bracket(xs, t, i as int),
            Lookup::Row(k) => k == xs.len() - 1 && no_bracket(xs, t),
            Lookup::Empty => false,
        }
    }
}

/// Scans the axis for the first pair of neighbouring rows that encloses `t`.
pub fn first_bracket(xs: &Vec<Scalar>, t: Scalar) -> (r: Option<usize>)
    ensures
        is_scan_result(xs@, t, r),
{
    let n = xs.len();
    let mut i: usize = 0;
    while i < n && n - i > 1
        invariant
            n == xs.len(),
            i <= n,
            forall|j: int| 0 <= j < i ==> !brackets(xs@, t, j),
        decreases n - i,
    {
        if t.ge(xs[i]) && t.le(xs[i + 1]) {
            return Some(i);
        }
        i += 1;
    }
    None
}

/// Looks `t` up with both ends held first.
pub fn locate_clamped(xs: &Vec<Scalar>, t: Scalar) -> (r: Lookup)
    ensures
        is_clamped_lookup(xs@, t, r),
{
    let n = xs.len();
    if n == 0 {
        Lookup::Empty
    } else if t.le(xs[0]) {
        Lookup::Row(0)
    } else if t.ge(xs[n - 1]) {
        Lookup::Row(n - 1)
    } else {
        match first_bracket(xs, t) {
            Some(i) => Lookup::Between(i),
            None => Lookup::Row(n - 1),
        }
    }
}

/// On an ascending axis every number strictly between the first and the
/// last row is enclosed by a pair of neighbours, so a lookup of it blends.
pub proof fn lemma_interior_is_bracketed(xs: Seq<Scalar>, t: Scalar)
    requires
        ascending(xs),
        xs.len() > 0,
        t.gt(xs[0]),
        t.lt(xs[xs.len() - 1]),
    ensures
        exists|i: int| is_first_bracket(xs, t, i),
        forall|r: Lookup| is_clamped_lookup(xs, t, r) ==> r is Between,
{
    assert forall|i: int| 0 <= i < xs.len() implies !(#[trigger] xs[i]).is_nan() by {
        assert(xs[i].le(xs[i]));
    }
    let k = lemma_first_bracket_below(xs, t, xs.len() - 1);
    assert(is_first_bracket(xs, t, k));
    assert(!no_bracket(xs, t));
}

/// Where `xs[0] < t <= xs[hi]`, a first enclosing pair exists below `hi`.
proof fn lemma_first_bracket_below(xs: Seq<Scalar>, t: Scalar, hi: int) -> (k: int)
    requires
        0 < hi < xs.len(),
        t.gt(xs[0]),
        t.le(xs[hi]),
        forall|i: int| 0 <= i < xs.len() ==> !(#[trigger] xs[i]).is_nan(),
    ensures
        0 <= k < hi,
        is_first_bracket(xs, t, k),
    decreases hi,
{
    if hi == 1 {
        assert(brackets(xs, t, 0));
        0
    } else if t.le(xs[hi - 1]) {
        lemma_first_bracket_below(xs, t, hi - 1)
    } else {
        // xs[hi - 1] < t <= xs[hi]: the pair at hi - 1 encloses t, and an
        // earlier one may as well.
        assert(brackets(xs, t, hi - 1));
        lemma_least_bracket(xs, t, hi - 1)
    }
}

/// Below an enclosing pair there is a first one.
proof fn lemma_least_bracket(xs: Seq<Scalar>, t: Scalar, i: int) -> (k: int)
    requires
        brackets(xs, t, i),
    ensures
        0 <= k <= i,
        is_first_bracket(xs, t, k),
    decreases i,
{
    if forall|j: int| 0 <= j < i ==> !brackets(xs, t, j) {
        i
    } else {
        let j = choose|j: int| 0 <= j < i && brackets(xs, t, j);
        lemma_least_bracket(xs, t, j)
    }
}

/// A series of values over an axis, row by row.
#[derive(Debug)]
pub struct TimeSeriesData {
    pub time: Vec<Scalar>,
    pub values: Vec<Scalar>,
}

impl TimeSeriesData {
    /// Every row has its value.
    pub open spec fn wf(&self) -> bool {
        self.time@.len() == self.values@.len()
    }

    /// The series without rows.
    pub fn new() -> (series: Self)
        ensures
            series.time@.len() == 0,
            series.values@.len() == 0,
            series.wf(),
    {
        TimeSeriesData { time: Vec::new(), values: Vec::new() }
    }

    /// The series with one row for each pair, in the order given.
    pub fn from_pairs(pairs: Vec<(Scalar, Scalar)>) -> (series: Self)
        ensures
            series.wf(),
            series.time@ == pairs@.map_values(|p: (Scalar, Scalar)| p.0),
            series.values@ == pairs@.map_values(|p: (Scalar, Scalar)| p.1),
    {
        let mut series = TimeSeriesData::new();
        let mut i: usize = 0;
        while i < pairs.len()
            invariant
                i <= pairs.len(),
                series.time@ == pairs@.take(i as int).map_values(|p: (Scalar, Scalar)| p.0),
                series.values@ == pairs@.take(i as int).map_values(|p: (Scalar, Scalar)| p.1),
            decreases pairs.len() - i,
        {
            let pair = pairs[i];
            series.time.push(pair.0);
            series.values.push(pair.1);
            assert(pairs@.take(i + 1) =~= pairs@.take(i as int).push(pairs@[i as int]));
            assert(series.time@ =~= pairs@.take(i + 1).map_values(|p: (Scalar, Scalar)| p.0));
            assert(series.values@ =~= pairs@.take(i + 1).map_values(|p: (Scalar, Scalar)| p.1));
            i += 1;
        }
        assert(pairs@.take(pairs.len() as int) =~= pairs@);
        series
    }

    /// A copy of the series.
    pub fn duplicate(&self) -> (copy: Self)
        ensures
            copy.time@ == self.time@,
            copy.values@ == self.values@,
    {
        TimeSeriesData { time: self.time.clone(), values: self.values.clone() }
    }

    /// The rows that give the value at `t`: the ends are held, and between
    /// them the first pair of rows that encloses `t` is blended.
    pub fn locate(&self, t: Scalar) -> (r: Lookup)
        ensures
            is_clamped_lookup(self.time@, t, r),
    {
        locate_clamped(&self.time, t)
    }
}

impl Default for TimeSeriesData {
    fn default() -> (series: Self)
        ensures
            series.time@.len() == 0,
            series.values@.len() == 0,
    {
        TimeSeriesData::new()
    }
}

/// The first column of a profile: the axis of its rows.
pub open spec fn profile_axis(rows: Seq<(Scalar, Scalar, Scalar)>) -> Seq<Scalar> {
    Seq::new(rows.len(), |k: int| rows[k].0)
}

/// Scans the axis of a profile for the first pair of neighbouring rows
/// that encloses `t`.
pub fn first_profile_bracket(rows: &Vec<(Scalar, Scalar, Scalar)>, t: Scalar) -> (r: Option<
    usize,
>)
    ensures
        is_scan_result(profile_axis(rows@), t, r),
{
    let n = rows.len();
    let mut i: usize = 0;
    while i < n && n - i > 1
        invariant
            n == rows.len(),
            i <= n,
            forall|j: int| 0 <= j < i ==> !brackets(profile_axis(rows@), t, j),
        decreases n - i,
    {
        if t.ge(rows[i].0) && t.le(rows[i + 1].0) {
            return Some(i);
        }
        i += 1;
    }
    None
}

/// Looks `t` up in a profile with the scan first.
pub fn locate_scanned(rows: &Vec<(Scalar, Scalar, Scalar)>, t: Scalar) -> (r: Lookup)
    ensures
        is_scanned_lookup(profile_axis(rows@), t, r),
{
    let n = rows.len();
    if n == 0 {
        return Lookup::Empty;
    }
    match first_profile_bracket(rows, t) {
        Some(i) => Lookup::Between(i),
        None => if t.le(rows[0].0) {
            Lookup::Row(0)
        } else {
            Lookup::Row(n - 1)
        },
    }
}

/// Looks `t` up in a profile with the lower end held first.
pub fn locate_floored(rows: &Vec<(Scalar, Scalar, Scalar)>, t: Scalar) -> (r: Lookup)
    ensures
        is_floored_lookup(profile_axis(rows@), t, r),
{
    let n = rows.len();
    if n == 0 {
        Lookup::Empty
    } else if t.le(rows[0].0) {
        Lookup::Row(0)
    } else {
        match first_profile_bracket(rows, t) {
            Some(i) => Lookup::Between(i),
            None => Lookup::Row(n - 1),
        }
    }
}

} // verus!
