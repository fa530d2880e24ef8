//! Tabulated data over two axes: the grid, and the search for the cell
//! that a lookup blends.
use crate::scalar::Scalar;
use crate::table::ascending;
use crate::value::lemma_nearest;
use vstd::arithmetic::power2::{lemma2_to64, lemma2_to64_rest, lemma_pow2_adds};
use vstd::prelude::*;

verus! {

/// 0.5: the middle of a cell, where the triangular scheme changes its
/// anchoring corner.
pub const CELL_MIDDLE: u64 = 0x3fe0_0000_0000_0000;

/// 0.000000000001: a width of a cell along an axis below which the cell
/// counts as flat along that axis.
pub const MIN_CELL_WIDTH: u64 = 0x3d71_9799_812d_ea11;

/// Whether a cell is flat along an axis, given the difference of its two
/// axis points: its magnitude is below 0.000000000001. The point then
/// counts as lying at the lower side of the cell.
pub fn cell_is_flat(width: Scalar) -> (flat: bool)
    ensures
        flat == width.abs().lt(Scalar::from_bits(MIN_CELL_WIDTH)),
{
    width.abs().lt(Scalar::from_bits(MIN_CELL_WIDTH))
}

/// Values `z[i][j]` over a first axis `x` (Mach number) and a second axis
/// `y` (angle in degrees).
#[derive(Debug)]
pub struct SurfaceData2D {
    pub x: Vec<Scalar>,
    pub y: Vec<Scalar>,
    pub z: Vec<Vec<Scalar>>,
}

/// The cell of a grid that a lookup blends: its lower corner is
/// `(x[i], y[j])`, its upper corner `(x[i + 1], y[j + 1])`.
#[derive(Clone, Copy, Debug, PartialEq, Eq, Structural)]
pub struct Cell {
    pub i: usize,
    pub j: usize,
}

/// The cell of a bilinear lookup, with the point brought into the range
/// of the axes.
#[derive(Clone, Copy, Debug, PartialEq, Eq, Structural)]
pub struct BilinearCell {
    pub cell: Cell,
    pub x: Scalar,
    pub y: Scalar,
}

/// The cell of a triangular lookup, with the point brought into the range
/// of the axes.
#[derive(Clone, Copy, Debug, PartialEq, Eq, Structural)]
pub struct SplitCell {
    pub cell: Cell,
    pub x: Scalar,
    pub y: Scalar,
}

/// The corner that anchors the affine form of a triangular lookup, chosen
/// by the half of the cell the point lies in along each axis.
#[derive(Clone, Copy, Debug, PartialEq, Eq, Structural)]
pub enum Corner {
    /// `(i, j)`: lower half along both axes.
    LowLow,
    /// `(i, j + 1)`: lower half along x, upper half along y.
    LowHigh,
    /// `(i + 1, j)`: upper half along x, lower half along y.
    HighLow,
    /// `(i + 1, j + 1)`: upper half along both axes.
    HighHigh,
}

/// The lower index along one axis of the cell that the bilinear scheme
/// blends at `v`: the search climbs from the first interval while `v` lies
/// above the interval's upper end, stops at the last interval, and goes
/// back to the first interval for a `v` below the axis.
pub open spec fn is_bilinear_index(axis: Seq<Scalar>, v: Scalar, r: int) -> bool {
    if v.lt(axis[0]) {
        r == 0
    } else {
        &&& 0 <= r
        &&& r + 1 < axis.len()
        &&& forall|k: int| 1 <= k <= r ==> v.gt(#[trigger] axis[k])
        &&& (!v.gt(axis[r + 1]) || r + 2 == axis.len())
    }
}

/// The lower index along one axis of the cell that the triangular scheme
/// blends at `v`: the interval before the first axis point above `v`, and
/// the last interval where no axis point is above `v`.
pub open spec fn is_split_index(axis: Seq<Scalar>, v: Scalar, r: int) -> bool {
    &&& 0 <= r
    &&& r + 1 < axis.len()
    &&& forall|k: int| 1 <= k <= r ==> !v.lt(#[trigger] axis[k])
    &&& (v.lt(axis[r + 1]) || r + 2 == axis.len())
}

/// The anchoring corner for the fractions `dx` and `dy` of the way through
/// the cell along each axis: the lower side where the fraction is below
/// one half.
pub open spec fn anchoring_corner(dx: Scalar, dy: Scalar) -> Corner {
    if dx.lt(Scalar::from_bits(CELL_MIDDLE)) {
        if dy.lt(Scalar::from_bits(CELL_MIDDLE)) {
            Corner::LowLow
        } else {
            Corner::LowHigh
        }
    } else if dy.lt(Scalar::from_bits(CELL_MIDDLE)) {
        Corner::HighLow
    } else {
        Corner::HighHigh
    }
}

/// Finds the lower index of the bilinear cell along one axis.
pub fn bilinear_index(axis: &Vec<Scalar>, v: Scalar) -> (r: usize)
    requires
        axis@.len() >= 2,
    ensures
        is_bilinear_index(axis@, v, r as int),
{
    let m = axis.len();
    let mut i: usize = 0;
    while i + 1 < m && v.gt(axis[i + 1])
        invariant
            m == axis@.len(),
            m >= 2,
            i < m,
            forall|k: int| 1 <= k <= i ==> v.gt(#[trigger] axis@[k]),
        decreases m - i,
    {
        i += 1;
    }
    if i + 1 >= m {
        i = m - 2;
    }
    if v.lt(axis[0]) {
        i = 0;
    }
    i
}

/// Finds the lower index of the triangular cell along one axis.
pub fn split_index(axis: &Vec<Scalar>, v: Scalar) -> (r: usize)
    requires
        axis@.len() >= 2,
    ensures
        is_split_index(axis@, v, r as int),
{
    let m = axis.len();
    let mut k: usize = 1;
    while k < m
        invariant
            m == axis@.len(),
            m >= 2,
            1 <= k <= m,
            forall|q: int| 1 <= q < k ==> !v.lt(#[trigger] axis@[q]),
        decreases m - k,
    {
        if v.lt(axis[k]) {
            return k - 1;
        }
        k += 1;
    }
    m - 2
}

/// Chooses the anchoring corner of a triangular lookup.
pub fn corner_for(dx: Scalar, dy: Scalar) -> (c: Corner)
    ensures
        c == anchoring_corner(dx, dy),
{
    let middle = Scalar::from_bits(CELL_MIDDLE);
    if dx.lt(middle) {
        if dy.lt(middle) {
            Corner::LowLow
        } else {
            Corner::LowHigh
        }
    } else if dy.lt(middle) {
        Corner::HighLow
    } else {
        Corner::HighHigh
    }
}

impl SurfaceData2D {
    /// Both axes ascend and every axis point of `x` has a row of one value
    /// for each axis point of `y`.
    pub open spec fn wf(&self) -> bool {
        &&& ascending(self.x@)
        &&& ascending(self.y@)
        &&& self.z@.len() == self.x@.len()
        &&& forall|i: int| 0 <= i < self.z@.len() ==> (#[trigger] self.z@[i])@.len() == self.y@.len()
    }

    /// The grid has a cell: both axes have two points or more.
    pub open spec fn has_cell(&self) -> bool {
        self.x@.len() >= 2 && self.y@.len() >= 2
    }

    /// `r` is the answer of the bilinear scheme at `(xv, yv)`: none for a
    /// grid without a cell, else the point with each coordinate brought
    /// into the range of its axis, and the cell of that point.
    pub open spec fn is_bilinear_cell(&self, xv: Scalar, yv: Scalar, r: Option<BilinearCell>) -> bool {
        if self.has_cell() {
            &&& r is Some
            &&& r->0.x == xv.clamp(self.x@[0], self.x@[self.x@.len() - 1])
            &&& r->0.y == yv.clamp(self.y@[0], self.y@[self.y@.len() - 1])
            &&& is_bilinear_index(self.x@, r->0.x, r->0.cell.i as int)
            &&& is_bilinear_index(self.y@, r->0.y, r->0.cell.j as int)
        } else {
            r is None
        }
    }

    /// `r` is the answer of the triangular scheme at `(mach, angle)`: none
    /// for a grid without a cell, else the point with each coordinate
    /// brought into the range of its axis, and the cell of that point.
    pub open spec fn is_split_cell(&self, mach: Scalar, angle: Scalar, r: Option<SplitCell>) -> bool {
        if self.has_cell() {
            &&& r is Some
            &&& r->0.x == mach.clamp(self.x@[0], self.x@[self.x@.len() - 1])
            &&& r->0.y == angle.clamp(self.y@[0], self.y@[self.y@.len() - 1])
            &&& is_split_index(self.x@, r->0.x, r->0.cell.i as int)
            &&& is_split_index(self.y@, r->0.y, r->0.cell.j as int)
        } else {
            r is None
        }
    }

    /// The cell that the bilinear scheme blends at `(xv, yv)`, and the
    /// point after each coordinate was brought into the range of its axis.
    /// A grid without a cell has none, and the value is zero.
    pub fn cell(&self, xv: Scalar, yv: Scalar) -> (r: Option<BilinearCell>)
        requires
            self.wf(),
        ensures
            self.is_bilinear_cell(xv, yv, r),
    {
        let m = self.x.len();
        let n = self.y.len();
        if m < 2 || n < 2 {
            return None;
        }
        let x = xv.clamp(self.x[0], self.x[m - 1]);
        let y = yv.clamp(self.y[0], self.y[n - 1]);
        Some(
            BilinearCell {
                cell: Cell { i: bilinear_index(&self.x, x), j: bilinear_index(&self.y, y) },
                x,
                y,
            },
        )
    }

    /// The cell that the triangular scheme blends at `(mach, angle)`, and
    /// the point after each coordinate was brought into the range of its
    /// axis. A grid without a cell has none, and the value is zero.
    pub fn split_cell(&self, mach: Scalar, angle: Scalar) -> (r: Option<SplitCell>)
        requires
            self.wf(),
        ensures
            self.is_split_cell(mach, angle, r),
    {
        let m = self.x.len();
        let n = self.y.len();
        if m < 2 || n < 2 {
            return None;
        }
        let x = mach.clamp(self.x[0], self.x[m - 1]);
        let y = angle.clamp(self.y[0], self.y[n - 1]);
        Some(SplitCell { cell: Cell { i: split_index(&self.x, x), j: split_index(&self.y, y) }, x, y })
    }

    /// The value at a grid point.
    pub fn value_at(&self, i: usize, j: usize) -> (v: Scalar)
        requires
            self.wf(),
            i < self.x@.len(),
            j < self.y@.len(),
        ensures
            v == self.z@[i as int]@[j as int],
    {
        self.z[i][j]
    }

    /// A copy of the surface.
    pub fn duplicate(&self) -> (copy: Self)
        ensures
            copy.x@ == self.x@,
            copy.y@ == self.y@,
            copy.z@.len() == self.z@.len(),
            forall|i: int| 0 <= i < self.z@.len() ==> (#[trigger] copy.z@[i])@ == self.z@[i]@,
            self.wf() ==> copy.wf(),
    {
        let mut z: Vec<Vec<Scalar>> = Vec::new();
        let mut i: usize = 0;
        while i < self.z.len()
            invariant
                i <= self.z.len(),
                z@.len() == i,
                forall|k: int| 0 <= k < i ==> (#[trigger] z@[k])@ == self.z@[k]@,
            decreases self.z.len() - i,
        {
            z.push(self.z[i].clone());
            i += 1;
        }
        SurfaceData2D { x: self.x.clone(), y: self.y.clone(), z }
    }
}

/// On an ascending axis the triangular index encloses every point of the
/// axis range: `axis[r] <= v <= axis[r + 1]`.
pub proof fn lemma_split_index_encloses(axis: Seq<Scalar>, v: Scalar, r: int)
    requires
        ascending(axis),
        axis.len() >= 2,
        axis[0].le(v),
        v.le(axis[axis.len() - 1]),
        is_split_index(axis, v, r),
    ensures
        axis[r].le(v),
        v.le(axis[r + 1]),
{
    assert(axis[r].le(axis[r]));
    assert(axis[r + 1].le(axis[r + 1]));
    if r >= 1 {
        assert(!v.lt(axis[r]));
    }
}

/// On an ascending axis the bilinear index encloses every point of the
/// axis range: `axis[r] <= v <= axis[r + 1]`. A grid point is therefore a
/// corner of the cell that is blended at it, or lies on its edge.
pub proof fn lemma_bilinear_index_encloses(axis: Seq<Scalar>, v: Scalar, r: int)
    requires
        ascending(axis),
        axis.len() >= 2,
        axis[0].le(v),
        v.le(axis[axis.len() - 1]),
        is_bilinear_index(axis, v, r),
    ensures
        0 <= r,
        r + 1 < axis.len(),
        axis[r].le(v),
        v.le(axis[r + 1]),
{
    assert(axis[r + 1].le(axis[r + 1]));
    if r >= 1 {
        assert(v.gt(axis[r]));
    }
}

/// The axis ascends strictly: no two of its points are the same number.
pub open spec fn strictly_ascending(axis: Seq<Scalar>) -> bool {
    forall|i: int, j: int| 0 <= i < j < axis.len() ==> axis[i].lt(axis[j])
}

/// The triangular index of a point is one index only.
pub proof fn lemma_split_index_unique(axis: Seq<Scalar>, v: Scalar, first: int, second: int)
    requires
        is_split_index(axis, v, first),
        is_split_index(axis, v, second),
    ensures
        first == second,
{
    if first < second {
        assert(!v.lt(axis[first + 1]));
    } else if second < first {
        assert(!v.lt(axis[second + 1]));
    }
}

/// On a strictly ascending axis a grid point is a corner of the cell that
/// the triangular scheme blends at it: the lower corner, and for the last
/// axis point the upper corner of the last cell.
pub proof fn lemma_grid_point_is_a_corner(axis: Seq<Scalar>, i: int, r: int)
    requires
        strictly_ascending(axis),
        0 <= i < axis.len(),
        is_split_index(axis, axis[i], r),
    ensures
        r == if i + 1 < axis.len() {
            i
        } else {
            i - 1
        },
{
    let v = axis[i];
    if r > i {
        assert(!v.lt(axis[r]));
        assert(axis[i].lt(axis[r]));
    }
    if r + 1 <= i {
        assert(axis[r].lt(axis[r + 1]));
        if r + 1 < i {
            assert(axis[r + 1].lt(axis[i]));
        }
    }
}

/// Bringing a number into a range a second time changes nothing.
pub proof fn lemma_clamp_twice(v: Scalar, lo: Scalar, hi: Scalar)
    requires
        lo.le(hi),
    ensures
        v.clamp(lo, hi).clamp(lo, hi) == v.clamp(lo, hi),
{
}

/// The triangular scheme answers for a point outside the range of the
/// axes as it does for the point brought into the range: the lookup holds
/// the value of the edge.
pub proof fn lemma_split_cell_holds_the_edge(
    surface: SurfaceData2D,
    mach: Scalar,
    angle: Scalar,
    outside: Option<SplitCell>,
    held: Option<SplitCell>,
)
    requires
        surface.wf(),
        surface.is_split_cell(mach, angle, outside),
        surface.has_cell() ==> surface.is_split_cell(
            mach.clamp(surface.x@[0], surface.x@[surface.x@.len() - 1]),
            angle.clamp(surface.y@[0], surface.y@[surface.y@.len() - 1]),
            held,
        ),
        !surface.has_cell() ==> held is None,
    ensures
        outside == held,
{
    if surface.has_cell() {
        let x = surface.x@;
        let y = surface.y@;
        assert(x[0].le(x[x.len() - 1]));
        assert(y[0].le(y[y.len() - 1]));
        lemma_clamp_twice(mach, x[0], x[x.len() - 1]);
        lemma_clamp_twice(angle, y[0], y[y.len() - 1]);
        lemma_split_index_unique(x, outside->0.x, outside->0.cell.i as int, held->0.cell.i as int);
        lemma_split_index_unique(y, outside->0.y, outside->0.cell.j as int, held->0.cell.j as int);
    }
}

/// The middle of a cell is one half, and the least width of a cell is the
/// hardware number nearest to this ratio.
pub proof fn lemma_cell_middle_is_a_half()
    ensures
        Scalar::from_bits(CELL_MIDDLE).is_ratio(1, 2),
        Scalar::from_bits(MIN_CELL_WIDTH).is_nearest_to(1, 1000000000000),
{
    lemma2_to64();
    lemma2_to64_rest();
    lemma_nearest(CELL_MIDDLE, 1, 2, 1022, 0x10000000000000, 53, 0x20000000000000);
    lemma_pow2_adds(64, 28);
    lemma_nearest(
        MIN_CELL_WIDTH,
        1,
        1000000000000,
        983,
        0x119799812dea11,
        92,
        0x100000000000000000000000,
    );
}

} // verus!
