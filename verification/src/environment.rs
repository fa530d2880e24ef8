//! The case distinctions of the environment models: the layer of the
//! standard atmosphere, the curve of the density variation, and the
//! guards of the gravity and coordinate formulas.
use crate::scalar::Scalar;
use crate::table::ascending;
use crate::value::{lemma_nearest, lemma_represents, lemma_zero_is_zero};
use vstd::arithmetic::power2::{lemma2_to64, lemma2_to64_rest, lemma_pow2_adds};
use vstd::prelude::*;

verus! {

/// 0.0000000001: a magnitude below which a lapse rate, a percentage or a
/// radius counts as zero.
pub const NEGLIGIBLE: u64 = 0x3ddb_7cdf_d9d7_bdbb;

/// 0.01: an air speed [m/s] below which no angle of attack is defined.
pub const MIN_AIR_SPEED: u64 = 0x3f84_7ae1_47ae_147b;

/// 0.001: a forward air speed [m/s] below which no angle of attack is
/// defined.
pub const MIN_FORWARD_SPEED: u64 = 0x3f50_624d_d2f1_a9fc;

/// -1 and 1: the range of a cosine.
pub const MINUS_ONE: u64 = 0xbff0_0000_0000_0000;

pub const PLUS_ONE: u64 = 0x3ff0_0000_0000_0000;

/// The number of layers of the standard atmosphere.
pub const LAYERS: usize = 8;

/// The base altitude [m] of a layer of the standard atmosphere: 0, 11000,
/// 20000, 32000, 47000, 51000, 71000 and 84852.
pub open spec fn layer_base(layer: int) -> Scalar {
    Scalar::from_bits(
        if layer <= 0 {
            0x0000_0000_0000_0000
        } else if layer == 1 {
            0x40c5_7c00_0000_0000
        } else if layer == 2 {
            0x40d3_8800_0000_0000
        } else if layer == 3 {
            0x40df_4000_0000_0000
        } else if layer == 4 {
            0x40e6_f300_0000_0000
        } else if layer == 5 {
            0x40e8_e700_0000_0000
        } else if layer == 6 {
            0x40f1_5580_0000_0000
        } else {
            0x40f4_b740_0000_0000
        },
    )
}

/// The layer that an altitude falls into, among layers with the given
/// base altitudes, looking from layer `from` on: the first whose upper
/// neighbour begins above the altitude, and the highest layer where none
/// does.
pub open spec fn layer_from(bases: Seq<Scalar>, altitude: Scalar, from: int) -> int
    decreases bases.len() - from,
{
    if from + 1 >= bases.len() {
        bases.len() - 1
    } else if altitude.lt(bases[from + 1]) {
        from
    } else {
        layer_from(bases, altitude, from + 1)
    }
}

/// The layered standard atmosphere: the base altitudes of its layers.
#[derive(Clone, Copy, Debug)]
pub struct AtmosphereModel {
    pub height_layers: [Scalar; 8],
}

/// The curve of the density variation to read.
#[derive(Clone, Copy, Debug, PartialEq, Eq, Structural)]
pub enum VariationCurve {
    /// The percentage is negligible: no variation.
    Flat,
    /// The curve of the negative variation.
    Minus,
    /// The curve of the positive variation.
    Plus,
}

impl AtmosphereModel {
    /// The standard atmosphere.
    pub fn new() -> (model: Self)
        ensures
            forall|i: int| 0 <= i < 8 ==> (#[trigger] model.height_layers[i]) == layer_base(i),
    {
        AtmosphereModel {
            height_layers: [
                Scalar::from_bits(0x0000_0000_0000_0000),
                Scalar::from_bits(0x40c5_7c00_0000_0000),
                Scalar::from_bits(0x40d3_8800_0000_0000),
                Scalar::from_bits(0x40df_4000_0000_0000),
                Scalar::from_bits(0x40e6_f300_0000_0000),
                Scalar::from_bits(0x40e8_e700_0000_0000),
                Scalar::from_bits(0x40f1_5580_0000_0000),
                Scalar::from_bits(0x40f4_b740_0000_0000),
            ],
        }
    }

    /// The layer that an altitude falls into.
    pub fn determine_layer(&self, altitude: Scalar) -> (layer: usize)
        ensures
            layer == layer_from(self.height_layers@, altitude, 0),
            layer < LAYERS,
    {
        let mut i: usize = 0;
        while i < LAYERS - 1
            invariant
                i <= LAYERS - 1,
                self.height_layers@.len() == LAYERS,
                layer_from(self.height_layers@, altitude, 0) == layer_from(
                    self.height_layers@,
                    altitude,
                    i as int,
                ),
            decreases LAYERS - 1 - i,
        {
            if altitude.lt(self.height_layers[i + 1]) {
                return i;
            }
            i += 1;
        }
        LAYERS - 1
    }

    /// Whether a layer with this magnitude of the lapse rate counts as
    /// isothermal.
    pub fn is_isothermal(lapse_rate_magnitude: Scalar) -> (isothermal: bool)
        ensures
            isothermal == lapse_rate_magnitude.lt(Scalar::from_bits(NEGLIGIBLE)),
    {
        lapse_rate_magnitude.lt(Scalar::from_bits(NEGLIGIBLE))
    }

    /// The curve of the density variation for a percentage: none for a
    /// negligible one, else by its sign.
    pub fn variation_curve(input_percent: Scalar) -> (curve: VariationCurve)
        ensures
            curve == if input_percent.abs().lt(Scalar::from_bits(NEGLIGIBLE)) {
                VariationCurve::Flat
            } else if input_percent.lt(Scalar::from_bits(0)) {
                VariationCurve::Minus
            } else {
                VariationCurve::Plus
            },
    {
        if input_percent.abs().lt(Scalar::from_bits(NEGLIGIBLE)) {
            VariationCurve::Flat
        } else if input_percent.lt(Scalar::zero()) {
            VariationCurve::Minus
        } else {
            VariationCurve::Plus
        }
    }
}

impl Default for AtmosphereModel {
    fn default() -> (model: Self)
        ensures
            forall|i: int| 0 <= i < 8 ==> (#[trigger] model.height_layers[i]) == layer_base(i),
    {
        AtmosphereModel::new()
    }
}

/// The gravity model of the ellipsoid with its second zonal harmonic.
#[derive(Clone, Copy, Debug, PartialEq, Eq, Structural)]
pub struct GravityModel {
    /// The normalized coefficient of the second zonal harmonic.
    pub bar_c20: Scalar,
}

/// -0.000484165371736: the normalized coefficient of the second zonal
/// harmonic.
pub const BAR_C20: u64 = 0xbf3f_baf2_6ffd_7f28;

impl GravityModel {
    pub fn new() -> (model: Self)
        ensures
            model.bar_c20 == Scalar::from_bits(BAR_C20),
    {
        GravityModel { bar_c20: Scalar::from_bits(BAR_C20) }
    }

    /// Whether a radius [m] is too small to give a direction: gravity is
    /// zero there.
    pub fn is_degenerate(radius: Scalar) -> (degenerate: bool)
        ensures
            degenerate == radius.lt(Scalar::from_bits(NEGLIGIBLE)),
    {
        radius.lt(Scalar::from_bits(NEGLIGIBLE))
    }

    /// The radius that the formula is evaluated at: inside the Earth the
    /// polar radius stands in.
    pub fn effective_radius(radius: Scalar, polar_radius: Scalar) -> (effective: Scalar)
        ensures
            effective == if radius.lt(polar_radius) {
                polar_radius
            } else {
                radius
            },
    {
        if radius.lt(polar_radius) {
            polar_radius
        } else {
            radius
        }
    }
}

impl Default for GravityModel {
    fn default() -> (model: Self)
        ensures
            model.bar_c20 == Scalar::from_bits(BAR_C20),
    {
        GravityModel::new()
    }
}

/// Gravity of a point mass.
#[derive(Clone, Copy, Debug, PartialEq, Eq, Structural)]
pub struct PointMassGravity;

impl PointMassGravity {
    /// Whether a radius [m] is too small to give a direction: gravity is
    /// zero there.
    pub fn is_degenerate(radius: Scalar) -> (degenerate: bool)
        ensures
            degenerate == radius.lt(Scalar::from_bits(NEGLIGIBLE)),
    {
        radius.lt(Scalar::from_bits(NEGLIGIBLE))
    }
}

/// The guards of the transforms between coordinate frames.
#[derive(Clone, Copy, Debug, PartialEq, Eq, Structural)]
pub struct CoordinateTransform;

impl CoordinateTransform {
    /// Whether the air flow defines an angle of attack: its speed is not
    /// below 0.01 m/s and the magnitude of its forward component is not
    /// below 0.001 m/s. Where it does not, all angles are zero.
    pub fn defines_angle_of_attack(air_speed: Scalar, forward_magnitude: Scalar) -> (defined: bool)
        ensures
            defined == !(air_speed.lt(Scalar::from_bits(MIN_AIR_SPEED)) || forward_magnitude.lt(
                Scalar::from_bits(MIN_FORWARD_SPEED),
            )),
    {
        !(air_speed.lt(Scalar::from_bits(MIN_AIR_SPEED)) || forward_magnitude.lt(
            Scalar::from_bits(MIN_FORWARD_SPEED),
        ))
    }

    /// Whether two position vectors with these lengths span an angle:
    /// neither length is zero or below. Where they do not, the surface
    /// distance is zero.
    pub fn spans_angle(first_length: Scalar, second_length: Scalar) -> (spanned: bool)
        ensures
            spanned == !(first_length.le(Scalar::from_bits(0)) || second_length.le(
                Scalar::from_bits(0),
            )),
    {
        !(first_length.le(Scalar::zero()) || second_length.le(Scalar::zero()))
    }

    /// A cosine held in its range before its angle is taken.
    pub fn held_cosine(cosine: Scalar) -> (held: Scalar)
        ensures
            held == cosine.clamp(Scalar::from_bits(MINUS_ONE), Scalar::from_bits(PLUS_ONE)),
    {
        cosine.clamp(Scalar::from_bits(MINUS_ONE), Scalar::from_bits(PLUS_ONE))
    }
}

/// From layer `from` on, the search for the layer answers with a layer at
/// or after `from` whose base lies at or below an altitude that the base
/// of `from` lies at or below, and whose upper neighbour, if it has one,
/// begins above the altitude.
proof fn lemma_layer_from(bases: Seq<Scalar>, altitude: Scalar, from: int)
    requires
        0 <= from < bases.len(),
        !altitude.is_nan(),
        bases[from].le(altitude),
        forall|i: int| 0 <= i < bases.len() ==> !(#[trigger] bases[i]).is_nan(),
    ensures
        ({
            let r = layer_from(bases, altitude, from);
            &&& from <= r < bases.len()
            &&& bases[r].le(altitude)
            &&& r + 1 < bases.len() ==> altitude.lt(bases[r + 1])
        }),
    decreases bases.len() - from,
{
    if from + 1 < bases.len() && !altitude.lt(bases[from + 1]) {
        lemma_layer_from(bases, altitude, from + 1);
    }
}

/// For an altitude at or above the lowest base, the layer that it falls
/// into is the one whose base is the highest at or below it: the altitude
/// lies at or above the base of the layer and below the base of the next,
/// if there is a next.
pub proof fn lemma_layer_encloses(bases: Seq<Scalar>, altitude: Scalar)
    requires
        bases.len() > 0,
        ascending(bases),
        bases[0].le(altitude),
    ensures
        ({
            let r = layer_from(bases, altitude, 0);
            &&& 0 <= r < bases.len()
            &&& bases[r].le(altitude)
            &&& r + 1 < bases.len() ==> altitude.lt(bases[r + 1])
            &&& forall|k: int| r < k < bases.len() ==> altitude.lt(#[trigger] bases[k])
        }),
{
    assert forall|i: int| 0 <= i < bases.len() implies !(#[trigger] bases[i]).is_nan() by {
        assert(bases[i].le(bases[i]));
    }
    lemma_layer_from(bases, altitude, 0);
    let r = layer_from(bases, altitude, 0);
    assert forall|k: int| r < k < bases.len() implies altitude.lt(#[trigger] bases[k]) by {
        assert(bases[r + 1].le(bases[k]));
    }
}

/// The base altitudes of the standard atmosphere ascend.
pub proof fn lemma_standard_bases_ascend(model: AtmosphereModel)
    requires
        forall|i: int| 0 <= i < 8 ==> (#[trigger] model.height_layers[i]) == layer_base(i),
    ensures
        ascending(model.height_layers@),
{
    let bases = model.height_layers@;
    assert forall|i: int, j: int| 0 <= i <= j < bases.len() implies bases[i].le(bases[j]) by {
        assert(bases[i] == layer_base(i));
        assert(bases[j] == layer_base(j));
    }
}

/// The base altitudes of the standard atmosphere and the ends of the
/// range of a cosine stand for these whole numbers.
pub proof fn lemma_layer_bases_are_whole_numbers()
    ensures
        layer_base(0).represents(0),
        layer_base(1).represents(11000),
        layer_base(2).represents(20000),
        layer_base(3).represents(32000),
        layer_base(4).represents(47000),
        layer_base(5).represents(51000),
        layer_base(6).represents(71000),
        layer_base(7).represents(84852),
        Scalar::from_bits(MINUS_ONE).represents(-1),
        Scalar::from_bits(PLUS_ONE).represents(1),
{
    lemma2_to64();
    lemma2_to64_rest();
    lemma_zero_is_zero();
    lemma_represents(0x40c5_7c00_0000_0000, 11000, 39, 0x8000000000);
    lemma_represents(0x40d3_8800_0000_0000, 20000, 38, 0x4000000000);
    lemma_represents(0x40df_4000_0000_0000, 32000, 38, 0x4000000000);
    lemma_represents(0x40e6_f300_0000_0000, 47000, 37, 0x2000000000);
    lemma_represents(0x40e8_e700_0000_0000, 51000, 37, 0x2000000000);
    lemma_represents(0x40f1_5580_0000_0000, 71000, 36, 0x1000000000);
    lemma_represents(0x40f4_b740_0000_0000, 84852, 36, 0x1000000000);
    lemma_represents(MINUS_ONE, -1, 52, 0x10000000000000);
    lemma_represents(PLUS_ONE, 1, 52, 0x10000000000000);
}

/// The guards that are no whole numbers, and the coefficient of the
/// second zonal harmonic, are the hardware numbers nearest to these
/// ratios.
pub proof fn lemma_guards_are_nearest_to_decimals()
    ensures
        Scalar::from_bits(NEGLIGIBLE).is_nearest_to(1, 10000000000),
        Scalar::from_bits(MIN_AIR_SPEED).is_nearest_to(1, 100),
        Scalar::from_bits(MIN_FORWARD_SPEED).is_nearest_to(1, 1000),
        Scalar::from_bits(BAR_C20).is_nearest_to(-484165371736, 1000000000000000),
{
    lemma2_to64();
    lemma2_to64_rest();
    lemma_pow2_adds(64, 22);
    lemma_nearest(NEGLIGIBLE, 1, 10000000000, 989, 0x1b7cdfd9d7bdbb, 86, 0x4000000000000000000000);
    lemma_nearest(MIN_AIR_SPEED, 1, 100, 1016, 0x147ae147ae147b, 59, 0x800000000000000);
    lemma_nearest(MIN_FORWARD_SPEED, 1, 1000, 1013, 0x10624dd2f1a9fc, 62, 0x4000000000000000);
    lemma_nearest(
        BAR_C20,
        -484165371736,
        1000000000000000,
        1011,
        0x1fbaf26ffd7f28,
        64,
        0x10000000000000000,
    );
}

} // verus!
