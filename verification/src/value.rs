//! The numbers that encodings stand for.
//!
//! Every finite encoding stands for a whole multiple of the smallest
//! positive number, two to the power of -1074. Counting in that unit makes
//! the number an integer, and statements about numbers statements about
//! integers: that encodings are ordered as the numbers they stand for, and
//! that a given encoding stands for a given whole number.
use crate::scalar::{Scalar, INFINITY_MAGNITUDE, SIGN_BIT};
use vstd::arithmetic::mul::{lemma_mul_inequality, lemma_mul_strict_inequality};
use vstd::arithmetic::power2::{
    lemma2_to64, lemma2_to64_rest, lemma_pow2_adds, lemma_pow2_pos, lemma_pow2_strictly_increases,
    pow2,
};
use vstd::prelude::*;

verus! {

/// Two to the power of 52: the weight of the exponent field in an
/// encoding, and of the leading bit of a significand.
pub const LEADING_BIT: u64 = 0x0010_0000_0000_0000;

/// The exponent of the unit: a number is counted in units of two to the
/// power of minus this.
pub open spec fn unit_exponent() -> nat {
    1074
}

/// The exponent field of a magnitude.
pub open spec fn exponent_field(magnitude: u64) -> int {
    magnitude as int / LEADING_BIT as int
}

/// The fraction field of a magnitude.
pub open spec fn fraction_field(magnitude: u64) -> int {
    magnitude as int % LEADING_BIT as int
}

/// The significand of a magnitude: the fraction, with the leading bit in
/// front of it unless the exponent field is zero.
pub open spec fn significand(magnitude: u64) -> int {
    if exponent_field(magnitude) == 0 {
        fraction_field(magnitude)
    } else {
        LEADING_BIT + fraction_field(magnitude)
    }
}

/// The power of two that the significand of a magnitude is multiplied by
/// to give units.
pub open spec fn scale(magnitude: u64) -> nat {
    if exponent_field(magnitude) == 0 {
        0
    } else {
        (exponent_field(magnitude) - 1) as nat
    }
}

/// What a magnitude stands for, in units.
pub open spec fn magnitude_units(magnitude: u64) -> int {
    significand(magnitude) * pow2(scale(magnitude))
}

impl Scalar {
    /// What the encoding stands for, in units of two to the power of
    /// -1074. An infinity counts as the power of two beyond the largest
    /// number, with its sign.
    pub open spec fn units(self) -> int {
        if self.spec_is_sign_negative() {
            -magnitude_units(self.spec_magnitude())
        } else {
            magnitude_units(self.spec_magnitude())
        }
    }

    /// The encoding stands for the whole number `n`.
    pub open spec fn represents(self, n: int) -> bool {
        self.spec_is_finite() && self.units() == n * pow2(unit_exponent())
    }

    /// The encoding of a whole number.
    pub fn from_i32(n: i32) -> (s: Scalar)
        ensures
            s.represents(n as int),
            s.spec_is_sign_negative() == (n < 0),
    {
        if n == 0 {
            proof {
                lemma_zero_is_zero();
            }
            return Scalar { bits: 0 };
        }
        let size: u64 = if n < 0 {
            (-(n as i64)) as u64
        } else {
            n as u64
        };
        let mut sig: u64 = size;
        let mut k: u64 = 0;
        proof {
            lemma2_to64();
        }
        while sig < LEADING_BIT
            invariant
                0 < size <= 0x8000_0000,
                k <= 52,
                sig == size * pow2(k as nat),
                sig < 2 * LEADING_BIT,
            decreases 52 - k,
        {
            proof {
                lemma_pow2_adds(k as nat, 1);
                lemma2_to64();
                lemma2_to64_rest();
                assert(size * pow2((k + 1) as nat) == 2 * (size * pow2(k as nat))) by (nonlinear_arith)
                    requires
                        pow2((k + 1) as nat) == pow2(k as nat) * 2,
                ;
                if k == 52 {
                    assert(size * pow2(52) >= pow2(52)) by (nonlinear_arith)
                        requires
                            size >= 1,
                    ;
                }
            }
            sig = sig * 2;
            k = k + 1;
        }
        let exponent: u64 = 1075 - k;
        let magnitude: u64 = exponent * LEADING_BIT + (sig - LEADING_BIT);
        proof {
            lemma_encodes(magnitude, size as int, k as nat);
            let unit = pow2(unit_exponent()) as int;
            if n < 0 {
                assert(-(size as int * unit) == (n as int) * unit) by (nonlinear_arith)
                    requires
                        size as int == -(n as int),
                ;
            }
        }
        if n < 0 {
            Scalar { bits: magnitude + SIGN_BIT }
        } else {
            Scalar { bits: magnitude }
        }
    }
}

/// Both zeros stand for zero.
pub proof fn lemma_zero_is_zero()
    ensures
        Scalar::from_bits(0).represents(0),
        Scalar::from_bits(SIGN_BIT).represents(0),
{
    assert(magnitude_units(0) == 0) by {
        assert(significand(0) == 0);
        assert(0 * pow2(scale(0)) == 0) by (nonlinear_arith);
    }
}

/// The magnitude with exponent field `1075 - k` and the significand
/// `n * 2^k` stands for the whole number `n`.
pub proof fn lemma_encodes(magnitude: u64, n: int, k: nat)
    requires
        k <= 52,
        LEADING_BIT <= n * pow2(k) < 2 * LEADING_BIT,
        magnitude == (1075 - k) * LEADING_BIT + (n * pow2(k) - LEADING_BIT),
    ensures
        magnitude < INFINITY_MAGNITUDE,
        magnitude_units(magnitude) == n * pow2(unit_exponent()),
{
    let sig = n * pow2(k);
    let e = 1075 - k;
    assert(exponent_field(magnitude) == e && fraction_field(magnitude) == sig - LEADING_BIT) by {
        assert(magnitude == e * 0x0010_0000_0000_0000 + (sig - 0x0010_0000_0000_0000));
        assert(0 <= sig - 0x0010_0000_0000_0000 < 0x0010_0000_0000_0000);
        vstd::arithmetic::div_mod::lemma_fundamental_div_mod_converse(
            magnitude as int,
            0x0010_0000_0000_0000,
            e,
            sig - 0x0010_0000_0000_0000,
        );
    }
    assert(significand(magnitude) == sig);
    assert(scale(magnitude) == (1074 - k) as nat);
    lemma_pow2_adds(k, (1074 - k) as nat);
    assert(sig * pow2((1074 - k) as nat) == n * pow2(1074)) by (nonlinear_arith)
        requires
            sig == n * pow2(k),
            pow2(1074) == pow2(k) * pow2((1074 - k) as nat),
    ;
}

/// The encoding `bits` stands for the whole number `n`, which is not zero:
/// its sign bit is the sign of `n`, its exponent field is `1075 - k`, and
/// its significand is the size of `n` times `power`, the `k`-th power of
/// two.
pub proof fn lemma_represents(bits: u64, n: int, k: nat, power: int)
    requires
        k <= 52,
        power == pow2(k),
        n != 0,
        ({
            let size = if n < 0 {
                -n
            } else {
                n
            };
            &&& LEADING_BIT <= size * power < 2 * LEADING_BIT
            &&& bits == (if n < 0 {
                SIGN_BIT as int
            } else {
                0
            }) + (1075 - k) * LEADING_BIT + (size * power - LEADING_BIT)
        }),
    ensures
        Scalar::from_bits(bits).represents(n),
{
    let size = if n < 0 {
        -n
    } else {
        n
    };
    let magnitude = ((1075 - k) * LEADING_BIT + (size * power - LEADING_BIT)) as u64;
    lemma_encodes(magnitude, size, k);
    let unit = pow2(unit_exponent()) as int;
    if n < 0 {
        assert(-(size * unit) == n * unit) by (nonlinear_arith)
            requires
                size == -n,
        ;
    }
}

impl Scalar {
    /// The encoding stands for the ratio `p / q` exactly.
    pub open spec fn is_ratio(self, p: int, q: int) -> bool {
        self.spec_is_finite() && q > 0 && self.units() * q == p * pow2(unit_exponent())
    }

    /// The encoding stands for a number that is no further from the ratio
    /// `p / q` than half the distance to its neighbours: no other encoding
    /// is nearer to the ratio.
    pub open spec fn is_nearest_to(self, p: int, q: int) -> bool {
        let gap = 2 * (self.units() * q - p * pow2(unit_exponent()));
        let spacing = q * pow2(scale(self.spec_magnitude()));
        self.spec_is_finite() && q > 0 && -spacing <= gap <= spacing
    }
}

/// The encoding `bits` with the exponent field `e` and the significand
/// `sig` is nearest to the ratio `p / q`, and stands for it exactly where
/// the significand times `q` is `p` times `power`, the power of two with
/// the exponent `k = 1075 - e`.
pub proof fn lemma_nearest(bits: u64, p: int, q: int, e: int, sig: int, k: nat, power: int)
    requires
        q > 0,
        1 <= e <= 2046,
        LEADING_BIT <= sig < 2 * LEADING_BIT,
        k == 1075 - e,
        power == pow2(k),
        bits == (if p < 0 {
            SIGN_BIT as int
        } else {
            0
        }) + e * LEADING_BIT + (sig - LEADING_BIT),
        ({
            let signed = if p < 0 {
                -sig
            } else {
                sig
            };
            -q <= 2 * (signed * q - p * power) <= q
        }),
    ensures
        Scalar::from_bits(bits).is_nearest_to(p, q),
        (if p < 0 {
            -sig
        } else {
            sig
        }) * q == p * power ==> Scalar::from_bits(bits).is_ratio(p, q),
{
    let magnitude = (e * LEADING_BIT + (sig - LEADING_BIT)) as u64;
    assert(exponent_field(magnitude) == e && fraction_field(magnitude) == sig - LEADING_BIT) by {
        vstd::arithmetic::div_mod::lemma_fundamental_div_mod_converse(
            magnitude as int,
            0x0010_0000_0000_0000,
            e,
            sig - 0x0010_0000_0000_0000,
        );
    }
    assert(Scalar::from_bits(bits).spec_magnitude() == magnitude);
    let step = pow2((e - 1) as nat) as int;
    let unit = pow2(unit_exponent()) as int;
    let signed = if p < 0 {
        -sig
    } else {
        sig
    };
    lemma_pow2_pos((e - 1) as nat);
    lemma_pow2_adds((e - 1) as nat, k);
    assert(unit == step * power);
    assert(Scalar::from_bits(bits).units() == signed * step) by (nonlinear_arith)
        requires
            Scalar::from_bits(bits).units() == if p < 0 {
                -(sig * step)
            } else {
                sig * step
            },
            signed == if p < 0 {
                -sig
            } else {
                sig
            },
    ;
    assert((signed * step) * q - p * unit == step * (signed * q - p * power)) by (nonlinear_arith)
        requires
            unit == step * power,
    ;
    assert(-(q * step) <= 2 * (step * (signed * q - p * power)) <= q * step) by (nonlinear_arith)
        requires
            step > 0,
            -q <= 2 * (signed * q - p * power) <= q,
    ;
    if signed * q == p * power {
        assert(step * (signed * q - p * power) == 0) by (nonlinear_arith)
            requires
                signed * q == p * power,
        ;
    }
}

/// A larger magnitude stands for a larger number.
pub proof fn lemma_magnitude_units_increase(a: u64, b: u64)
    requires
        a < b,
    ensures
        0 <= magnitude_units(a) < magnitude_units(b),
{
    let ea = exponent_field(a);
    let eb = exponent_field(b);
    let fa = fraction_field(a);
    let fb = fraction_field(b);
    assert(ea <= eb && (ea == eb ==> fa < fb) && 0 <= fa < LEADING_BIT && 0 <= fb < LEADING_BIT
        && 0 <= ea) by {
        assert(a as int == ea * 0x0010_0000_0000_0000 + fa);
        assert(b as int == eb * 0x0010_0000_0000_0000 + fb);
    }
    let sa = significand(a);
    let sb = significand(b);
    lemma_pow2_pos(scale(a));
    lemma_pow2_pos(scale(b));
    assert(0 <= sa * pow2(scale(a))) by (nonlinear_arith)
        requires
            0 <= sa,
            0 < pow2(scale(a)),
    ;
    if ea == eb {
        assert(sa < sb);
        lemma_mul_strict_inequality(sa, sb, pow2(scale(a)) as int);
    } else {
        // The smaller number lies below the power of two at which the
        // numbers of the larger exponent begin.
        let floor = LEADING_BIT * pow2(scale(b));
        assert(sb * pow2(scale(b)) >= floor) by {
            lemma_mul_inequality(LEADING_BIT as int, sb, pow2(scale(b)) as int);
        }
        if ea == 0 {
            assert(sa < LEADING_BIT);
            lemma2_to64();
            assert(sa * pow2(scale(a)) == sa) by (nonlinear_arith)
                requires
                    pow2(scale(a)) == 1,
            ;
            assert(floor >= LEADING_BIT) by (nonlinear_arith)
                requires
                    floor == LEADING_BIT * pow2(scale(b)),
                    pow2(scale(b)) >= 1,
            ;
        } else {
            let step = pow2((ea - 1) as nat);
            assert(sa < 2 * LEADING_BIT);
            assert(sa * step < 2 * LEADING_BIT * step) by (nonlinear_arith)
                requires
                    sa < 2 * LEADING_BIT,
                    step > 0,
            ;
            lemma_pow2_adds((ea - 1) as nat, 1);
            lemma2_to64();
            assert(2 * LEADING_BIT * step == LEADING_BIT * pow2(ea as nat)) by (nonlinear_arith)
                requires
                    pow2(ea as nat) == step * 2,
            ;
            assert(pow2(ea as nat) <= pow2(scale(b))) by {
                if ea < eb - 1 {
                    lemma_pow2_strictly_increases(ea as nat, scale(b));
                }
            }
            lemma_mul_inequality(
                pow2(ea as nat) as int,
                pow2(scale(b)) as int,
                LEADING_BIT as int,
            );
            assert(LEADING_BIT * pow2(ea as nat) <= floor) by (nonlinear_arith)
                requires
                    pow2(ea as nat) * LEADING_BIT <= pow2(scale(b)) * LEADING_BIT,
                    floor == LEADING_BIT * pow2(scale(b)),
            ;
        }
    }
}

/// Encodings are ordered as the numbers they stand for: of two encodings
/// that are no not-a-numbers, one is less than the other exactly when it
/// stands for the lesser number, and they are the same number exactly
/// when they stand for the same.
pub proof fn lemma_order_is_numeric(a: Scalar, b: Scalar)
    requires
        !a.spec_is_nan(),
        !b.spec_is_nan(),
    ensures
        a.spec_lt(b) <==> a.units() < b.units(),
        a.spec_le(b) <==> a.units() <= b.units(),
        a.spec_same_number(b) <==> a.units() == b.units(),
{
    let ma = a.spec_magnitude();
    let mb = b.spec_magnitude();
    if ma < mb {
        lemma_magnitude_units_increase(ma, mb);
    } else if mb < ma {
        lemma_magnitude_units_increase(mb, ma);
    }
    if ma > 0 {
        lemma_magnitude_units_increase(0, ma);
    }
    if mb > 0 {
        lemma_magnitude_units_increase(0, mb);
    }
    assert(magnitude_units(0) == 0) by {
        lemma_zero_is_zero();
    }
}

/// Whole numbers are ordered as their encodings: an encoding that stands
/// for `m` is less than one that stands for `n` exactly when `m < n`.
pub proof fn lemma_whole_numbers_in_order(a: Scalar, m: int, b: Scalar, n: int)
    requires
        a.represents(m),
        b.represents(n),
    ensures
        a.spec_lt(b) <==> m < n,
        a.spec_le(b) <==> m <= n,
        a.spec_same_number(b) <==> m == n,
{
    lemma_order_is_numeric(a, b);
    lemma_pow2_pos(unit_exponent());
    let unit = pow2(unit_exponent()) as int;
    assert(m < n <==> m * unit < n * unit) by (nonlinear_arith)
        requires
            unit > 0,
    ;
    assert(m == n <==> m * unit == n * unit) by (nonlinear_arith)
        requires
            unit > 0,
    ;
}

} // verus!
