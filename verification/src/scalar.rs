//! Real quantities carried by their IEEE 754 double precision encodings.
//!
//! The library never does arithmetic on a quantity: it classifies, orders and
//! selects. All of that is decided by the 64 bits of the encoding, so a
//! quantity is held as those bits and every decision is a statement about
//! integers. Callers that compute with hardware numbers hand their bit
//! patterns in and read bit patterns back.
use vstd::prelude::*;

verus! {

/// The sign bit of an encoding.
pub const SIGN_BIT: u64 = 0x8000_0000_0000_0000;

/// The magnitude of the two infinities: all exponent bits set, no fraction.
pub const INFINITY_MAGNITUDE: u64 = 0x7ff0_0000_0000_0000;

/// A real quantity, an infinity, or a not-a-number, as 64 encoding bits.
///
/// `==` on values of this type compares encodings. The numeric comparisons
/// are [`Scalar::lt`], [`Scalar::le`], [`Scalar::same_number`] and their
/// mirrors; they treat the two zeros as equal and a not-a-number as
/// unordered, as the hardware comparison does.
#[derive(Clone, Copy, Debug, PartialEq, Eq, Structural)]
pub struct Scalar {
    pub bits: u64,
}

impl Scalar {
    /// Whether the sign bit is set.
    pub open spec fn spec_is_sign_negative(self) -> bool {
        self.bits >= SIGN_BIT
    }

    /// The encoding without its sign bit.
    pub open spec fn spec_magnitude(self) -> u64 {
        if self.bits >= SIGN_BIT {
            (self.bits - SIGN_BIT) as u64
        } else {
            self.bits
        }
    }

    /// Not-a-number: the exponent is all ones and the fraction is not zero.
    pub open spec fn spec_is_nan(self) -> bool {
        self.spec_magnitude() > INFINITY_MAGNITUDE
    }

    /// Positive or negative infinity.
    pub open spec fn spec_is_infinite(self) -> bool {
        self.spec_magnitude() == INFINITY_MAGNITUDE
    }

    /// Zero, subnormal or normal.
    pub open spec fn spec_is_finite(self) -> bool {
        self.spec_magnitude() < INFINITY_MAGNITUDE
    }

    /// The place of a number on the number line, as an integer: encodings of
    /// numbers are ordered as their sign-magnitude readings, and the two
    /// zeros share the place 0. It is meaningful for everything but a
    /// not-a-number.
    pub open spec fn key(self) -> int {
        if self.spec_is_sign_negative() {
            -(self.spec_magnitude() as int)
        } else {
            self.spec_magnitude() as int
        }
    }

    /// `self < other` as numbers; false when either is a not-a-number.
    pub open spec fn spec_lt(self, other: Scalar) -> bool {
        !self.spec_is_nan() && !other.spec_is_nan() && self.key() < other.key()
    }

    /// `self <= other` as numbers; false when either is a not-a-number.
    pub open spec fn spec_le(self, other: Scalar) -> bool {
        !self.spec_is_nan() && !other.spec_is_nan() && self.key() <= other.key()
    }

    /// `self > other` as numbers; false when either is a not-a-number.
    pub open spec fn spec_gt(self, other: Scalar) -> bool {
        other.spec_lt(self)
    }

    /// `self >= other` as numbers; false when either is a not-a-number.
    pub open spec fn spec_ge(self, other: Scalar) -> bool {
        other.spec_le(self)
    }

    /// `self == other` as numbers; false when either is a not-a-number.
    pub open spec fn spec_same_number(self, other: Scalar) -> bool {
        !self.spec_is_nan() && !other.spec_is_nan() && self.key() == other.key()
    }

    /// The smaller of two quantities. A not-a-number loses against a number;
    /// of two equal numbers the first is kept.
    pub open spec fn spec_min(self, other: Scalar) -> Scalar {
        if other.spec_lt(self) || self.spec_is_nan() {
            other
        } else {
            self
        }
    }

    /// The larger of two quantities. A not-a-number loses against a number;
    /// of two equal numbers the first is kept.
    pub open spec fn spec_max(self, other: Scalar) -> Scalar {
        if self.spec_lt(other) || self.spec_is_nan() {
            other
        } else {
            self
        }
    }

    /// `self` brought into `[lo, hi]`; a not-a-number passes through.
    pub open spec fn spec_clamp(self, lo: Scalar, hi: Scalar) -> Scalar {
        if self.spec_lt(lo) {
            lo
        } else if self.spec_gt(hi) {
            hi
        } else {
            self
        }
    }

    /// The same quantity with the sign bit cleared.
    pub open spec fn spec_abs(self) -> Scalar {
        Scalar { bits: self.spec_magnitude() }
    }

    /// The same quantity with the sign bit flipped.
    pub open spec fn spec_neg(self) -> Scalar {
        if self.bits >= SIGN_BIT {
            Scalar { bits: (self.bits - SIGN_BIT) as u64 }
        } else {
            Scalar { bits: (self.bits + SIGN_BIT) as u64 }
        }
    }

    /// The quantity with the given encoding.
    pub open spec fn spec_from_bits(bits: u64) -> Scalar {
        Scalar { bits }
    }

    /// The quantity with the given encoding.
    #[verifier::when_used_as_spec(spec_from_bits)]
    pub fn from_bits(bits: u64) -> (s: Scalar)
        ensures
            s == Scalar::spec_from_bits(bits),
    {
        Scalar { bits }
    }

    /// The encoding of this quantity.
    pub fn to_bits(self) -> (bits: u64)
        ensures
            bits == self.bits,
    {
        self.bits
    }

    /// Positive zero.
    pub fn zero() -> (s: Scalar)
        ensures
            s == Scalar::spec_from_bits(0),
    {
        Scalar { bits: 0 }
    }

    #[verifier::when_used_as_spec(spec_is_sign_negative)]
    pub fn is_sign_negative(self) -> (b: bool)
        ensures
            b == self.spec_is_sign_negative(),
    {
        self.bits >= SIGN_BIT
    }

    #[verifier::when_used_as_spec(spec_magnitude)]
    pub fn magnitude(self) -> (m: u64)
        ensures
            m == self.spec_magnitude(),
    {
        if self.bits >= SIGN_BIT {
            self.bits - SIGN_BIT
        } else {
            self.bits
        }
    }

    #[verifier::when_used_as_spec(spec_is_nan)]
    pub fn is_nan(self) -> (b: bool)
        ensures
            b == self.spec_is_nan(),
    {
        self.magnitude() > INFINITY_MAGNITUDE
    }

    #[verifier::when_used_as_spec(spec_is_infinite)]
    pub fn is_infinite(self) -> (b: bool)
        ensures
            b == self.spec_is_infinite(),
    {
        self.magnitude() == INFINITY_MAGNITUDE
    }

    #[verifier::when_used_as_spec(spec_is_finite)]
    pub fn is_finite(self) -> (b: bool)
        ensures
            b == self.spec_is_finite(),
    {
        self.magnitude() < INFINITY_MAGNITUDE
    }

    #[verifier::when_used_as_spec(spec_lt)]
    pub fn lt(self, other: Scalar) -> (b: bool)
        ensures
            b == self.spec_lt(other),
    {
        if self.is_nan() || other.is_nan() {
            return false;
        }
        let a: u64 = self.magnitude();
        let b: u64 = other.magnitude();
        if self.is_sign_negative() {
            if other.is_sign_negative() {
                b < a
            } else {
                a != 0 || b != 0
            }
        } else {
            !other.is_sign_negative() && a < b
        }
    }

    #[verifier::when_used_as_spec(spec_le)]
    pub fn le(self, other: Scalar) -> (b: bool)
        ensures
            b == self.spec_le(other),
    {
        if self.is_nan() || other.is_nan() {
            return false;
        }
        !other.lt(self)
    }

    #[verifier::when_used_as_spec(spec_gt)]
    pub fn gt(self, other: Scalar) -> (b: bool)
        ensures
            b == self.spec_gt(other),
    {
        other.lt(self)
    }

    #[verifier::when_used_as_spec(spec_ge)]
    pub fn ge(self, other: Scalar) -> (b: bool)
        ensures
            b == self.spec_ge(other),
    {
        other.le(self)
    }

    #[verifier::when_used_as_spec(spec_same_number)]
    pub fn same_number(self, other: Scalar) -> (b: bool)
        ensures
            b == self.spec_same_number(other),
    {
        self.le(other) && other.le(self)
    }

    #[verifier::when_used_as_spec(spec_min)]
    pub fn min(self, other: Scalar) -> (m: Scalar)
        ensures
            m == self.spec_min(other),
    {
        if other.lt(self) || self.is_nan() {
            other
        } else {
            self
        }
    }

    #[verifier::when_used_as_spec(spec_max)]
    pub fn max(self, other: Scalar) -> (m: Scalar)
        ensures
            m == self.spec_max(other),
    {
        if self.lt(other) || self.is_nan() {
            other
        } else {
            self
        }
    }

    /// Brings `self` into `[lo, hi]`. The bounds must be ordered numbers.
    #[verifier::when_used_as_spec(spec_clamp)]
    pub fn clamp(self, lo: Scalar, hi: Scalar) -> (c: Scalar)
        requires
            lo.spec_le(hi),
        ensures
            c == self.spec_clamp(lo, hi),
    {
        if self.lt(lo) {
            lo
        } else if self.gt(hi) {
            hi
        } else {
            self
        }
    }

    #[verifier::when_used_as_spec(spec_abs)]
    pub fn abs(self) -> (a: Scalar)
        ensures
            a == self.spec_abs(),
    {
        Scalar { bits: self.magnitude() }
    }

    #[verifier::when_used_as_spec(spec_neg)]
    pub fn neg(self) -> (n: Scalar)
        ensures
            n == self.spec_neg(),
    {
        if self.bits >= SIGN_BIT {
            Scalar { bits: self.bits - SIGN_BIT }
        } else {
            Scalar { bits: self.bits + SIGN_BIT }
        }
    }

    /// Of two numbers exactly one of `<`, `same number`, `>` holds.
    pub proof fn lemma_trichotomy(self, other: Scalar)
        requires
            !self.spec_is_nan(),
            !other.spec_is_nan(),
        ensures
            self.spec_lt(other) || self.spec_same_number(other) || self.spec_gt(other),
            !(self.spec_lt(other) && self.spec_same_number(other)),
            !(self.spec_lt(other) && self.spec_gt(other)),
            !(self.spec_same_number(other) && self.spec_gt(other)),
            self.spec_le(other) <==> !self.spec_gt(other),
    {
    }

    /// `<=` is transitive, and strict as soon as one of its links is.
    pub proof fn lemma_le_transitive(self, mid: Scalar, other: Scalar)
        requires
            self.spec_le(mid),
            mid.spec_le(other),
        ensures
            self.spec_le(other),
            self.spec_lt(mid) || mid.spec_lt(other) ==> self.spec_lt(other),
    {
    }

    /// A not-a-number is unordered against everything, itself included.
    pub proof fn lemma_nan_unordered(self, other: Scalar)
        requires
            self.spec_is_nan(),
        ensures
            !self.spec_lt(other),
            !self.spec_le(other),
            !self.spec_gt(other),
            !self.spec_ge(other),
            !self.spec_same_number(other),
            !self.spec_same_number(self),
    {
    }

    /// The minimum of two numbers is one of them and bounds both from
    /// below; the maximum bounds both from above.
    pub proof fn lemma_min_max_bounds(self, other: Scalar)
        requires
            !self.spec_is_nan(),
            !other.spec_is_nan(),
        ensures
            self.spec_min(other) == self || self.spec_min(other) == other,
            self.spec_min(other).spec_le(self),
            self.spec_min(other).spec_le(other),
            self.spec_max(other) == self || self.spec_max(other) == other,
            self.spec_le(self.spec_max(other)),
            other.spec_le(self.spec_max(other)),
    {
    }

    /// A clamped number lies between the bounds.
    pub proof fn lemma_clamp_bounds(self, lo: Scalar, hi: Scalar)
        requires
            !self.spec_is_nan(),
            lo.spec_le(hi),
        ensures
            lo.spec_le(self.spec_clamp(lo, hi)),
            self.spec_clamp(lo, hi).spec_le(hi),
            lo.spec_le(self) && self.spec_le(hi) ==> self.spec_clamp(lo, hi) == self,
    {
    }
}

} // verus!
