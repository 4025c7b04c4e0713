//! Binary32 values by their IEEE-754 bit patterns.
//!
//! The library stores, moves and orders such values. It does no arithmetic on
//! them: a caller that needs a sum or a product computes it and hands the
//! result back as bits.

use vstd::prelude::*;

verus! {

/// The bit that holds the sign.
pub const SIGN_BIT: u32 = 0x8000_0000;

/// The magnitude of positive infinity; every larger magnitude is a NaN.
pub const INFINITY_MAGNITUDE: u32 = 0x7f80_0000;

/// The pattern of `0.0`.
pub const ZERO: u32 = 0;

/// The pattern of `0.5`.
pub const HALF: u32 = 0x3f00_0000;

/// The pattern of `1.0`.
pub const ONE: u32 = 0x3f80_0000;

/// A binary32 value, held by its bit pattern.
///
/// `==` on this type compares bit patterns, so it tells `0.0` from `-0.0` and
/// finds a NaN equal to itself. Numeric comparison is [`Scalar::less_than`].
#[derive(Clone, Copy, Debug, PartialEq, Eq, Structural)]
pub struct Scalar {
    pub bits: u32,
}

impl Scalar {
    /// The pattern without its sign bit, as a number.
    pub open spec fn magnitude(self) -> int {
        if self.bits >= SIGN_BIT {
            self.bits - SIGN_BIT
        } else {
            self.bits as int
        }
    }

    /// Whether the sign bit is set.
    pub open spec fn negative(self) -> bool {
        self.bits >= SIGN_BIT
    }

    /// Whether the pattern encodes a NaN.
    pub open spec fn nan(self) -> bool {
        self.magnitude() > INFINITY_MAGNITUDE
    }

    /// The place of a value that is no NaN on the number line: binary32
    /// magnitudes grow with their patterns, and the sign mirrors them, so
    /// `0.0` and `-0.0` share the place 0.
    pub open spec fn rank(self) -> int {
        if self.negative() {
            -self.magnitude()
        } else {
            self.magnitude()
        }
    }

    /// Numeric `<`: false as soon as one side is a NaN.
    pub open spec fn lt(self, other: Scalar) -> bool {
        !self.nan() && !other.nan() && self.rank() < other.rank()
    }

    /// Numeric `<=`: false as soon as one side is a NaN.
    pub open spec fn le(self, other: Scalar) -> bool {
        !self.nan() && !other.nan() && self.rank() <= other.rank()
    }

    /// Numeric `> 0`.
    pub open spec fn positive(self) -> bool {
        0 < self.bits <= INFINITY_MAGNITUDE
    }

    /// Numeric `!= 0`: true of a NaN, false of both zeros.
    pub open spec fn nonzero(self) -> bool {
        self.magnitude() != 0
    }

    /// What clamping `self` to `[lo, hi]` gives: `lo` below the interval, `hi`
    /// above it, and `self` otherwise, a NaN included.
    pub open spec fn clamped(self, lo: Scalar, hi: Scalar) -> Scalar {
        if self.lt(lo) {
            lo
        } else if hi.lt(self) {
            hi
        } else {
            self
        }
    }

    /// The value with the given bit pattern.
    pub fn from_bits(bits: u32) -> (s: Scalar)
        ensures
            s.bits == bits,
    {
        Scalar { bits }
    }

    /// The bit pattern.
    pub fn to_bits(self) -> (bits: u32)
        ensures
            bits == self.bits,
    {
        self.bits
    }

    fn magnitude_bits(self) -> (m: u32)
        ensures
            m == self.magnitude(),
    {
        if self.bits >= SIGN_BIT {
            self.bits - SIGN_BIT
        } else {
            self.bits
        }
    }

    /// Whether the value is a NaN.
    pub fn is_nan(self) -> (r: bool)
        ensures
            r == self.nan(),
    {
        self.magnitude_bits() > INFINITY_MAGNITUDE
    }

    /// Whether the value is numerically greater than zero.
    pub fn is_positive(self) -> (r: bool)
        ensures
            r == self.positive(),
            r == (Scalar { bits: ZERO }).lt(self),
    {
        0 < self.bits && self.bits <= INFINITY_MAGNITUDE
    }

    /// Whether the value is numerically different from zero.
    pub fn is_nonzero(self) -> (r: bool)
        ensures
            r == self.nonzero(),
    {
        self.magnitude_bits() != 0
    }

    /// Numeric `self < other`.
    pub fn less_than(self, other: Scalar) -> (r: bool)
        ensures
            r == self.lt(other),
    {
        if self.is_nan() || other.is_nan() {
            return false;
        }
        let a: u32 = self.magnitude_bits();
        let b: u32 = other.magnitude_bits();
        if self.bits >= SIGN_BIT {
            if other.bits >= SIGN_BIT {
                b < a
            } else {
                a != 0 || b != 0
            }
        } else {
            if other.bits >= SIGN_BIT {
                false
            } else {
                a < b
            }
        }
    }

    /// Clamps the value to `[lo, hi]`. A NaN stays a NaN.
    pub fn clamp(self, lo: Scalar, hi: Scalar) -> (r: Scalar)
        requires
            lo.le(hi),
        ensures
            r == self.clamped(lo, hi),
    {
        if self.less_than(lo) {
            lo
        } else if hi.less_than(self) {
            hi
        } else {
            self
        }
    }
}


/// A clamped value that is no NaN lies in the interval, and a value beyond an
/// end comes out as exactly that end.
pub proof fn lemma_clamp_bounds(x: Scalar, lo: Scalar, hi: Scalar)
    requires
        lo.le(hi),
    ensures
        !x.nan() ==> lo.le(x.clamped(lo, hi)) && x.clamped(lo, hi).le(hi),
        hi.lt(x) ==> x.clamped(lo, hi) == hi,
        x.lt(lo) ==> x.clamped(lo, hi) == lo,
        lo.le(x) && x.le(hi) ==> x.clamped(lo, hi) == x,
        x.nan() ==> x.clamped(lo, hi) == x,
{
}

/// Numeric `<` orders the values that are no NaN as it orders numbers: no
/// value is less than itself, the order is passed on, and of two such values
/// one is less than the other or both stand at the same place, as `0.0` and
/// `-0.0` do. A NaN is neither less nor greater than any value.
pub proof fn lemma_order(a: Scalar, b: Scalar, c: Scalar)
    ensures
        !a.lt(a),
        a.lt(b) ==> !b.lt(a),
        a.lt(b) && b.lt(c) ==> a.lt(c),
        a.le(b) <==> a.lt(b) || (!a.nan() && !b.nan() && a.rank() == b.rank()),
        !a.nan() && !b.nan() ==> a.lt(b) || b.lt(a) || a.rank() == b.rank(),
        a.nan() ==> !a.lt(b) && !b.lt(a) && !a.le(b) && !b.le(a),
        a.rank() == b.rank() && a != b ==> a.magnitude() == 0 && b.magnitude() == 0,
{
}

} // verus!
