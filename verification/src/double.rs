//! IEEE 754 binary64 values as bit patterns, with the comparisons and sign
//! operations that can be decided on the pattern alone.

use vstd::prelude::*;

verus! {

/// The sign bit of a binary64 pattern.
pub const SIGN_BIT: u64 = 0x8000_0000_0000_0000;

/// The pattern of positive infinity. A larger magnitude is a NaN.
pub const INFINITY_BITS: u64 = 0x7FF0_0000_0000_0000;

/// The pattern of `1.0`.
pub const ONE_BITS: u64 = 0x3FF0_0000_0000_0000;

/// A binary64 value, held as its 64-bit pattern.
///
/// `==` on this type compares patterns: it tells `-0.0` from `0.0` and finds a
/// NaN equal to itself. The numeric comparisons are `lt`, `gt` and `ge`.
#[derive(Clone, Copy, Debug, PartialEq, Eq, Structural)]
pub struct Double {
    pub bits: u64,
}

impl Double {
    /// The sign bit is set.
    pub open spec fn negative(self) -> bool {
        self.bits >= SIGN_BIT
    }

    /// The pattern without its sign bit: exponent and fraction read as one
    /// integer. Among values that are not NaN it grows with the absolute value.
    pub open spec fn magnitude(self) -> int {
        if self.negative() {
            self.bits - SIGN_BIT
        } else {
            self.bits as int
        }
    }

    /// The value is a NaN.
    pub open spec fn nan(self) -> bool {
        self.magnitude() > INFINITY_BITS
    }

    /// The place of a value that is not NaN in numeric order: the magnitude
    /// under its sign. Both zeros have rank 0. That ranks are ordered as the
    /// values themselves is proved in `value`.
    pub open spec fn rank(self) -> int {
        if self.negative() {
            -self.magnitude()
        } else {
            self.magnitude()
        }
    }

    /// Numeric `<`: false as soon as either side is NaN.
    pub open spec fn less(self, other: Double) -> bool {
        !self.nan() && !other.nan() && self.rank() < other.rank()
    }

    /// Numeric `>=`: false as soon as either side is NaN.
    pub open spec fn at_least(self, other: Double) -> bool {
        !self.nan() && !other.nan() && self.rank() >= other.rank()
    }

    /// The value with its sign bit flipped.
    pub open spec fn negated(self) -> Double {
        if self.negative() {
            Double { bits: (self.bits - SIGN_BIT) as u64 }
        } else {
            Double { bits: (self.bits + SIGN_BIT) as u64 }
        }
    }

    /// The value with its sign bit cleared.
    pub open spec fn absolute(self) -> Double {
        Double { bits: self.magnitude() as u64 }
    }

    pub fn from_bits(bits: u64) -> (r: Double)
        ensures
            r.bits == bits,
    {
        Double { bits }
    }

    pub fn to_bits(self) -> (r: u64)
        ensures
            r == self.bits,
    {
        self.bits
    }

    fn magnitude_bits(self) -> (r: u64)
        ensures
            r == self.magnitude(),
    {
        if self.bits >= SIGN_BIT {
            self.bits - SIGN_BIT
        } else {
            self.bits
        }
    }

    pub fn is_nan(self) -> (r: bool)
        ensures
            r == self.nan(),
    {
        self.magnitude_bits() > INFINITY_BITS
    }

    /// Numeric `self < other`.
    pub fn lt(self, other: Double) -> (r: bool)
        ensures
            r == self.less(other),
    {
        if self.is_nan() || other.is_nan() {
            return false;
        }
        let a: u64 = self.magnitude_bits();
        let b: u64 = other.magnitude_bits();
        if self.bits >= SIGN_BIT {
            if other.bits >= SIGN_BIT {
                b < a
            } else {
                a > 0 || b > 0
            }
        } else {
            if other.bits >= SIGN_BIT {
                false
            } else {
                a < b
            }
        }
    }

    /// Numeric `self > other`.
    pub fn gt(self, other: Double) -> (r: bool)
        ensures
            r == other.less(self),
    {
        other.lt(self)
    }

    /// Numeric `self >= other`.
    pub fn ge(self, other: Double) -> (r: bool)
        ensures
            r == self.at_least(other),
    {
        if self.is_nan() || other.is_nan() {
            false
        } else {
            !self.lt(other)
        }
    }

    /// `-self`: the sign bit flips, whatever the value, NaN included.
    pub fn neg(self) -> (r: Double)
        ensures
            r == self.negated(),
    {
        if self.bits >= SIGN_BIT {
            Double { bits: self.bits - SIGN_BIT }
        } else {
            Double { bits: self.bits + SIGN_BIT }
        }
    }

    /// `|self|`: the sign bit is cleared.
    pub fn abs(self) -> (r: Double)
        ensures
            r == self.absolute(),
    {
        Double { bits: self.magnitude_bits() }
    }

    /// The smaller of two values, a NaN giving way to the other side. Of two
    /// values that compare equal, `self` is returned.
    pub open spec fn minimum(self, other: Double) -> Double {
        if self.nan() {
            other
        } else if other.less(self) {
            other
        } else {
            self
        }
    }

    /// The smaller of `self` and `other`, ignoring a NaN on one side.
    pub fn min(self, other: Double) -> (r: Double)
        ensures
            r == self.minimum(other),
            r == self || r == other,
            !self.nan() && !other.nan() ==> !self.less(r) && !other.less(r),
    {
        if self.is_nan() {
            other
        } else if other.lt(self) {
            other
        } else {
            self
        }
    }
}

/// `x` held between `min` and `max`: the bound that `x` lies beyond, else `x`
/// itself. A NaN compares beyond neither bound and is returned as it is.
pub open spec fn clamped(x: Double, min: Double, max: Double) -> Double {
    if x.less(min) {
        min
    } else if max.less(x) {
        max
    } else {
        x
    }
}

/// Holds `x` between `min` and `max`. With bounds in order and no NaN among
/// the three, the result lies within the bounds.
pub fn clamp(x: Double, min: Double, max: Double) -> (r: Double)
    ensures
        r == clamped(x, min, max),
        !x.nan() && !min.nan() && !max.nan() && min.rank() <= max.rank() ==> !r.nan() && min.rank()
            <= r.rank() <= max.rank(),
{
    if x.lt(min) {
        min
    } else if x.gt(max) {
        max
    } else {
        x
    }
}

} // verus!
