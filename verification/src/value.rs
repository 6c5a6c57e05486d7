//! The numeric value behind a bit pattern, and the proof that the integer
//! order used for comparisons is the order of those values.

use vstd::prelude::*;
use vstd::arithmetic::power2::{
    lemma2_to64, lemma_pow2_pos, lemma_pow2_strictly_increases, lemma_pow2_unfold, pow2,
};
use crate::double::Double;

verus! {

/// Two to the power 52: the weight of the implicit leading bit of a normal
/// significand, and the number of fraction patterns per exponent.
pub const HIDDEN_BIT: u64 = 0x0010_0000_0000_0000;

impl Double {
    /// The eleven exponent bits, as a number from 0 to 2047.
    pub open spec fn exponent_field(self) -> int {
        self.magnitude() / (HIDDEN_BIT as int)
    }

    /// The fifty-two fraction bits.
    pub open spec fn fraction(self) -> int {
        self.magnitude() % (HIDDEN_BIT as int)
    }

    /// The significand as an integer: the fraction alone for a subnormal, the
    /// fraction under the implicit leading bit otherwise.
    pub open spec fn significand(self) -> int {
        if self.exponent_field() == 0 {
            self.fraction()
        } else {
            HIDDEN_BIT + self.fraction()
        }
    }

    /// The power of two that the significand is multiplied by, counted from
    /// the smallest exponent, which subnormals and the first normals share.
    pub open spec fn binary_scale(self) -> nat {
        if self.exponent_field() == 0 {
            0
        } else {
            (self.exponent_field() - 1) as nat
        }
    }

    /// The absolute value, multiplied by two to the power 1074 so that it is
    /// an integer. Infinity is read by the same formula and so stands above
    /// every finite value.
    pub open spec fn scaled_magnitude(self) -> int {
        self.significand() * pow2(self.binary_scale())
    }

    /// The value, multiplied by two to the power 1074.
    pub open spec fn scaled_value(self) -> int {
        if self.negative() {
            -self.scaled_magnitude()
        } else {
            self.scaled_magnitude()
        }
    }
}

proof fn lemma_scaled_below_next_exponent(a: Double)
    ensures
        0 <= a.scaled_magnitude() < HIDDEN_BIT * pow2(a.exponent_field() as nat),
        HIDDEN_BIT * pow2(a.binary_scale()) <= a.scaled_magnitude() || a.exponent_field() == 0,
{
    let h = HIDDEN_BIT as int;
    let e = a.exponent_field();
    let f = a.fraction();
    let p = pow2(a.binary_scale()) as int;
    lemma_pow2_pos(a.binary_scale());
    lemma2_to64();
    if e == 0 {
        assert(a.scaled_magnitude() == f * 1) by (nonlinear_arith)
            requires
                a.scaled_magnitude() == f * p,
                p == 1,
        ;
    } else {
        lemma_pow2_unfold(e as nat);
        assert(0 <= (h + f) * p < h * (2 * p) && h * p <= (h + f) * p) by (nonlinear_arith)
            requires
                0 <= f < h,
                p > 0,
        ;
    }
}

/// A larger pattern without its sign is a larger absolute value.
proof fn lemma_magnitude_orders_by_value(a: Double, b: Double)
    requires
        a.magnitude() < b.magnitude(),
    ensures
        a.scaled_magnitude() < b.scaled_magnitude(),
{
    let h = HIDDEN_BIT as int;
    let ea = a.exponent_field();
    let eb = b.exponent_field();
    if ea == eb {
        let p = pow2(a.binary_scale()) as int;
        lemma_pow2_pos(a.binary_scale());
        assert(a.significand() * p < b.significand() * p) by (nonlinear_arith)
            requires
                a.significand() < b.significand(),
                p > 0,
        ;
    } else {
        assert(ea < eb) by {
            if ea > eb {
                assert(a.magnitude() >= ea * h && b.magnitude() < (eb + 1) * h);
                assert(ea * h >= (eb + 1) * h) by (nonlinear_arith)
                    requires
                        ea >= eb + 1,
                        h > 0,
                ;
            }
        }
        lemma_scaled_below_next_exponent(a);
        lemma_scaled_below_next_exponent(b);
        let pa = pow2(ea as nat) as int;
        let pb = pow2(b.binary_scale()) as int;
        if ea < eb - 1 {
            lemma_pow2_strictly_increases(ea as nat, b.binary_scale());
        }
        assert(h * pa <= h * pb) by (nonlinear_arith)
            requires
                pa <= pb,
                h > 0,
        ;
    }
}

/// The integer order that the comparisons use is the numeric order: of two
/// patterns, the one of smaller rank holds the smaller value, and two
/// patterns of equal rank hold the same value. The comparisons rely on this
/// for values that are not NaN; a NaN has no value to speak of.
pub proof fn lemma_rank_orders_by_value(a: Double, b: Double)
    ensures
        a.rank() < b.rank() <==> a.scaled_value() < b.scaled_value(),
        a.rank() == b.rank() <==> a.scaled_value() == b.scaled_value(),
{
    let zero = Double { bits: 0 };
    lemma2_to64();
    assert(zero.scaled_magnitude() == 0) by {
        assert(zero.significand() == 0);
        assert(0 * pow2(zero.binary_scale()) == 0);
    }
    if a.magnitude() > 0 {
        lemma_magnitude_orders_by_value(zero, a);
    }
    if b.magnitude() > 0 {
        lemma_magnitude_orders_by_value(zero, b);
    }
    if a.magnitude() < b.magnitude() {
        lemma_magnitude_orders_by_value(a, b);
    } else if b.magnitude() < a.magnitude() {
        lemma_magnitude_orders_by_value(b, a);
    }
}

/// Flipping the sign bit negates the value, and clearing it gives the
/// absolute value.
pub proof fn lemma_sign_bit_is_the_sign(a: Double)
    ensures
        a.negated().scaled_value() == -a.scaled_value(),
        a.absolute().scaled_value() == if a.scaled_value() < 0 {
            -a.scaled_value()
        } else {
            a.scaled_value()
        },
{
    assert(a.negated().magnitude() == a.magnitude());
    assert(a.absolute().magnitude() == a.magnitude());
    lemma_scaled_below_next_exponent(a);
}

} // verus!
