//! Three binary64 components: a displacement, a position or a colour.

use vstd::prelude::*;
use crate::double::Double;

verus! {

/// The pattern of `1.0e-8`, below which a component counts as zero.
pub const NEAR_ZERO_BITS: u64 = 0x3E45_798E_E230_8C3A;

/// A vector of three components, in the fixed order x, y, z (or r, g, b).
#[derive(Clone, Copy, Debug, PartialEq, Eq, Structural)]
pub struct Vec3 {
    pub x: Double,
    pub y: Double,
    pub z: Double,
}

pub type Color = Vec3;

pub type Point3 = Vec3;

/// The absolute value of `c` is numerically below `1.0e-8`.
pub open spec fn tiny(c: Double) -> bool {
    c.absolute().less(Double { bits: NEAR_ZERO_BITS })
}

impl Vec3 {
    /// Every component has its sign bit flipped.
    pub open spec fn negated(self) -> Vec3 {
        Vec3 { x: self.x.negated(), y: self.y.negated(), z: self.z.negated() }
    }

    /// Every component is below `1.0e-8` in absolute value.
    pub open spec fn vanishing(self) -> bool {
        tiny(self.x) && tiny(self.y) && tiny(self.z)
    }

    /// -v, component by component.
    pub fn neg(&self) -> (r: Vec3)
        ensures
            r == self.negated(),
    {
        Vec3 { x: self.x.neg(), y: self.y.neg(), z: self.z.neg() }
    }

    /// True when all three components are below `1.0e-8` in absolute value:
    /// the test for a degenerate scatter direction.
    pub fn near_zero(&self) -> (r: bool)
        ensures
            r == self.vanishing(),
    {
        let s = Double { bits: NEAR_ZERO_BITS };
        self.x.abs().lt(s) && self.y.abs().lt(s) && self.z.abs().lt(s)
    }

    /// Whether a vector of this length can be scaled to length one: the length
    /// must be above zero. The zero vector has no direction, and neither has
    /// one whose length is NaN.
    pub fn has_direction(length: Double) -> (r: bool)
        ensures
            r == (Double { bits: 0 }).less(length),
    {
        length.gt(Double { bits: 0 })
    }

    /// The zero vector.
    pub fn new() -> (r: Vec3)
        ensures
            r.x.bits == 0,
            r.y.bits == 0,
            r.z.bits == 0,
    {
        Vec3 { x: Double { bits: 0 }, y: Double { bits: 0 }, z: Double { bits: 0 } }
    }

    pub fn of(e0: Double, e1: Double, e2: Double) -> (r: Vec3)
        ensures
            r == (Vec3 { x: e0, y: e1, z: e2 }),
    {
        Vec3 { x: e0, y: e1, z: e2 }
    }

    pub fn x(&self) -> (r: Double)
        ensures
            r == self.x,
    {
        self.x
    }

    pub fn y(&self) -> (r: Double)
        ensures
            r == self.y,
    {
        self.y
    }

    pub fn z(&self) -> (r: Double)
        ensures
            r == self.z,
    {
        self.z
    }
}

} // verus!
