//! What a ray/sphere intersection decides once the quadratic has been
//! evaluated: whether there is a root at all, which root counts as the hit,
//! and which way the stored normal points.

use vstd::prelude::*;
use crate::double::Double;
use crate::vec3::Vec3;

verus! {

/// The two solutions of `|O + tD - C|^2 = r^2` for a ray that meets the
/// sphere: `near` is `(-half_b - sqrt(disc)) / a`, `far` is
/// `(-half_b + sqrt(disc)) / a`.
#[derive(Clone, Copy, Debug, PartialEq, Eq, Structural)]
pub struct Roots {
    pub near: Double,
    pub far: Double,
}

impl Roots {
    /// Neither root is NaN and `near` does not exceed `far`. The solutions of
    /// a ray whose direction is not the zero vector come in this order, unless
    /// evaluating the quadratic overflowed.
    pub open spec fn ordered(self) -> bool {
        !self.near.nan() && !self.far.nan() && self.near.rank() <= self.far.rank()
    }
}

/// `t` is neither below `t_min` nor above `t_max`.
pub open spec fn in_range(t: Double, t_min: Double, t_max: Double) -> bool {
    !t.less(t_min) && !t_max.less(t)
}

/// The nearest-valid-root policy: the near root if it is in range, else the
/// far root if that one is, else nothing.
pub open spec fn first_in_range(roots: Roots, t_min: Double, t_max: Double) -> Option<Double> {
    if in_range(roots.near, t_min, t_max) {
        Some(roots.near)
    } else if in_range(roots.far, t_min, t_max) {
        Some(roots.far)
    } else {
        None
    }
}

/// The hit parameter of a primitive that may have no roots at all.
pub open spec fn hit_parameter(
    candidate: Option<Roots>,
    t_min: Double,
    t_max: Double,
) -> Option<Double> {
    match candidate {
        Some(roots) => first_in_range(roots, t_min, t_max),
        None => None,
    }
}

/// Whether the quadratic has a real root: its discriminant is not below zero.
pub fn has_real_roots(discriminant: Double) -> (r: bool)
    ensures
        r == !discriminant.less(Double { bits: 0 }),
{
    !discriminant.lt(Double { bits: 0 })
}

fn within(t: Double, t_min: Double, t_max: Double) -> (r: bool)
    ensures
        r == in_range(t, t_min, t_max),
{
    !t.lt(t_min) && !t_max.lt(t)
}

/// The ray parameter at which the sphere is hit within `[t_min, t_max]`, if
/// it is hit there: the smaller root is preferred, the larger is the
/// fallback.
pub fn nearest_root(roots: Roots, t_min: Double, t_max: Double) -> (r: Option<Double>)
    ensures
        r == first_in_range(roots, t_min, t_max),
        r is None <==> !in_range(roots.near, t_min, t_max) && !in_range(roots.far, t_min, t_max),
        r matches Some(t) ==> in_range(t, t_min, t_max) && (t == roots.near || t == roots.far),
{
    if within(roots.near, t_min, t_max) {
        Some(roots.near)
    } else if within(roots.far, t_min, t_max) {
        Some(roots.far)
    } else {
        None
    }
}

/// A sphere whose roots all fall outside the window is not hit, wherever
/// those roots are; and a reported hit always lies inside the window.
pub proof fn lemma_no_hit_outside_range(roots: Roots, t_min: Double, t_max: Double)
    requires
        !roots.near.nan(),
        !roots.far.nan(),
        !t_min.nan(),
        !t_max.nan(),
    ensures
        (roots.near.rank() < t_min.rank() || roots.near.rank() > t_max.rank()) && (roots.far.rank()
            < t_min.rank() || roots.far.rank() > t_max.rank()) ==> first_in_range(
            roots,
            t_min,
            t_max,
        ) is None,
        first_in_range(roots, t_min, t_max) matches Some(t) ==> t_min.rank() <= t.rank()
            <= t_max.rank(),
{
}

/// Lowering the upper bound never changes which root is reported, it only
/// drops a hit that lies beyond the new bound.
pub proof fn lemma_narrowed_range(roots: Roots, t_min: Double, t_max: Double, bound: Double)
    requires
        roots.ordered(),
        !bound.nan(),
        !t_max.less(bound),
    ensures
        first_in_range(roots, t_min, bound) == match first_in_range(roots, t_min, t_max) {
            Some(t) => if bound.less(t) {
                None
            } else {
                Some(t)
            },
            None => None,
        },
{
}

/// How a surface is met: from the side its outward normal points to, or from
/// behind, and the normal to store, which always opposes the incoming ray.
#[derive(Clone, Copy, Debug, PartialEq, Eq, Structural)]
pub struct Facing {
    pub front_face: bool,
    pub normal: Vec3,
}

/// The facing that follows from `dot(ray.direction, outward_normal)`.
pub open spec fn facing_of(direction_dot_outward: Double, outward_normal: Vec3) -> Facing {
    if direction_dot_outward.less(Double { bits: 0 }) {
        Facing { front_face: true, normal: outward_normal }
    } else {
        Facing { front_face: false, normal: outward_normal.negated() }
    }
}

/// Orients the stored normal: `front_face` is `dot(direction, outward) < 0`,
/// and the normal is the outward normal if front-facing, else its negation.
pub fn face_normal(direction_dot_outward: Double, outward_normal: Vec3) -> (r: Facing)
    ensures
        r == facing_of(direction_dot_outward, outward_normal),
{
    if direction_dot_outward.lt(Double { bits: 0 }) {
        Facing { front_face: true, normal: outward_normal }
    } else {
        Facing { front_face: false, normal: outward_normal.neg() }
    }
}

/// Turning a surface inside out, which negates its outward normal and with it
/// the dot product, flips `front_face` and leaves the stored normal as it was.
/// This is what a sphere of negated radius relies on. A ray that grazes the
/// surface, with a dot product of zero, is left out.
pub proof fn lemma_inverted_surface(direction_dot_outward: Double, outward_normal: Vec3)
    requires
        !direction_dot_outward.nan(),
        direction_dot_outward.rank() != 0,
    ensures
        facing_of(direction_dot_outward.negated(), outward_normal.negated()).front_face
            == !facing_of(direction_dot_outward, outward_normal).front_face,
        facing_of(direction_dot_outward.negated(), outward_normal.negated()).normal == facing_of(
            direction_dot_outward,
            outward_normal,
        ).normal,
{
}

} // verus!
