//! The tests that the random samplers apply to a candidate.

use vstd::prelude::*;
use crate::double::{Double, ONE_BITS};
use crate::vec3::Vec3;

verus! {

/// Rejection sampling accepts a candidate drawn from the bounding cube or
/// square only if its squared length is below one.
pub fn accepts(length_squared: Double) -> (r: bool)
    ensures
        r == length_squared.less(Double { bits: ONE_BITS }),
{
    length_squared.lt(Double { bits: ONE_BITS })
}

/// A sample of the unit sphere turned into the hemisphere about the normal:
/// kept where its dot product with the normal is above zero, negated
/// otherwise.
pub fn into_hemisphere(sample: Vec3, sample_dot_normal: Double) -> (r: Vec3)
    ensures
        r == if (Double { bits: 0 }).less(sample_dot_normal) {
            sample
        } else {
            sample.negated()
        },
{
    if sample_dot_normal.gt(Double { bits: 0 }) {
        sample
    } else {
        sample.neg()
    }
}

} // verus!
