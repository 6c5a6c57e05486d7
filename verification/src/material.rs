//! The three surface materials and what each decides when a ray is scattered.

use vstd::prelude::*;
use crate::double::{Double, ONE_BITS};
use crate::vec3::{Color, Vec3};

verus! {

/// A surface material: one of three scattering behaviours.
#[derive(Clone, Copy, Debug, PartialEq, Eq, Structural)]
pub enum Material {
    /// Diffuse: scatters about the normal and tints by `albedo`.
    Lambertian { albedo: Color },
    /// Specular with roughness `fuzz`, which lies in `[0, 1]`.
    Metal { albedo: Color, fuzz: Double },
    /// Transmissive, with the given refractive index.
    Dielectric { ir: Double },
}

/// `f` held in `[0, 1]`: below zero it becomes `0.0`, and at one, above it or
/// NaN it becomes `1.0`.
pub open spec fn fuzz_in_unit(f: Double) -> Double {
    if f.less(Double { bits: ONE_BITS }) {
        if f.less(Double { bits: 0 }) {
            Double { bits: 0 }
        } else {
            f
        }
    } else {
        Double { bits: ONE_BITS }
    }
}

impl Material {
    /// The colour multiplier of one scattering: the albedo of a diffuse or
    /// metal surface, opaque white for a dielectric.
    pub open spec fn tint(self) -> Color {
        match self {
            Material::Lambertian { albedo } => albedo,
            Material::Metal { albedo, .. } => albedo,
            Material::Dielectric { .. } => Vec3 {
                x: Double { bits: ONE_BITS },
                y: Double { bits: ONE_BITS },
                z: Double { bits: ONE_BITS },
            },
        }
    }

    pub fn lambertian(albedo: Color) -> (r: Material)
        ensures
            r == (Material::Lambertian { albedo }),
    {
        Material::Lambertian { albedo }
    }

    /// A metal whose fuzz is `fuzz` clamped to `[0, 1]`.
    pub fn metal(albedo: Color, fuzz: Double) -> (r: Material)
        ensures
            r == (Material::Metal { albedo, fuzz: fuzz_in_unit(fuzz) }),
            r matches Material::Metal { fuzz: held, .. } && !held.nan() && 0 <= held.rank() <= (Double {
                bits: ONE_BITS,
            }).rank(),
    {
        let one = Double { bits: ONE_BITS };
        let zero = Double { bits: 0 };
        let held = if fuzz.lt(one) {
            if fuzz.lt(zero) {
                zero
            } else {
                fuzz
            }
        } else {
            one
        };
        Material::Metal { albedo, fuzz: held }
    }

    pub fn dielectric(ir: Double) -> (r: Material)
        ensures
            r == (Material::Dielectric { ir }),
    {
        Material::Dielectric { ir }
    }

    /// The attenuation that a scattering off this material applies.
    pub fn attenuation(&self) -> (r: Color)
        ensures
            r == self.tint(),
    {
        match self {
            Material::Lambertian { albedo } => *albedo,
            Material::Metal { albedo, .. } => *albedo,
            Material::Dielectric { .. } => {
                let one = Double { bits: ONE_BITS };
                Vec3 { x: one, y: one, z: one }
            },
        }
    }
}

/// The direction in which a diffuse surface scatters: the candidate
/// `normal + random_unit_vector`, unless that sum is near zero, in which case
/// the normal itself.
pub fn diffuse_direction(candidate: Vec3, normal: Vec3) -> (r: Vec3)
    ensures
        r == if candidate.vanishing() {
            normal
        } else {
            candidate
        },
{
    if candidate.near_zero() {
        normal
    } else {
        candidate
    }
}

/// Whether a metal scatters: only if the fuzzed reflection leaves the surface,
/// that is if its dot product with the normal is above zero.
pub fn metal_scatters(scattered_dot_normal: Double) -> (r: bool)
    ensures
        r == (Double { bits: 0 }).less(scattered_dot_normal),
{
    scattered_dot_normal.gt(Double { bits: 0 })
}

/// Total internal reflection: `refraction_ratio * sin_theta` exceeds one, so
/// that Snell's law has no solution.
pub fn cannot_refract(ratio_times_sin: Double) -> (r: bool)
    ensures
        r == (Double { bits: ONE_BITS }).less(ratio_times_sin),
{
    ratio_times_sin.gt(Double { bits: ONE_BITS })
}

/// Whether a dielectric that could refract reflects instead: the Schlick
/// reflectance exceeds the uniform draw.
pub fn reflectance_wins(reflectance: Double, draw: Double) -> (r: bool)
    ensures
        r == draw.less(reflectance),
{
    reflectance.gt(draw)
}

} // verus!
