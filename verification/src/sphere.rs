//! Spheres of the scene and their GPU-layout snapshots. Scalar components
//! are carried as the bit patterns of the 32-bit IEEE values the compute
//! kernel reads, so the conversion into the uniform layout is lossless and
//! stated exactly.

use vstd::prelude::*;
use crate::bits::{i32_to_f32_bits, spec_f32_bits_of_i32, ColorBits, Vec4Bits, F32_ONE_BITS};

verus! {

/// A sphere: homogeneous center (w fixed to one), integer radius, and base
/// color. Immutable once the scene is built.
#[derive(Clone, Copy, Debug, PartialEq, Eq, Structural)]
pub struct Sphere {
    /// Center of the sphere; `w` holds the bits of one.
    pub center: Vec4Bits,
    /// Radius, in whole units.
    pub radius: i32,
    /// Base color; the last channel is replaced by the packed radius in the
    /// uniform layout.
    pub color: ColorBits,
}

/// The kernel's sphere layout: the center followed by the color whose last
/// channel carries the radius as a 32-bit float.
#[derive(Clone, Copy, Debug, PartialEq, Eq, Structural)]
pub struct SphereUniform {
    pub center: Vec4Bits,
    pub color: ColorBits,
}

impl Sphere {
    /// The color with the radius packed into its last channel, as the
    /// kernel reads it.
    pub open spec fn spec_packed_color(self) -> ColorBits {
        ColorBits {
            r: self.color.r,
            g: self.color.g,
            b: self.color.b,
            a: spec_f32_bits_of_i32(self.radius as int) as u32,
        }
    }

    /// The exact uniform snapshot of this sphere.
    pub open spec fn spec_to_uniform(self) -> SphereUniform {
        SphereUniform { center: self.center, color: self.spec_packed_color() }
    }

    /// A sphere at `(x, y, z)` (bit patterns) with the given radius and
    /// color; the homogeneous coordinate is set to one.
    pub fn new(x: u32, y: u32, z: u32, radius: i32, color: &ColorBits) -> (s: Sphere)
        ensures
            s.center == (Vec4Bits { x, y, z, w: F32_ONE_BITS }),
            s.radius == radius,
            s.color == *color,
    {
        Sphere { center: Vec4Bits { x, y, z, w: F32_ONE_BITS }, radius, color: *color }
    }

    /// The base color with the radius converted to float bits and packed
    /// into the last channel.
    pub fn color_and_pack_radius(&self) -> (c: ColorBits)
        ensures
            c == self.spec_packed_color(),
    {
        let mut color: ColorBits = self.color;
        color.a = i32_to_f32_bits(self.radius);
        proof {
            crate::bits::lemma_f32_bits_of_i32_fits(self.radius as int);
        }
        color
    }

    /// The lossless uniform snapshot: center copied bit for bit, color
    /// with the packed radius.
    pub fn to_uniform(&self) -> (u: SphereUniform)
        ensures
            u == self.spec_to_uniform(),
    {
        SphereUniform { center: self.center, color: self.color_and_pack_radius() }
    }
}

} // verus!
