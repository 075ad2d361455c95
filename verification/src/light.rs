//! Lights of the scene and their GPU-layout snapshots. A light is a tagged
//! sum — ambient, point or directional — whose vector means a location for
//! a point light and a direction for a directional one; the kernel reads a
//! single flat struct with a numeric tag.

use vstd::prelude::*;
use crate::bits::{Vec3Bits, Vec4Bits, F32_ZERO_BITS};

verus! {

/// The kind of a light. The tag decides whether the light's vector is a
/// location (point) or a direction (directional); an ambient light has no
/// vector at all.
#[derive(Clone, Copy, Debug, PartialEq, Eq, Structural)]
pub enum LightType {
    Ambient,
    Point,
    Directional,
}

/// The numeric tag the kernel layout stores for each kind of light.
pub open spec fn spec_light_tag(t: LightType) -> int {
    match t {
        LightType::Ambient => 0,
        LightType::Point => 1,
        LightType::Directional => 2,
    }
}

/// A light: kind, intensity (a 32-bit float bit pattern), and the vector
/// whose meaning the kind decides. Immutable once the scene is built.
#[derive(Clone, Copy, Debug, PartialEq, Eq, Structural)]
pub struct Light {
    pub light_type: LightType,
    pub intensity: u32,
    /// Location of a point light, or direction of a directional light,
    /// with a zero homogeneous coordinate.
    pub position: Vec4Bits,
}

/// The kernel's light layout: vector, intensity, numeric tag, and two
/// zeroed padding slots.
#[derive(Clone, Copy, Debug, PartialEq, Eq, Structural)]
pub struct LightUniform {
    pub position: Vec4Bits,
    pub intensity: u32,
    pub light_type: i32,
    pub padding0: u32,
    pub padding1: u32,
}

impl Light {
    /// The exact uniform snapshot of this light.
    pub open spec fn spec_to_uniform(self) -> LightUniform {
        LightUniform {
            position: self.position,
            intensity: self.intensity,
            light_type: spec_light_tag(self.light_type) as i32,
            padding0: F32_ZERO_BITS,
            padding1: F32_ZERO_BITS,
        }
    }

    /// A light of the given kind and intensity. An absent vector (an
    /// ambient light) becomes all zero bits; a present one keeps its
    /// components with a zero homogeneous coordinate.
    pub fn new(light_type: LightType, intensity: u32, position: Option<Vec3Bits>) -> (l: Light)
        ensures
            l.light_type == light_type,
            l.intensity == intensity,
            position is None ==> l.position == (Vec4Bits {
                x: F32_ZERO_BITS,
                y: F32_ZERO_BITS,
                z: F32_ZERO_BITS,
                w: F32_ZERO_BITS,
            }),
            position matches Some(p) ==> l.position == (Vec4Bits {
                x: p.x,
                y: p.y,
                z: p.z,
                w: F32_ZERO_BITS,
            }),
    {
        let position: Vec4Bits = match position {
            None => Vec4Bits {
                x: F32_ZERO_BITS,
                y: F32_ZERO_BITS,
                z: F32_ZERO_BITS,
                w: F32_ZERO_BITS,
            },
            Some(p) => Vec4Bits { x: p.x, y: p.y, z: p.z, w: F32_ZERO_BITS },
        };
        Light { light_type, intensity, position }
    }

    /// The numeric tag of this light's kind.
    pub fn tag(&self) -> (t: i32)
        ensures
            t as int == spec_light_tag(self.light_type),
    {
        match self.light_type {
            LightType::Ambient => 0,
            LightType::Point => 1,
            LightType::Directional => 2,
        }
    }

    /// The lossless uniform snapshot: vector and intensity copied bit for
    /// bit, the kind as its numeric tag, padding zeroed.
    pub fn to_uniform(&self) -> (u: LightUniform)
        ensures
            u == self.spec_to_uniform(),
    {
        LightUniform {
            position: self.position,
            intensity: self.intensity,
            light_type: self.tag(),
            padding0: F32_ZERO_BITS,
            padding1: F32_ZERO_BITS,
        }
    }
}

} // verus!
