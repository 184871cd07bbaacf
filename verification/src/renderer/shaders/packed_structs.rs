//! Structs with the memory layout of their same named counterparts in shader
//! code.
//!
//! To keep the data that travels to the GPU every frame small the structs in
//! this module are "packed": a scalar rides in the fourth lane of a
//! three-lane vector wherever one is free. A light's colour, for one:
//!
//!   color.x = R, color.y = G, color.z = B, color.w = specular amount
//!
//! Every field is a four-lane vector, so every field starts on a 16 byte
//! boundary as the uniform address space demands.
use vstd::prelude::*;
use vstd::std_specs::convert::FromSpecImpl;
use crate::math::Scalar;
use crate::math::Vec3;
use crate::math::Vec4;
use crate::renderer::lighting::DirectionalLight;
use crate::renderer::lighting::PointLight;
use crate::renderer::lighting::SpotCone;
use crate::renderer::lighting::SpotLight;
use crate::renderer::materials::Material;

verus! {

/// `xyz` in the first three lanes and `w` in the fourth.
pub open spec fn vec3_w_spec(xyz: Vec3, w: Scalar) -> Vec4 {
    Vec4 { x: xyz.x, y: xyz.y, z: xyz.z, w }
}

/// Returns a new `Vec4` value that is the combination of a `Vec3` x, y and z
/// and an additional `w` value.
pub fn vec3_w(xyz: Vec3, w: Scalar) -> (v: Vec4)
    ensures
        v == vec3_w_spec(xyz, w),
{
    Vec4 { x: xyz.x, y: xyz.y, z: xyz.z, w }
}

/// The layout of `PackedMaterialConstants` in the lighting shaders.
#[derive(Clone, Copy, Debug, PartialEq, Eq, Structural)]
pub struct PackedMaterialConstants {
    /// `.w` is unused.
    pub ambient_color: Vec4,
    /// `.w` is unused.
    pub diffuse_color: Vec4,
    /// `.w` is specular power.
    pub specular_color: Vec4,
}

/// The layout of `PackedDirectionalLight` in the lighting shaders.
#[derive(Clone, Copy, Debug, PartialEq, Eq, Structural)]
pub struct PackedDirectionalLight {
    /// `.xyz` is the unit direction, `.w` is ambient amount.
    pub direction: Vec4,
    /// `.w` is specular amount.
    pub color: Vec4,
}

/// The layout of `PackedPointLight` in the lighting shaders.
#[derive(Clone, Copy, Debug, PartialEq, Eq, Structural)]
pub struct PackedPointLight {
    /// `.w` is ambient amount.
    pub position: Vec4,
    /// `.w` is specular amount.
    pub color: Vec4,
    /// `(constant, linear, quadratic, unused)`.
    pub attenuation: Vec4,
    pub padding: Vec4,
}

/// The layout of `PackedSpotLight` in the lighting shaders.
#[derive(Clone, Copy, Debug, PartialEq, Eq, Structural)]
pub struct PackedSpotLight {
    /// `.w` is the cosine of the cut off angle.
    pub position: Vec4,
    /// `.xyz` is the unit direction, `.w` is ambient amount.
    pub direction: Vec4,
    /// `.w` is specular amount.
    pub color: Vec4,
    /// `.w` is the cosine of the outer cut off angle.
    pub attenuation: Vec4,
}

impl PackedMaterialConstants {
    pub open spec fn packed(val: Material) -> PackedMaterialConstants {
        PackedMaterialConstants {
            ambient_color: vec3_w_spec(val.ambient_color, Scalar { bits: 0 }),
            diffuse_color: vec3_w_spec(val.diffuse_color, Scalar { bits: 0 }),
            specular_color: vec3_w_spec(val.specular_color, val.specular_power),
        }
    }

    /// All lanes zero.
    pub open spec fn zeroed() -> PackedMaterialConstants {
        PackedMaterialConstants {
            ambient_color: Vec4::zero_spec(),
            diffuse_color: Vec4::zero_spec(),
            specular_color: Vec4::zero_spec(),
        }
    }
}

impl From<Material> for PackedMaterialConstants {
    fn from(val: Material) -> (p: Self) {
        PackedMaterialConstants {
            ambient_color: vec3_w(val.ambient_color, Scalar::zero()),
            diffuse_color: vec3_w(val.diffuse_color, Scalar::zero()),
            specular_color: vec3_w(val.specular_color, val.specular_power),
        }
    }
}

impl FromSpecImpl<Material> for PackedMaterialConstants {
    open spec fn obeys_from_spec() -> bool {
        true
    }

    open spec fn from_spec(val: Material) -> PackedMaterialConstants {
        PackedMaterialConstants::packed(val)
    }
}

impl PackedDirectionalLight {
    /// The packed form of `light`, whose direction scaled to unit length is
    /// `unit_direction`.
    pub open spec fn packed(
        light: DirectionalLight,
        unit_direction: Vec3,
    ) -> PackedDirectionalLight {
        PackedDirectionalLight {
            direction: vec3_w_spec(unit_direction, light.ambient),
            color: vec3_w_spec(light.color, light.specular),
        }
    }

    /// All lanes zero.
    pub open spec fn zeroed() -> PackedDirectionalLight {
        PackedDirectionalLight { direction: Vec4::zero_spec(), color: Vec4::zero_spec() }
    }

    /// Packs `light`. The caller passes the light's direction scaled to unit
    /// length.
    pub fn pack(light: &DirectionalLight, unit_direction: Vec3) -> (p: Self)
        ensures
            p == Self::packed(*light, unit_direction),
    {
        PackedDirectionalLight {
            direction: vec3_w(unit_direction, light.ambient),
            color: vec3_w(light.color, light.specular),
        }
    }

    pub fn zero() -> (p: Self)
        ensures
            p == Self::zeroed(),
    {
        PackedDirectionalLight { direction: Vec4::zero(), color: Vec4::zero() }
    }
}

impl PackedPointLight {
    pub open spec fn packed(val: PointLight) -> PackedPointLight {
        PackedPointLight {
            position: vec3_w_spec(val.position, val.ambient),
            color: vec3_w_spec(val.color, val.specular),
            attenuation: Vec4 {
                x: val.attenuation.constant,
                y: val.attenuation.linear,
                z: val.attenuation.quadratic,
                w: Scalar { bits: 0 },
            },
            padding: Vec4::zero_spec(),
        }
    }

    /// All lanes zero.
    pub open spec fn zeroed() -> PackedPointLight {
        PackedPointLight {
            position: Vec4::zero_spec(),
            color: Vec4::zero_spec(),
            attenuation: Vec4::zero_spec(),
            padding: Vec4::zero_spec(),
        }
    }

    pub fn zero() -> (p: Self)
        ensures
            p == Self::zeroed(),
    {
        PackedPointLight {
            position: Vec4::zero(),
            color: Vec4::zero(),
            attenuation: Vec4::zero(),
            padding: Vec4::zero(),
        }
    }
}

impl From<PointLight> for PackedPointLight {
    fn from(val: PointLight) -> (p: Self) {
        PackedPointLight {
            position: vec3_w(val.position, val.ambient),
            color: vec3_w(val.color, val.specular),
            attenuation: Vec4::new(
                val.attenuation.constant,
                val.attenuation.linear,
                val.attenuation.quadratic,
                Scalar::zero(),
            ),
            padding: Vec4::zero(),
        }
    }
}

impl FromSpecImpl<PointLight> for PackedPointLight {
    open spec fn obeys_from_spec() -> bool {
        true
    }

    open spec fn from_spec(val: PointLight) -> PackedPointLight {
        PackedPointLight::packed(val)
    }
}

impl PackedSpotLight {
    /// The packed form of `light`, given its cone.
    pub open spec fn packed(light: SpotLight, cone: SpotCone) -> PackedSpotLight {
        PackedSpotLight {
            position: vec3_w_spec(light.position, cone.cutoff_cos),
            direction: vec3_w_spec(cone.unit_direction, light.ambient),
            color: vec3_w_spec(light.color, light.specular),
            attenuation: Vec4 {
                x: light.attenuation.constant,
                y: light.attenuation.linear,
                z: light.attenuation.quadratic,
                w: cone.outer_cutoff_cos,
            },
        }
    }

    /// All lanes zero.
    pub open spec fn zeroed() -> PackedSpotLight {
        PackedSpotLight {
            position: Vec4::zero_spec(),
            direction: Vec4::zero_spec(),
            color: Vec4::zero_spec(),
            attenuation: Vec4::zero_spec(),
        }
    }

    /// Packs `light`. The caller passes the light's direction scaled to unit
    /// length and the cosines of its two cut off angles.
    pub fn pack(light: &SpotLight, cone: &SpotCone) -> (p: Self)
        ensures
            p == Self::packed(*light, *cone),
    {
        PackedSpotLight {
            position: vec3_w(light.position, cone.cutoff_cos),
            direction: vec3_w(cone.unit_direction, light.ambient),
            color: vec3_w(light.color, light.specular),
            attenuation: Vec4::new(
                light.attenuation.constant,
                light.attenuation.linear,
                light.attenuation.quadratic,
                cone.outer_cutoff_cos,
            ),
        }
    }

    pub fn zero() -> (p: Self)
        ensures
            p == Self::zeroed(),
    {
        PackedSpotLight {
            position: Vec4::zero(),
            direction: Vec4::zero(),
            color: Vec4::zero(),
            attenuation: Vec4::zero(),
        }
    }
}

} // verus!
