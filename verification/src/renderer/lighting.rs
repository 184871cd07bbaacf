//! Light sources as the scene describes them.
use vstd::prelude::*;
use crate::math::Scalar;
use crate::math::Vec3;

verus! {

/// Attenuation terms of a positional light.
#[derive(Clone, Copy, Debug, PartialEq, Eq, Structural)]
pub struct LightAttenuation {
    pub constant: Scalar,
    pub linear: Scalar,
    pub quadratic: Scalar,
}

/// Point light.
#[derive(Clone, Copy, Debug, PartialEq, Eq, Structural)]
pub struct PointLight {
    /// The world position of the light.
    pub position: Vec3,
    /// The color of the light.
    pub color: Vec3,
    /// Attenuation terms.
    pub attenuation: LightAttenuation,
    /// Modifies the amount of color that is applied to the ambient term when
    /// shading. Between zero and one.
    pub ambient: Scalar,
    /// Modifies the amount of white color that is applied to the specular
    /// term when shading. Between zero and one.
    pub specular: Scalar,
}

/// Directional light.
#[derive(Clone, Copy, Debug, PartialEq, Eq, Structural)]
pub struct DirectionalLight {
    /// The direction of the light pointing _away_ from the light source.
    pub direction: Vec3,
    /// The color of the light.
    pub color: Vec3,
    /// Modifies the amount of color that is applied to the ambient term when
    /// shading.
    pub ambient: Scalar,
    /// Modifies the amount of white color that is applied to the specular
    /// term when shading.
    pub specular: Scalar,
}

/// A spot light.
#[derive(Clone, Copy, Debug, PartialEq, Eq, Structural)]
pub struct SpotLight {
    /// The world position of the light.
    pub position: Vec3,
    /// The direction of the light pointing _away_ from the light source.
    pub direction: Vec3,
    /// Cut off angle in radians.
    pub cutoff_radians: Scalar,
    /// Outer cut off angle in radians.
    pub outer_cutoff_radians: Scalar,
    /// The color of the light.
    pub color: Vec3,
    /// Attenuation terms.
    pub attenuation: LightAttenuation,
    /// Modifies the amount of color that is applied to the ambient term when
    /// shading.
    pub ambient: Scalar,
    /// Modifies the amount of white color that is applied to the specular
    /// term when shading.
    pub specular: Scalar,
}

/// What a shader needs of a spot light beyond its fields: the direction
/// scaled to unit length and the cosines of the two cut off angles.
#[derive(Clone, Copy, Debug, PartialEq, Eq, Structural)]
pub struct SpotCone {
    pub unit_direction: Vec3,
    pub cutoff_cos: Scalar,
    pub outer_cutoff_cos: Scalar,
}

impl PointLight {
    /// The ambient and specular modifiers lie between zero and one.
    pub open spec fn in_range(&self) -> bool {
        self.ambient.in_unit_interval() && self.specular.in_unit_interval()
    }

    pub fn is_in_range(&self) -> (r: bool)
        ensures
            r == self.in_range(),
    {
        self.ambient.is_in_unit_interval() && self.specular.is_in_unit_interval()
    }
}

} // verus!
