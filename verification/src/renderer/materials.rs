//! Phong materials and a builder that fills in defaults.
use vstd::prelude::*;
use crate::math::Scalar;
use crate::math::Vec3;
use crate::math::ONE;

verus! {

/// The name under which the host keeps a GPU texture.
#[derive(Clone, Copy, Debug, PartialEq, Eq, Structural)]
pub struct TextureId {
    pub id: u64,
}

/// The 1x1 textures that stand in for a map that a material does not set:
/// white for diffuse, black for specular and emissive.
#[derive(Clone, Copy, Debug, PartialEq, Eq, Structural)]
pub struct DefaultTextures {
    pub diffuse_map: TextureId,
    pub specular_map: TextureId,
    pub emissive_map: TextureId,
}

/// A render material that is compatible with the standard lighting shader
/// with phong lighting properties.
///
/// A material can set both a constant color and a texture map for the
/// ambient, diffuse and specular values. When both a constant and a texture
/// map are set the values are multiplied together. The ambient color is the
/// ambient color multiplied by the diffuse texture.
#[derive(Clone, Copy, Debug, PartialEq, Eq, Structural)]
pub struct Material {
    pub ambient_color: Vec3,
    pub diffuse_color: Vec3,
    pub diffuse_map: TextureId,
    pub specular_color: Vec3,
    pub specular_map: TextureId,
    pub specular_power: Scalar,
    pub emissive_map: TextureId,
}

/// A fluent builder for creating materials without having to specify every
/// optional property.
#[derive(Clone, Copy, Debug, PartialEq, Eq, Structural)]
pub struct MaterialBuilder {
    pub ambient_color: Option<Vec3>,
    pub diffuse_color: Option<Vec3>,
    pub specular_color: Option<Vec3>,
    pub specular_power: Option<Scalar>,
    pub diffuse_map: Option<TextureId>,
    pub specular_map: Option<TextureId>,
    pub emissive_map: Option<TextureId>,
}

impl MaterialBuilder {
    /// `(1, 1, 1)`.
    pub open spec fn default_ambient_color() -> Vec3 {
        Vec3::splat_spec(ONE)
    }

    /// `(1, 1, 1)`.
    pub open spec fn default_diffuse_color() -> Vec3 {
        Vec3::splat_spec(ONE)
    }

    /// `(0, 0, 0)`.
    pub open spec fn default_specular_color() -> Vec3 {
        Vec3::splat_spec(0)
    }

    /// Zero.
    pub open spec fn default_specular_power() -> Scalar {
        Scalar { bits: 0 }
    }

    /// What `build` returns for a builder and a set of default textures.
    pub open spec fn built(self, default_textures: DefaultTextures) -> Material {
        Material {
            ambient_color: match self.ambient_color {
                Some(c) => c,
                None => Self::default_ambient_color(),
            },
            diffuse_color: match self.diffuse_color {
                Some(c) => c,
                None => Self::default_diffuse_color(),
            },
            specular_color: match self.specular_color {
                Some(c) => c,
                None => Self::default_specular_color(),
            },
            specular_power: match self.specular_power {
                Some(p) => p,
                None => Self::default_specular_power(),
            },
            diffuse_map: match self.diffuse_map {
                Some(t) => t,
                None => default_textures.diffuse_map,
            },
            specular_map: match self.specular_map {
                Some(t) => t,
                None => default_textures.specular_map,
            },
            emissive_map: match self.emissive_map {
                Some(t) => t,
                None => default_textures.emissive_map,
            },
        }
    }

    /// Create a new material builder with nothing set.
    pub fn new() -> (b: Self)
        ensures
            b == (MaterialBuilder {
                ambient_color: None,
                diffuse_color: None,
                specular_color: None,
                specular_power: None,
                diffuse_map: None,
                specular_map: None,
                emissive_map: None,
            }),
    {
        MaterialBuilder {
            ambient_color: None,
            diffuse_color: None,
            specular_color: None,
            specular_power: None,
            diffuse_map: None,
            specular_map: None,
            emissive_map: None,
        }
    }

    /// Set the material's ambient color to a constant value.
    pub fn ambient_color(self, color: Vec3) -> (b: Self)
        ensures
            b == (MaterialBuilder { ambient_color: Some(color), ..self }),
    {
        MaterialBuilder { ambient_color: Some(color), ..self }
    }

    /// Set the material's diffuse color to a constant value.
    pub fn diffuse_color(self, color: Vec3) -> (b: Self)
        ensures
            b == (MaterialBuilder { diffuse_color: Some(color), ..self }),
    {
        MaterialBuilder { diffuse_color: Some(color), ..self }
    }

    /// Set the material's specular color to a constant value.
    pub fn specular_color(self, color: Vec3) -> (b: Self)
        ensures
            b == (MaterialBuilder { specular_color: Some(color), ..self }),
    {
        MaterialBuilder { specular_color: Some(color), ..self }
    }

    /// Set the material's specular power.
    pub fn specular_power(self, power: Scalar) -> (b: Self)
        ensures
            b == (MaterialBuilder { specular_power: Some(power), ..self }),
    {
        MaterialBuilder { specular_power: Some(power), ..self }
    }

    /// Set the material's diffuse texture map.
    pub fn diffuse_map(self, texture: TextureId) -> (b: Self)
        ensures
            b == (MaterialBuilder { diffuse_map: Some(texture), ..self }),
    {
        MaterialBuilder { diffuse_map: Some(texture), ..self }
    }

    /// Set the material's specular texture map.
    pub fn specular_map(self, texture: TextureId) -> (b: Self)
        ensures
            b == (MaterialBuilder { specular_map: Some(texture), ..self }),
    {
        MaterialBuilder { specular_map: Some(texture), ..self }
    }

    /// Set the material's emissive texture map.
    pub fn emissive_map(self, texture: TextureId) -> (b: Self)
        ensures
            b == (MaterialBuilder { emissive_map: Some(texture), ..self }),
    {
        MaterialBuilder { emissive_map: Some(texture), ..self }
    }

    /// Use the properties of this material builder to construct a new
    /// material.
    ///
    /// A constant that was not set takes its default; a texture map that was
    /// not set takes the matching texture of `default_textures`.
    pub fn build(self, default_textures: &DefaultTextures) -> (m: Material)
        ensures
            m == self.built(*default_textures),
    {
        let one: Vec3 = Vec3::splat(Scalar::one());
        Material {
            ambient_color: match self.ambient_color {
                Some(c) => c,
                None => one,
            },
            diffuse_color: match self.diffuse_color {
                Some(c) => c,
                None => one,
            },
            specular_color: match self.specular_color {
                Some(c) => c,
                None => Vec3::zero(),
            },
            specular_power: match self.specular_power {
                Some(p) => p,
                None => Scalar::zero(),
            },
            diffuse_map: match self.diffuse_map {
                Some(t) => t,
                None => default_textures.diffuse_map,
            },
            specular_map: match self.specular_map {
                Some(t) => t,
                None => default_textures.specular_map,
            },
            emissive_map: match self.emissive_map {
                Some(t) => t,
                None => default_textures.emissive_map,
            },
        }
    }
}

} // verus!
