//! CPU-side representations of shader uniform blocks. Each struct defined in
//! this module has a matching struct of the same name in shader code.
//!
//! A struct that represents a uniform block is made of four-lane vectors and
//! groups of four 32-bit words only, so that every field sits on a 16 byte
//! boundary.
pub mod lit_shader;
pub mod packed_structs;

use vstd::prelude::*;
use crate::math::Mat4;
use crate::math::Scalar;
use crate::math::Vec3;
use crate::math::Vec4;
use crate::renderer::gpu_buffers::BindGroupId;
use crate::renderer::gpu_buffers::DynamicGpuBuffer;
use crate::renderer::gpu_buffers::GenericUniformBuffer;
use crate::renderer::lighting::DirectionalLight;
use crate::renderer::lighting::PointLight;
use crate::renderer::lighting::SpotCone;
use crate::renderer::lighting::SpotLight;
use crate::renderer::materials::Material;
use crate::renderer::materials::TextureId;
use crate::renderer::shaders::lit_shader::MAX_DIRECTIONAL_LIGHTS;
use crate::renderer::shaders::lit_shader::MAX_POINT_LIGHTS;
use crate::renderer::shaders::lit_shader::MAX_SPOT_LIGHTS;
use crate::renderer::shaders::packed_structs::PackedDirectionalLight;
use crate::renderer::shaders::packed_structs::PackedMaterialConstants;
use crate::renderer::shaders::packed_structs::PackedPointLight;
use crate::renderer::shaders::packed_structs::PackedSpotLight;

verus! {

/// The bind group slot of the per-frame uniforms.
pub const PER_FRAME_GROUP: u32 = 0;

/// The bind group slot of the per-model uniforms.
pub const PER_MODEL_GROUP: u32 = 1;

/// The bind group slot of the per-submesh uniforms and textures.
pub const PER_SUBMESH_GROUP: u32 = 2;

/// Per-frame shader uniforms used by the standard shader model.
#[derive(Clone, Copy, Debug)]
pub struct PerFramePackedUniforms {
    pub view_projection: Mat4,
    pub view_pos: Vec4,
    pub directional_lights: [PackedDirectionalLight; MAX_DIRECTIONAL_LIGHTS],
    pub spot_lights: [PackedSpotLight; MAX_SPOT_LIGHTS],
    pub directional_light_count: u32,
    pub spot_light_count: u32,
    pub output_is_srgb: u32,
    pub time_elapsed_seconds: Scalar,
}

/// A per-frame block as contracts see it: the arrays as sequences.
pub struct PerFrameBlock {
    pub view_projection: Mat4,
    pub view_pos: Vec4,
    pub directional_lights: Seq<PackedDirectionalLight>,
    pub spot_lights: Seq<PackedSpotLight>,
    pub directional_light_count: u32,
    pub spot_light_count: u32,
    pub output_is_srgb: u32,
    pub time_elapsed_seconds: Scalar,
}

impl View for PerFramePackedUniforms {
    type V = PerFrameBlock;

    open spec fn view(&self) -> PerFrameBlock {
        PerFrameBlock {
            view_projection: self.view_projection,
            view_pos: self.view_pos,
            directional_lights: self.directional_lights@,
            spot_lights: self.spot_lights@,
            directional_light_count: self.directional_light_count,
            spot_light_count: self.spot_light_count,
            output_is_srgb: self.output_is_srgb,
            time_elapsed_seconds: self.time_elapsed_seconds,
        }
    }
}

impl PerFrameBlock {
    /// The directional lights that the shader will read, in order.
    pub open spec fn active_directional_lights(self) -> Seq<PackedDirectionalLight> {
        self.directional_lights.take(self.directional_light_count as int)
    }

    /// The spot lights that the shader will read, in order.
    pub open spec fn active_spot_lights(self) -> Seq<PackedSpotLight> {
        self.spot_lights.take(self.spot_light_count as int)
    }

    /// The block that a new `PerFrameShaderVals` starts with: the identity
    /// as view projection and zero everywhere else.
    pub open spec fn initial() -> PerFrameBlock {
        PerFrameBlock {
            view_projection: Mat4::identity_spec(),
            view_pos: Vec4::zero_spec(),
            directional_lights: Seq::new(
                MAX_DIRECTIONAL_LIGHTS as nat,
                |i: int| PackedDirectionalLight::zeroed(),
            ),
            spot_lights: Seq::new(MAX_SPOT_LIGHTS as nat, |i: int| PackedSpotLight::zeroed()),
            directional_light_count: 0,
            spot_light_count: 0,
            output_is_srgb: 0,
            time_elapsed_seconds: Scalar { bits: 0 },
        }
    }

    /// The block with one more directional light behind those that are
    /// there; unchanged where the array is full.
    pub open spec fn with_directional_light(self, packed: PackedDirectionalLight) -> PerFrameBlock {
        if self.directional_light_count < MAX_DIRECTIONAL_LIGHTS {
            PerFrameBlock {
                directional_lights: self.directional_lights.update(
                    self.directional_light_count as int,
                    packed,
                ),
                directional_light_count: (self.directional_light_count + 1) as u32,
                ..self
            }
        } else {
            self
        }
    }

    /// The block with the first of `lights` in place of its directional
    /// lights, as many as the array takes. `units` holds the direction of
    /// each light scaled to unit length.
    pub open spec fn with_directional_lights(
        self,
        lights: Seq<DirectionalLight>,
        units: Seq<Vec3>,
    ) -> PerFrameBlock {
        PerFrameBlock {
            directional_lights: Seq::new(
                self.directional_lights.len(),
                |i: int|
                    if i < lights.len() {
                        PackedDirectionalLight::packed(lights[i], units[i])
                    } else {
                        self.directional_lights[i]
                    },
            ),
            directional_light_count: if lights.len() < MAX_DIRECTIONAL_LIGHTS {
                lights.len() as u32
            } else {
                MAX_DIRECTIONAL_LIGHTS as u32
            },
            ..self
        }
    }

    /// The block with the first of `lights` in place of its spot lights, as
    /// many as the array takes. `cones` holds the cone of each light.
    pub open spec fn with_spot_lights(
        self,
        lights: Seq<SpotLight>,
        cones: Seq<SpotCone>,
    ) -> PerFrameBlock {
        PerFrameBlock {
            spot_lights: Seq::new(
                self.spot_lights.len(),
                |i: int|
                    if i < lights.len() {
                        PackedSpotLight::packed(lights[i], cones[i])
                    } else {
                        self.spot_lights[i]
                    },
            ),
            spot_light_count: if lights.len() < MAX_SPOT_LIGHTS {
                lights.len() as u32
            } else {
                MAX_SPOT_LIGHTS as u32
            },
            ..self
        }
    }

    /// After the lights of a block were replaced, the shader reads the
    /// first of the new lights, in order, as many as the arrays take, and
    /// no other.
    pub proof fn lemma_active_lights(
        self,
        directional: Seq<DirectionalLight>,
        units: Seq<Vec3>,
        spots: Seq<SpotLight>,
        cones: Seq<SpotCone>,
    )
        requires
            self.directional_lights.len() == MAX_DIRECTIONAL_LIGHTS,
            self.spot_lights.len() == MAX_SPOT_LIGHTS,
        ensures
            ({
                let after = self.with_directional_lights(directional, units).with_spot_lights(
                    spots,
                    cones,
                );
                &&& after.active_directional_lights() == Seq::new(
                    if directional.len() < MAX_DIRECTIONAL_LIGHTS {
                        directional.len()
                    } else {
                        MAX_DIRECTIONAL_LIGHTS as nat
                    },
                    |i: int| PackedDirectionalLight::packed(directional[i], units[i]),
                )
                &&& after.active_spot_lights() == Seq::new(
                    if spots.len() < MAX_SPOT_LIGHTS {
                        spots.len()
                    } else {
                        MAX_SPOT_LIGHTS as nat
                    },
                    |i: int| PackedSpotLight::packed(spots[i], cones[i]),
                )
            }),
    {
        let after = self.with_directional_lights(directional, units).with_spot_lights(spots, cones);
        assert(after.active_directional_lights() =~= Seq::new(
            if directional.len() < MAX_DIRECTIONAL_LIGHTS {
                directional.len()
            } else {
                MAX_DIRECTIONAL_LIGHTS as nat
            },
            |i: int| PackedDirectionalLight::packed(directional[i], units[i]),
        ));
        assert(after.active_spot_lights() =~= Seq::new(
            if spots.len() < MAX_SPOT_LIGHTS {
                spots.len()
            } else {
                MAX_SPOT_LIGHTS as nat
            },
            |i: int| PackedSpotLight::packed(spots[i], cones[i]),
        ));
    }

    /// The block with one more spot light behind those that are there;
    /// unchanged where the array is full.
    pub open spec fn with_spot_light(self, packed: PackedSpotLight) -> PerFrameBlock {
        if self.spot_light_count < MAX_SPOT_LIGHTS {
            PerFrameBlock {
                spot_lights: self.spot_lights.update(self.spot_light_count as int, packed),
                spot_light_count: (self.spot_light_count + 1) as u32,
                ..self
            }
        } else {
            self
        }
    }
}

/// The per-frame uniform block and its dirty flag. Only one instance is
/// needed per renderer.
pub struct PerFrameShaderVals {
    uniforms: GenericUniformBuffer<PerFramePackedUniforms>,
}

impl PerFrameShaderVals {
    /// The CPU-side block.
    pub closed spec fn values(&self) -> PerFrameBlock {
        self.uniforms.values_spec()@
    }

    /// The block that the GPU holds.
    pub closed spec fn gpu_values(&self) -> PerFrameBlock {
        self.uniforms.gpu_values()@
    }

    /// The dirty flag.
    pub closed spec fn dirty(&self) -> bool {
        self.uniforms.dirty()
    }

    /// Create a new per frame shader values struct.
    pub fn new() -> (vals: Self)
        ensures
            vals.values() == PerFrameBlock::initial(),
            vals.gpu_values() == vals.values(),
            !vals.dirty(),
    {
        let dl: PackedDirectionalLight = PackedDirectionalLight::zero();
        let sl: PackedSpotLight = PackedSpotLight::zero();
        let values = PerFramePackedUniforms {
            view_projection: Mat4::identity(),
            view_pos: Vec4::zero(),
            directional_lights: [dl, dl, dl],
            spot_lights: [sl, sl],
            directional_light_count: 0,
            spot_light_count: 0,
            output_is_srgb: 0,
            time_elapsed_seconds: Scalar::zero(),
        };
        assert(values@.directional_lights =~= PerFrameBlock::initial().directional_lights);
        assert(values@.spot_lights =~= PerFrameBlock::initial().spot_lights);
        PerFrameShaderVals { uniforms: GenericUniformBuffer::new(values) }
    }

    /// The block as it stands on the CPU.
    pub fn uniforms(&self) -> (v: &PerFramePackedUniforms)
        ensures
            v@ == self.values(),
    {
        self.uniforms.values()
    }

    /// Set view projection matrix.
    pub fn set_view_projection(&mut self, view_projection: Mat4)
        ensures
            final(self).values() == (PerFrameBlock { view_projection, ..old(self).values() }),
            final(self).dirty(),
            final(self).gpu_values() == old(self).gpu_values(),
    {
        let uniforms = self.uniforms.values_mut();
        uniforms.view_projection = view_projection;
    }

    /// Set the world space position of the camera. The fourth lane is one.
    pub fn set_view_pos(&mut self, view_pos: Vec3)
        ensures
            final(self).values() == (PerFrameBlock {
                view_pos: Vec4 {
                    x: view_pos.x,
                    y: view_pos.y,
                    z: view_pos.z,
                    w: Scalar { bits: 0x3f80_0000 },
                },
                ..old(self).values()
            }),
            final(self).dirty(),
            final(self).gpu_values() == old(self).gpu_values(),
    {
        let uniforms = self.uniforms.values_mut();
        uniforms.view_pos = Vec4::new(view_pos.x, view_pos.y, view_pos.z, Scalar::one());
    }

    /// Clear all lighting information.
    pub fn clear_lights(&mut self)
        ensures
            final(self).values() == (PerFrameBlock {
                directional_light_count: 0,
                spot_light_count: 0,
                ..old(self).values()
            }),
            final(self).dirty(),
            final(self).gpu_values() == old(self).gpu_values(),
    {
        let uniforms = self.uniforms.values_mut();
        uniforms.directional_light_count = 0;
        uniforms.spot_light_count = 0;
    }

    /// Add directional light to the scene. `unit_direction` is the light's
    /// direction scaled to unit length. A light beyond the shader's limit
    /// is left out.
    pub fn add_directional_light(&mut self, light: &DirectionalLight, unit_direction: Vec3)
        ensures
            final(self).values() == old(self).values().with_directional_light(
                PackedDirectionalLight::packed(*light, unit_direction),
            ),
            final(self).dirty(),
            final(self).gpu_values() == old(self).gpu_values(),
    {
        let uniforms = self.uniforms.values_mut();
        if uniforms.directional_light_count < MAX_DIRECTIONAL_LIGHTS as u32 {
            let at: usize = uniforms.directional_light_count as usize;
            uniforms.directional_lights[at] = PackedDirectionalLight::pack(light, unit_direction);
            uniforms.directional_light_count += 1;
        }
    }

    /// Add a spot light to the scene. `cone` holds what the shader needs of
    /// the light beyond its fields. A light beyond the shader's limit is
    /// left out.
    pub fn add_spot_light(&mut self, light: &SpotLight, cone: &SpotCone)
        ensures
            final(self).values() == old(self).values().with_spot_light(
                PackedSpotLight::packed(*light, *cone),
            ),
            final(self).dirty(),
            final(self).gpu_values() == old(self).gpu_values(),
    {
        let uniforms = self.uniforms.values_mut();
        if uniforms.spot_light_count < MAX_SPOT_LIGHTS as u32 {
            let at: usize = uniforms.spot_light_count as usize;
            uniforms.spot_lights[at] = PackedSpotLight::pack(light, cone);
            uniforms.spot_light_count += 1;
        }
    }

    /// The arrays of a block have the sizes that the shader declares.
    pub proof fn lemma_shape(&self)
        ensures
            self.values().directional_lights.len() == MAX_DIRECTIONAL_LIGHTS,
            self.values().spot_lights.len() == MAX_SPOT_LIGHTS,
            self.gpu_values().directional_lights.len() == MAX_DIRECTIONAL_LIGHTS,
            self.gpu_values().spot_lights.len() == MAX_SPOT_LIGHTS,
    {
    }

    /// Replaces the lights of the block by those of a scene: clears all
    /// lighting information, then adds each directional light and each
    /// spot light in order. `units` and `cones` hold, light by light, what
    /// the shader needs beyond the lights' fields.
    pub fn set_lights(
        &mut self,
        directional_lights: &Vec<DirectionalLight>,
        units: &Vec<Vec3>,
        spot_lights: &Vec<SpotLight>,
        cones: &Vec<SpotCone>,
    )
        requires
            units@.len() == directional_lights@.len(),
            cones@.len() == spot_lights@.len(),
        ensures
            final(self).values() == old(self).values().with_directional_lights(
                directional_lights@,
                units@,
            ).with_spot_lights(spot_lights@, cones@),
            final(self).dirty(),
            final(self).gpu_values() == old(self).gpu_values(),
    {
        proof {
            self.lemma_shape();
        }
        self.clear_lights();
        let ghost cleared = self.values();
        assert(cleared.directional_lights =~= old(self).values().with_directional_lights(
            directional_lights@.take(0),
            units@.take(0),
        ).directional_lights);
        let mut i: usize = 0;
        while i < directional_lights.len()
            invariant
                0 <= i <= directional_lights@.len(),
                units@.len() == directional_lights@.len(),
                old(self).values().directional_lights.len() == MAX_DIRECTIONAL_LIGHTS,
                self.values() == (PerFrameBlock {
                    spot_light_count: 0,
                    ..old(self).values().with_directional_lights(
                        directional_lights@.take(i as int),
                        units@.take(i as int),
                    )
                }),
                self.dirty(),
                self.gpu_values() == old(self).gpu_values(),
            decreases directional_lights@.len() - i,
        {
            let ghost before = self.values();
            self.add_directional_light(&directional_lights[i], units[i]);
            proof {
                let next = PerFrameBlock {
                    spot_light_count: 0,
                    ..old(self).values().with_directional_lights(
                        directional_lights@.take(i + 1),
                        units@.take(i + 1),
                    )
                };
                assert(self.values().directional_lights =~= next.directional_lights);
            }
            i += 1;
        }
        assert(directional_lights@.take(i as int) =~= directional_lights@);
        assert(units@.take(i as int) =~= units@);
        let ghost lit = old(self).values().with_directional_lights(directional_lights@, units@);
        assert(self.values() =~= lit.with_spot_lights(spot_lights@.take(0), cones@.take(0))) by {
            assert(self.values().spot_lights =~= lit.with_spot_lights(
                spot_lights@.take(0),
                cones@.take(0),
            ).spot_lights);
        }
        let mut j: usize = 0;
        while j < spot_lights.len()
            invariant
                0 <= j <= spot_lights@.len(),
                cones@.len() == spot_lights@.len(),
                lit.spot_lights.len() == MAX_SPOT_LIGHTS,
                self.values() == lit.with_spot_lights(
                    spot_lights@.take(j as int),
                    cones@.take(j as int),
                ),
                self.dirty(),
                self.gpu_values() == old(self).gpu_values(),
            decreases spot_lights@.len() - j,
        {
            self.add_spot_light(&spot_lights[j], &cones[j]);
            proof {
                let next = lit.with_spot_lights(spot_lights@.take(j + 1), cones@.take(j + 1));
                assert(self.values().spot_lights =~= next.spot_lights);
            }
            j += 1;
        }
        assert(spot_lights@.take(j as int) =~= spot_lights@);
        assert(cones@.take(j as int) =~= cones@);
    }

    /// Set time elapsed in seconds.
    pub fn set_time_elapsed_seconds(&mut self, time_elapsed: Scalar)
        ensures
            final(self).values() == (PerFrameBlock {
                time_elapsed_seconds: time_elapsed,
                ..old(self).values()
            }),
            final(self).dirty(),
            final(self).gpu_values() == old(self).gpu_values(),
    {
        let uniforms = self.uniforms.values_mut();
        uniforms.time_elapsed_seconds = time_elapsed;
    }

    /// Set if the output backbuffer format is sRGB or not.
    pub fn set_output_is_srgb(&mut self, is_srgb: bool)
        ensures
            final(self).values() == (PerFrameBlock {
                output_is_srgb: if is_srgb {
                    1u32
                } else {
                    0u32
                },
                ..old(self).values()
            }),
            final(self).dirty(),
            final(self).gpu_values() == old(self).gpu_values(),
    {
        let uniforms = self.uniforms.values_mut();
        uniforms.output_is_srgb = if is_srgb {
            1
        } else {
            0
        };
    }

    /// Hands the block out for upload and clears the dirty flag.
    pub fn update_gpu(&mut self) -> (staged: PerFramePackedUniforms)
        ensures
            staged@ == old(self).values(),
            final(self).values() == old(self).values(),
            final(self).gpu_values() == old(self).values(),
            !final(self).dirty(),
    {
        self.uniforms.update_gpu()
    }

    /// Check if the block is out of sync with the GPU.
    pub fn is_dirty(&self) -> (d: bool)
        ensures
            d == self.dirty(),
            !d ==> self.gpu_values() == self.values(),
    {
        self.uniforms.is_dirty()
    }
}

/// Per-model uniform values that are used by the standard shader model.
#[derive(Clone, Copy, Debug)]
pub struct PerModelPackedUniforms {
    pub local_to_world: Mat4,
    pub world_to_local: Mat4,
    pub point_light: [PackedPointLight; MAX_POINT_LIGHTS],
    pub point_light_count: u32,
    pub _padding: [u32; 3],
}

/// A per-model block as contracts see it: the arrays as sequences.
pub struct PerModelBlock {
    pub local_to_world: Mat4,
    pub world_to_local: Mat4,
    pub point_light: Seq<PackedPointLight>,
    pub point_light_count: u32,
    pub padding: Seq<u32>,
}

impl View for PerModelPackedUniforms {
    type V = PerModelBlock;

    open spec fn view(&self) -> PerModelBlock {
        PerModelBlock {
            local_to_world: self.local_to_world,
            world_to_local: self.world_to_local,
            point_light: self.point_light@,
            point_light_count: self.point_light_count,
            padding: self._padding@,
        }
    }
}

impl PerModelBlock {
    /// The point lights that the shader will read, in order.
    pub open spec fn active_point_lights(self) -> Seq<PackedPointLight> {
        self.point_light.take(self.point_light_count as int)
    }

    /// The block that a new `PerModelShaderVals` starts with: the identity
    /// in both matrices and zero everywhere else.
    pub open spec fn initial() -> PerModelBlock {
        PerModelBlock {
            local_to_world: Mat4::identity_spec(),
            world_to_local: Mat4::identity_spec(),
            point_light: Seq::new(MAX_POINT_LIGHTS as nat, |i: int| PackedPointLight::zeroed()),
            point_light_count: 0,
            padding: Seq::new(3, |i: int| 0u32),
        }
    }

    /// The block with the first of `lights` in place of its point lights,
    /// as many as the array takes.
    pub open spec fn with_point_lights(self, lights: Seq<PointLight>) -> PerModelBlock {
        PerModelBlock {
            point_light: Seq::new(
                self.point_light.len(),
                |i: int|
                    if i < lights.len() {
                        PackedPointLight::packed(lights[i])
                    } else {
                        self.point_light[i]
                    },
            ),
            point_light_count: if lights.len() < MAX_POINT_LIGHTS {
                lights.len() as u32
            } else {
                MAX_POINT_LIGHTS as u32
            },
            ..self
        }
    }

    /// After the point lights of a block were replaced, the shader reads
    /// the first of the new lights, in order, as many as the array takes,
    /// and no other.
    pub proof fn lemma_active_point_lights(self, lights: Seq<PointLight>)
        requires
            self.point_light.len() == MAX_POINT_LIGHTS,
        ensures
            self.with_point_lights(lights).active_point_lights() == Seq::new(
                if lights.len() < MAX_POINT_LIGHTS {
                    lights.len()
                } else {
                    MAX_POINT_LIGHTS as nat
                },
                |i: int| PackedPointLight::packed(lights[i]),
            ),
    {
        assert(self.with_point_lights(lights).active_point_lights() =~= Seq::new(
            if lights.len() < MAX_POINT_LIGHTS {
                lights.len()
            } else {
                MAX_POINT_LIGHTS as nat
            },
            |i: int| PackedPointLight::packed(lights[i]),
        ));
    }

    /// The block with one more point light behind those that are there;
    /// unchanged where the array is full.
    pub open spec fn with_point_light(self, packed: PackedPointLight) -> PerModelBlock {
        if self.point_light_count < MAX_POINT_LIGHTS {
            PerModelBlock {
                point_light: self.point_light.update(self.point_light_count as int, packed),
                point_light_count: (self.point_light_count + 1) as u32,
                ..self
            }
        } else {
            self
        }
    }
}

/// Stores per-model shader values that are handed out for upload prior to
/// rendering a model.
pub struct PerModelShaderVals {
    uniforms: GenericUniformBuffer<PerModelPackedUniforms>,
}

impl PerModelShaderVals {
    /// The CPU-side block.
    pub closed spec fn values(&self) -> PerModelBlock {
        self.uniforms.values_spec()@
    }

    /// The block that the GPU holds.
    pub closed spec fn gpu_values(&self) -> PerModelBlock {
        self.uniforms.gpu_values()@
    }

    /// The dirty flag.
    pub closed spec fn dirty(&self) -> bool {
        self.uniforms.dirty()
    }

    /// Create a new PerModelShaderVals object. One instance per model.
    pub fn new() -> (vals: Self)
        ensures
            vals.values() == PerModelBlock::initial(),
            vals.gpu_values() == vals.values(),
            !vals.dirty(),
    {
        let pl: PackedPointLight = PackedPointLight::zero();
        let values = PerModelPackedUniforms {
            local_to_world: Mat4::identity(),
            world_to_local: Mat4::identity(),
            point_light: [pl, pl, pl, pl],
            point_light_count: 0,
            _padding: [0, 0, 0],
        };
        assert(values@.point_light =~= PerModelBlock::initial().point_light);
        assert(values@.padding =~= PerModelBlock::initial().padding);
        PerModelShaderVals { uniforms: GenericUniformBuffer::new(values) }
    }

    /// The block as it stands on the CPU.
    pub fn uniforms(&self) -> (v: &PerModelPackedUniforms)
        ensures
            v@ == self.values(),
    {
        self.uniforms.values()
    }

    /// Set the local to world transform matrix and its inverse, which the
    /// shader uses to carry normals into world space.
    pub fn set_local_to_world(&mut self, local_to_world: Mat4, world_to_local: Mat4)
        ensures
            final(self).values() == (PerModelBlock {
                local_to_world,
                world_to_local,
                ..old(self).values()
            }),
            final(self).dirty(),
            final(self).gpu_values() == old(self).gpu_values(),
    {
        let uniforms = self.uniforms.values_mut();
        uniforms.local_to_world = local_to_world;
        uniforms.world_to_local = world_to_local;
    }

    /// Clear all lighting information.
    pub fn clear_lights(&mut self)
        ensures
            final(self).values() == (PerModelBlock { point_light_count: 0, ..old(self).values() }),
            final(self).dirty(),
            final(self).gpu_values() == old(self).gpu_values(),
    {
        let uniforms = self.uniforms.values_mut();
        uniforms.point_light_count = 0;
    }

    /// Add point light to the model. A light beyond the shader's limit is
    /// left out.
    pub fn add_point_light(&mut self, light: &PointLight)
        requires
            light.in_range(),
        ensures
            final(self).values() == old(self).values().with_point_light(
                PackedPointLight::packed(*light),
            ),
            final(self).dirty(),
            final(self).gpu_values() == old(self).gpu_values(),
    {
        let uniforms = self.uniforms.values_mut();
        if uniforms.point_light_count < MAX_POINT_LIGHTS as u32 {
            let at: usize = uniforms.point_light_count as usize;
            uniforms.point_light[at] = PackedPointLight::from(*light);
            uniforms.point_light_count += 1;
        }
    }

    /// The arrays of a block have the sizes that the shader declares.
    pub proof fn lemma_shape(&self)
        ensures
            self.values().point_light.len() == MAX_POINT_LIGHTS,
            self.values().padding.len() == 3,
            self.gpu_values().point_light.len() == MAX_POINT_LIGHTS,
            self.gpu_values().padding.len() == 3,
    {
    }

    /// Replaces the lights of the block by `point_lights`: clears all
    /// lighting information, then adds each light in order.
    pub fn set_point_lights(&mut self, point_lights: &Vec<PointLight>)
        requires
            forall|i: int| 0 <= i < point_lights@.len() ==> (#[trigger] point_lights@[i]).in_range(),
        ensures
            final(self).values() == old(self).values().with_point_lights(point_lights@),
            final(self).dirty(),
            final(self).gpu_values() == old(self).gpu_values(),
    {
        proof {
            self.lemma_shape();
        }
        self.clear_lights();
        assert(self.values().point_light =~= old(self).values().with_point_lights(
            point_lights@.take(0),
        ).point_light);
        let mut i: usize = 0;
        while i < point_lights.len()
            invariant
                0 <= i <= point_lights@.len(),
                forall|k: int|
                    0 <= k < point_lights@.len() ==> (#[trigger] point_lights@[k]).in_range(),
                old(self).values().point_light.len() == MAX_POINT_LIGHTS,
                self.values() == old(self).values().with_point_lights(point_lights@.take(i as int)),
                self.dirty(),
                self.gpu_values() == old(self).gpu_values(),
            decreases point_lights@.len() - i,
        {
            self.add_point_light(&point_lights[i]);
            proof {
                let next = old(self).values().with_point_lights(point_lights@.take(i + 1));
                assert(self.values().point_light =~= next.point_light);
            }
            i += 1;
        }
        assert(point_lights@.take(i as int) =~= point_lights@);
    }

    /// Hands the block out for upload and clears the dirty flag.
    pub fn update_gpu(&mut self) -> (staged: PerModelPackedUniforms)
        ensures
            staged@ == old(self).values(),
            final(self).values() == old(self).values(),
            final(self).gpu_values() == old(self).values(),
            !final(self).dirty(),
    {
        self.uniforms.update_gpu()
    }

    /// Check if the block is out of sync with the GPU.
    pub fn is_dirty(&self) -> (d: bool)
        ensures
            d == self.dirty(),
            !d ==> self.gpu_values() == self.values(),
    {
        self.uniforms.is_dirty()
    }
}

/// Per-submesh uniform values that are used by the standard shader model.
#[derive(Clone, Copy, Debug, PartialEq, Eq, Structural)]
pub struct PerSubmeshPackedUniforms {
    pub material: PackedMaterialConstants,
}

/// The binding of the uniform block in a per-submesh bind group.
pub const UNIFORMS_BINDING_SLOT: u32 = 0;

/// The binding of the texture sampler in a per-submesh bind group.
pub const SAMPLER_BINDING_SLOT: u32 = 1;

/// The binding of the diffuse texture in a per-submesh bind group.
pub const DIFFUSE_VIEW_BINDING_SLOT: u32 = 2;

/// The binding of the specular texture in a per-submesh bind group.
pub const SPECULAR_VIEW_BINDING_SLOT: u32 = 3;

/// The binding of the emissive texture in a per-submesh bind group.
pub const EMISSIVE_VIEW_BINDING_SLOT: u32 = 4;

/// Responsible for storing per-submesh shader values used during a submesh
/// rendering pass: the material's constants and the textures that its bind
/// group binds.
pub struct PerSubmeshShaderVals {
    bind_group: BindGroupId,
    diffuse_view: TextureId,
    specular_view: TextureId,
    emissive_view: TextureId,
    uniforms: GenericUniformBuffer<PerSubmeshPackedUniforms>,
}

impl PerSubmeshShaderVals {
    /// The CPU-side block.
    pub closed spec fn values(&self) -> PerSubmeshPackedUniforms {
        self.uniforms.values_spec()
    }

    /// The block that the GPU holds.
    pub closed spec fn gpu_values(&self) -> PerSubmeshPackedUniforms {
        self.uniforms.gpu_values()
    }

    /// The dirty flag.
    pub closed spec fn dirty(&self) -> bool {
        self.uniforms.dirty()
    }

    /// The textures bound as diffuse, specular and emissive map.
    pub closed spec fn textures(&self) -> (TextureId, TextureId, TextureId) {
        (self.diffuse_view, self.specular_view, self.emissive_view)
    }

    /// The bind group that binds the block, a sampler and the textures.
    pub closed spec fn bind_group_spec(&self) -> BindGroupId {
        self.bind_group
    }

    /// The shader values of a submesh that is drawn with `material`, to be
    /// bound through `bind_group`.
    pub fn new(bind_group: BindGroupId, material: &Material) -> (vals: Self)
        ensures
            vals.bind_group_spec() == bind_group,
            vals.values().material == PackedMaterialConstants::packed(*material),
            vals.gpu_values() == vals.values(),
            !vals.dirty(),
            vals.textures() == (
                material.diffuse_map,
                material.specular_map,
                material.emissive_map,
            ),
    {
        let values = PerSubmeshPackedUniforms { material: PackedMaterialConstants::from(*material) };
        PerSubmeshShaderVals {
            bind_group,
            diffuse_view: material.diffuse_map,
            specular_view: material.specular_map,
            emissive_view: material.emissive_map,
            uniforms: GenericUniformBuffer::new(values),
        }
    }

    /// The block as it stands on the CPU.
    pub fn uniforms(&self) -> (v: &PerSubmeshPackedUniforms)
        ensures
            *v == self.values(),
    {
        self.uniforms.values()
    }

    /// Get the bind group representing this uniform buffer.
    pub fn bind_group(&self) -> (id: BindGroupId)
        ensures
            id == self.bind_group_spec(),
    {
        self.bind_group
    }

    /// The texture bound as diffuse map.
    pub fn diffuse_view(&self) -> (t: TextureId)
        ensures
            t == self.textures().0,
    {
        self.diffuse_view
    }

    /// The texture bound as specular map.
    pub fn specular_view(&self) -> (t: TextureId)
        ensures
            t == self.textures().1,
    {
        self.specular_view
    }

    /// The texture bound as emissive map.
    pub fn emissive_view(&self) -> (t: TextureId)
        ensures
            t == self.textures().2,
    {
        self.emissive_view
    }

    /// Hands the block out for upload and clears the dirty flag.
    pub fn update_gpu(&mut self) -> (staged: PerSubmeshPackedUniforms)
        ensures
            staged == old(self).values(),
            final(self).values() == old(self).values(),
            final(self).gpu_values() == old(self).values(),
            final(self).textures() == old(self).textures(),
            final(self).bind_group_spec() == old(self).bind_group_spec(),
            !final(self).dirty(),
    {
        self.uniforms.update_gpu()
    }

    /// Check if the block is out of sync with the GPU.
    pub fn is_dirty(&self) -> (d: bool)
        ensures
            d == self.dirty(),
            !d ==> self.gpu_values() == self.values(),
    {
        self.uniforms.is_dirty()
    }
}

impl DynamicGpuBuffer for PerFrameShaderVals {
    open spec fn out_of_sync(&self) -> bool {
        self.dirty()
    }

    fn update_gpu(&mut self)
        ensures
            final(self).values() == old(self).values(),
            final(self).gpu_values() == old(self).values(),
    {
        let _ = PerFrameShaderVals::update_gpu(self);
    }

    fn is_dirty(&self) -> (d: bool) {
        PerFrameShaderVals::is_dirty(self)
    }
}

impl DynamicGpuBuffer for PerModelShaderVals {
    open spec fn out_of_sync(&self) -> bool {
        self.dirty()
    }

    fn update_gpu(&mut self)
        ensures
            final(self).values() == old(self).values(),
            final(self).gpu_values() == old(self).values(),
    {
        let _ = PerModelShaderVals::update_gpu(self);
    }

    fn is_dirty(&self) -> (d: bool) {
        PerModelShaderVals::is_dirty(self)
    }
}

impl DynamicGpuBuffer for PerSubmeshShaderVals {
    open spec fn out_of_sync(&self) -> bool {
        self.dirty()
    }

    fn update_gpu(&mut self)
        ensures
            final(self).values() == old(self).values(),
            final(self).gpu_values() == old(self).values(),
    {
        let _ = PerSubmeshShaderVals::update_gpu(self);
    }

    fn is_dirty(&self) -> (d: bool) {
        PerSubmeshShaderVals::is_dirty(self)
    }
}

} // verus!
