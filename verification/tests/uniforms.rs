use squirrel::math::{Mat4, Scalar, Vec3, Vec4};
use squirrel::renderer::gpu_buffers::{GenericUniformBuffer, InstanceBuffer};
use squirrel::renderer::lighting::{
    DirectionalLight, LightAttenuation, PointLight, SpotCone, SpotLight,
};
use squirrel::renderer::materials::{DefaultTextures, Material, MaterialBuilder, TextureId};
use squirrel::renderer::shaders::lit_shader::{
    MAX_DIRECTIONAL_LIGHTS, MAX_POINT_LIGHTS, MAX_SPOT_LIGHTS,
};
use squirrel::renderer::shaders::packed_structs::{
    vec3_w, PackedDirectionalLight, PackedMaterialConstants, PackedPointLight, PackedSpotLight,
};
use squirrel::renderer::shaders::{PerFrameShaderVals, PerModelShaderVals, PerSubmeshShaderVals};
use squirrel::renderer::gpu_buffers::BindGroupId;

fn s(x: f32) -> Scalar {
    Scalar::from_bits(x.to_bits())
}

fn f(x: Scalar) -> f32 {
    f32::from_bits(x.to_bits())
}

fn v3(x: f32, y: f32, z: f32) -> Vec3 {
    Vec3::new(s(x), s(y), s(z))
}

fn v4(x: f32, y: f32, z: f32, w: f32) -> Vec4 {
    Vec4::new(s(x), s(y), s(z), s(w))
}

fn point_light(x: f32) -> PointLight {
    PointLight {
        position: v3(x, 1.0, 2.0),
        color: v3(0.8, 0.7, 0.6),
        attenuation: LightAttenuation { constant: s(1.0), linear: s(0.2), quadratic: s(0.01) },
        ambient: s(0.05),
        specular: s(0.8),
    }
}

fn directional_light(x: f32) -> DirectionalLight {
    DirectionalLight {
        direction: v3(0.0, -2.0, 0.0),
        color: v3(x, 0.3, 0.3),
        ambient: s(0.01),
        specular: s(0.2),
    }
}

fn spot_light(x: f32) -> SpotLight {
    SpotLight {
        position: v3(x, 0.0, 0.0),
        direction: v3(0.0, 0.0, -3.0),
        cutoff_radians: s(0.2181662),
        outer_cutoff_radians: s(0.3054326),
        color: v3(0.8, 0.8, 0.8),
        attenuation: LightAttenuation { constant: s(1.0), linear: s(0.09), quadratic: s(0.032) },
        ambient: s(0.01),
        specular: s(1.0),
    }
}

fn cone() -> SpotCone {
    SpotCone {
        unit_direction: v3(0.0, 0.0, -1.0),
        cutoff_cos: s(f32::cos(0.2181662)),
        outer_cutoff_cos: s(f32::cos(0.3054326)),
    }
}

#[test]
fn uniform_buffer_starts_clean() {
    let buffer = GenericUniformBuffer::new(7u32);
    assert!(!buffer.is_dirty());
    assert_eq!(*buffer.values(), 7);
}

#[test]
fn uniform_buffer_dirty_clean_round_trip() {
    let mut buffer = GenericUniformBuffer::new(7u32);
    *buffer.values_mut() = 9;
    assert!(buffer.is_dirty());
    assert_eq!(*buffer.values(), 9);
    let staged = buffer.update_gpu();
    assert_eq!(staged, 9);
    assert!(!buffer.is_dirty());
    assert_eq!(*buffer.values(), 9);
}

#[test]
fn mutable_access_marks_dirty_even_without_a_change() {
    let mut buffer = GenericUniformBuffer::new(7u32);
    let _ = buffer.values_mut();
    assert!(buffer.is_dirty());
    assert_eq!(*buffer.values(), 7);
    // Updating twice is the same as updating once.
    assert_eq!(buffer.update_gpu(), 7);
    assert_eq!(buffer.update_gpu(), 7);
    assert!(!buffer.is_dirty());
}

#[test]
fn instance_buffer_dirty_clean_round_trip() {
    let mut buffer = InstanceBuffer::new(vec![1u32, 2, 3]);
    assert!(!buffer.is_dirty());
    assert_eq!(buffer.len(), 3);
    assert_eq!(*buffer.values(1), 2);
    *buffer.values_mut(1) = 20;
    assert!(buffer.is_dirty());
    assert_eq!(buffer.instances(), &vec![1, 20, 3]);
    buffer.update_gpu();
    assert!(!buffer.is_dirty());
    assert_eq!(buffer.instances(), &vec![1, 20, 3]);
    let _ = buffer.values_mut(0);
    assert!(buffer.is_dirty());
    assert_eq!(buffer.instances(), &vec![1, 20, 3]);
}

#[test]
fn packed_point_light_places_scalars_in_the_fourth_lanes() {
    let packed = PackedPointLight::from(point_light(1.2));
    assert_eq!(f(packed.position.w), 0.05);
    assert_eq!(f(packed.color.w), 0.8);
    assert_eq!(packed.position, v4(1.2, 1.0, 2.0, 0.05));
    assert_eq!(packed.color, v4(0.8, 0.7, 0.6, 0.8));
    assert_eq!(packed.attenuation, v4(1.0, 0.2, 0.01, 0.0));
    assert_eq!(f(packed.attenuation.w), 0.0);
    assert_eq!(packed.padding, Vec4::zero());
}

#[test]
fn packed_directional_light_takes_the_unit_direction() {
    let light = directional_light(0.3);
    let packed = PackedDirectionalLight::pack(&light, v3(0.0, -1.0, 0.0));
    assert_eq!(packed.direction, v4(0.0, -1.0, 0.0, 0.01));
    assert_eq!(packed.color, v4(0.3, 0.3, 0.3, 0.2));
}

#[test]
fn packed_spot_light_takes_the_cosines_of_its_cone() {
    let packed = PackedSpotLight::pack(&spot_light(4.0), &cone());
    assert_eq!(packed.position, v4(4.0, 0.0, 0.0, f32::cos(0.2181662)));
    assert_eq!(packed.direction, v4(0.0, 0.0, -1.0, 0.01));
    assert_eq!(packed.color, v4(0.8, 0.8, 0.8, 1.0));
    assert_eq!(packed.attenuation, v4(1.0, 0.09, 0.032, f32::cos(0.3054326)));
}

#[test]
fn packed_material_puts_the_specular_power_behind_the_specular_color() {
    let material = Material {
        ambient_color: v3(0.1, 0.2, 0.3),
        diffuse_color: v3(0.4, 0.5, 0.6),
        diffuse_map: TextureId { id: 1 },
        specular_color: v3(0.7, 0.8, 0.9),
        specular_map: TextureId { id: 2 },
        specular_power: s(64.0),
        emissive_map: TextureId { id: 3 },
    };
    let packed = PackedMaterialConstants::from(material);
    assert_eq!(packed.ambient_color, v4(0.1, 0.2, 0.3, 0.0));
    assert_eq!(packed.diffuse_color, v4(0.4, 0.5, 0.6, 0.0));
    assert_eq!(packed.specular_color, v4(0.7, 0.8, 0.9, 64.0));
    assert_eq!(vec3_w(v3(1.0, 2.0, 3.0), s(4.0)), v4(1.0, 2.0, 3.0, 4.0));
}

#[test]
fn material_builder_fills_in_defaults() {
    let defaults = DefaultTextures {
        diffuse_map: TextureId { id: 10 },
        specular_map: TextureId { id: 11 },
        emissive_map: TextureId { id: 12 },
    };
    let material = MaterialBuilder::new().build(&defaults);
    assert_eq!(material.ambient_color, v3(1.0, 1.0, 1.0));
    assert_eq!(material.diffuse_color, v3(1.0, 1.0, 1.0));
    assert_eq!(material.specular_color, v3(0.0, 0.0, 0.0));
    assert_eq!(f(material.specular_power), 0.0);
    assert_eq!(material.diffuse_map, TextureId { id: 10 });
    assert_eq!(material.specular_map, TextureId { id: 11 });
    assert_eq!(material.emissive_map, TextureId { id: 12 });
}

#[test]
fn material_builder_keeps_what_was_set() {
    let defaults = DefaultTextures {
        diffuse_map: TextureId { id: 10 },
        specular_map: TextureId { id: 11 },
        emissive_map: TextureId { id: 12 },
    };
    let material = MaterialBuilder::new()
        .ambient_color(v3(0.1, 0.1, 0.1))
        .diffuse_color(v3(0.2, 0.2, 0.2))
        .specular_color(v3(1.0, 1.0, 1.0))
        .specular_power(s(64.0))
        .diffuse_map(TextureId { id: 1 })
        .specular_map(TextureId { id: 2 })
        .emissive_map(TextureId { id: 3 })
        .build(&defaults);
    assert_eq!(material.ambient_color, v3(0.1, 0.1, 0.1));
    assert_eq!(material.diffuse_color, v3(0.2, 0.2, 0.2));
    assert_eq!(material.specular_color, v3(1.0, 1.0, 1.0));
    assert_eq!(f(material.specular_power), 64.0);
    assert_eq!(material.diffuse_map, TextureId { id: 1 });
    assert_eq!(material.specular_map, TextureId { id: 2 });
    assert_eq!(material.emissive_map, TextureId { id: 3 });
}

#[test]
fn per_frame_values_start_with_identity_and_zero() {
    let vals = PerFrameShaderVals::new();
    assert!(!vals.is_dirty());
    let u = vals.uniforms();
    assert_eq!(u.view_projection, Mat4::identity());
    assert_eq!(u.view_pos, Vec4::zero());
    assert_eq!(u.directional_light_count, 0);
    assert_eq!(u.spot_light_count, 0);
    assert_eq!(u.output_is_srgb, 0);
    assert_eq!(f(u.time_elapsed_seconds), 0.0);
    assert_eq!(u.directional_lights.len(), MAX_DIRECTIONAL_LIGHTS);
    assert_eq!(u.spot_lights.len(), MAX_SPOT_LIGHTS);
    assert_eq!(u.directional_lights[2], PackedDirectionalLight::zero());
    assert_eq!(u.spot_lights[1], PackedSpotLight::zero());
}

#[test]
fn per_frame_setters_store_and_mark_dirty() {
    let mut vals = PerFrameShaderVals::new();
    vals.set_view_pos(v3(1.0, 2.0, 3.0));
    assert!(vals.is_dirty());
    assert_eq!(vals.uniforms().view_pos, v4(1.0, 2.0, 3.0, 1.0));
    vals.update_gpu();
    assert!(!vals.is_dirty());
    vals.set_time_elapsed_seconds(s(2.5));
    assert!(vals.is_dirty());
    assert_eq!(f(vals.uniforms().time_elapsed_seconds), 2.5);
    vals.update_gpu();
    vals.set_output_is_srgb(true);
    assert!(vals.is_dirty());
    assert_eq!(vals.uniforms().output_is_srgb, 1);
    vals.set_output_is_srgb(false);
    assert_eq!(vals.uniforms().output_is_srgb, 0);
    let m = Mat4::from_cols(
        v4(1.0, 2.0, 3.0, 4.0),
        v4(5.0, 6.0, 7.0, 8.0),
        v4(9.0, 10.0, 11.0, 12.0),
        v4(13.0, 14.0, 15.0, 16.0),
    );
    vals.set_view_projection(m);
    assert_eq!(vals.uniforms().view_projection, m);
    let staged = vals.update_gpu();
    assert_eq!(staged.view_projection, m);
    assert_eq!(staged.view_pos, v4(1.0, 2.0, 3.0, 1.0));
}

#[test]
fn per_frame_lights_stop_at_the_shader_limits() {
    let mut vals = PerFrameShaderVals::new();
    for i in 0..5 {
        vals.add_directional_light(&directional_light(i as f32), v3(0.0, -1.0, 0.0));
        vals.add_spot_light(&spot_light(i as f32), &cone());
    }
    let u = vals.uniforms();
    assert_eq!(u.directional_light_count as usize, MAX_DIRECTIONAL_LIGHTS);
    assert_eq!(u.spot_light_count as usize, MAX_SPOT_LIGHTS);
    for i in 0..MAX_DIRECTIONAL_LIGHTS {
        assert_eq!(
            u.directional_lights[i],
            PackedDirectionalLight::pack(&directional_light(i as f32), v3(0.0, -1.0, 0.0))
        );
    }
    for i in 0..MAX_SPOT_LIGHTS {
        assert_eq!(u.spot_lights[i], PackedSpotLight::pack(&spot_light(i as f32), &cone()));
    }
    vals.clear_lights();
    assert_eq!(vals.uniforms().directional_light_count, 0);
    assert_eq!(vals.uniforms().spot_light_count, 0);
    assert!(vals.is_dirty());
}

#[test]
fn per_frame_set_lights_replaces_the_lights() {
    let mut vals = PerFrameShaderVals::new();
    vals.add_directional_light(&directional_light(9.0), v3(1.0, 0.0, 0.0));
    vals.add_directional_light(&directional_light(8.0), v3(1.0, 0.0, 0.0));
    vals.update_gpu();
    let lights = vec![directional_light(1.0)];
    let units = vec![v3(0.0, -1.0, 0.0)];
    let spots = vec![spot_light(1.0), spot_light(2.0), spot_light(3.0)];
    let cones = vec![cone(), cone(), cone()];
    vals.set_lights(&lights, &units, &spots, &cones);
    assert!(vals.is_dirty());
    let u = vals.uniforms();
    assert_eq!(u.directional_light_count, 1);
    assert_eq!(u.directional_lights[0], PackedDirectionalLight::pack(&lights[0], units[0]));
    // The second slot is not read by the shader; it keeps what it held.
    assert_eq!(
        u.directional_lights[1],
        PackedDirectionalLight::pack(&directional_light(8.0), v3(1.0, 0.0, 0.0))
    );
    assert_eq!(u.spot_light_count, 2);
    assert_eq!(u.spot_lights[0], PackedSpotLight::pack(&spots[0], &cones[0]));
    assert_eq!(u.spot_lights[1], PackedSpotLight::pack(&spots[1], &cones[1]));
}

#[test]
fn per_model_values_start_with_identity_and_zero() {
    let vals = PerModelShaderVals::new();
    assert!(!vals.is_dirty());
    let u = vals.uniforms();
    assert_eq!(u.local_to_world, Mat4::identity());
    assert_eq!(u.world_to_local, Mat4::identity());
    assert_eq!(u.point_light_count, 0);
    assert_eq!(u.point_light.len(), MAX_POINT_LIGHTS);
    assert_eq!(u.point_light[3], PackedPointLight::zero());
    assert_eq!(u._padding, [0, 0, 0]);
}

#[test]
fn per_model_point_lights_stop_at_the_shader_limit() {
    let mut vals = PerModelShaderVals::new();
    for i in 0..6 {
        vals.add_point_light(&point_light(i as f32));
    }
    assert!(vals.is_dirty());
    let u = vals.uniforms();
    assert_eq!(u.point_light_count as usize, MAX_POINT_LIGHTS);
    for i in 0..MAX_POINT_LIGHTS {
        assert_eq!(u.point_light[i], PackedPointLight::from(point_light(i as f32)));
    }
    let staged = vals.update_gpu();
    assert!(!vals.is_dirty());
    assert_eq!(staged.point_light_count as usize, MAX_POINT_LIGHTS);
    vals.set_point_lights(&vec![point_light(7.0)]);
    assert!(vals.is_dirty());
    assert_eq!(vals.uniforms().point_light_count, 1);
    assert_eq!(vals.uniforms().point_light[0], PackedPointLight::from(point_light(7.0)));
    assert_eq!(vals.uniforms().point_light[1], PackedPointLight::from(point_light(1.0)));
}

#[test]
fn per_model_matrices_are_stored_as_given() {
    let mut vals = PerModelShaderVals::new();
    let a = Mat4::from_cols(
        v4(2.0, 0.0, 0.0, 0.0),
        v4(0.0, 2.0, 0.0, 0.0),
        v4(0.0, 0.0, 2.0, 0.0),
        v4(1.0, 2.0, 3.0, 1.0),
    );
    let b = Mat4::from_cols(
        v4(0.5, 0.0, 0.0, 0.0),
        v4(0.0, 0.5, 0.0, 0.0),
        v4(0.0, 0.0, 0.5, 0.0),
        v4(-0.5, -1.0, -1.5, 1.0),
    );
    vals.set_local_to_world(a, b);
    assert!(vals.is_dirty());
    assert_eq!(vals.uniforms().local_to_world, a);
    assert_eq!(vals.uniforms().world_to_local, b);
}

#[test]
fn point_light_range_check() {
    assert!(point_light(0.0).is_in_range());
    let mut light = point_light(0.0);
    light.ambient = s(1.5);
    assert!(!light.is_in_range());
    light.ambient = s(0.0);
    light.specular = s(-0.1);
    assert!(!light.is_in_range());
    light.specular = s(1.0);
    assert!(light.is_in_range());
}

#[test]
fn per_submesh_values_come_from_the_material() {
    let material = Material {
        ambient_color: v3(0.1, 0.2, 0.3),
        diffuse_color: v3(0.4, 0.5, 0.6),
        diffuse_map: TextureId { id: 1 },
        specular_color: v3(0.7, 0.8, 0.9),
        specular_map: TextureId { id: 2 },
        specular_power: s(64.0),
        emissive_map: TextureId { id: 3 },
    };
    let mut vals = PerSubmeshShaderVals::new(BindGroupId { id: 5 }, &material);
    assert!(!vals.is_dirty());
    assert_eq!(vals.bind_group(), BindGroupId { id: 5 });
    assert_eq!(vals.uniforms().material, PackedMaterialConstants::from(material));
    assert_eq!(vals.diffuse_view(), TextureId { id: 1 });
    assert_eq!(vals.specular_view(), TextureId { id: 2 });
    assert_eq!(vals.emissive_view(), TextureId { id: 3 });
    let staged = vals.update_gpu();
    assert_eq!(staged.material, PackedMaterialConstants::from(material));
    assert!(!vals.is_dirty());
}

fn hand_out<B: squirrel::renderer::gpu_buffers::DynamicGpuBuffer>(buffer: &mut B) -> (bool, bool) {
    let before = squirrel::renderer::gpu_buffers::DynamicGpuBuffer::is_dirty(buffer);
    squirrel::renderer::gpu_buffers::DynamicGpuBuffer::update_gpu(buffer);
    (before, squirrel::renderer::gpu_buffers::DynamicGpuBuffer::is_dirty(buffer))
}

#[test]
fn every_buffer_is_clean_after_an_update() {
    let mut generic = GenericUniformBuffer::new(7u32);
    assert_eq!(hand_out(&mut generic), (false, false));
    *generic.values_mut() = 8;
    assert_eq!(hand_out(&mut generic), (true, false));
    assert_eq!(*generic.values(), 8);

    let mut instances = InstanceBuffer::new(vec![1u32, 2]);
    *instances.values_mut(0) = 5;
    assert_eq!(hand_out(&mut instances), (true, false));
    assert_eq!(instances.instances(), &vec![5, 2]);

    let mut per_frame = PerFrameShaderVals::new();
    per_frame.set_output_is_srgb(true);
    assert_eq!(hand_out(&mut per_frame), (true, false));
    assert_eq!(per_frame.uniforms().output_is_srgb, 1);

    let mut per_model = PerModelShaderVals::new();
    per_model.clear_lights();
    assert_eq!(hand_out(&mut per_model), (true, false));

    let material = MaterialBuilder::new().build(&DefaultTextures {
        diffuse_map: TextureId { id: 10 },
        specular_map: TextureId { id: 11 },
        emissive_map: TextureId { id: 12 },
    });
    let mut per_submesh = PerSubmeshShaderVals::new(BindGroupId { id: 1 }, &material);
    assert_eq!(hand_out(&mut per_submesh), (false, false));

    let mut markers = squirrel::renderer::passes::light_debug_pass::DebugMeshInstanceBuffer::new();
    assert_eq!(markers.len(), 100);
    markers.set_color_tint(3, v3(1.0, 0.0, 0.0));
    markers.set_local_to_world(3, Mat4::zero());
    assert_eq!(hand_out(&mut markers), (true, false));
    assert_eq!(markers.instances()[3].color_tint, v3(1.0, 0.0, 0.0));
    assert_eq!(markers.instances()[3].local_to_world, Mat4::zero());
    assert_eq!(markers.instances()[2].local_to_world, Mat4::identity());
}
