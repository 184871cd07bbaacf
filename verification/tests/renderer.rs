use squirrel::camera::InvalidCameraSize;
use squirrel::input::{ElementState, KeyCode, MouseButton, WindowEvent};
use squirrel::math::{Mat4, Quat, Scalar, Vec3, Vec4};
use squirrel::renderer::gpu_buffers::{BindGroupId, BufferId};
use squirrel::renderer::lighting::{
    DirectionalLight, LightAttenuation, PointLight, SpotCone, SpotLight,
};
use squirrel::renderer::materials::{DefaultTextures, MaterialBuilder, TextureId};
use squirrel::renderer::meshes::{builtin_mesh, BuiltinMesh};
use squirrel::renderer::models::{Mesh, Submesh};
use squirrel::renderer::passes::depth_pass::{DepthPass, Extent};
use squirrel::renderer::passes::light_debug_pass::{LightDebugPass, LAMP_CAPACITY};
use squirrel::renderer::passes::{
    BindGroupRef, BufferRef, DrawCommand, IndexFormat, IndexRange, LoadOp, PassKind,
    SurfaceConfiguration,
};
use squirrel::renderer::scene::Scene;
use squirrel::renderer::shaders::packed_structs::{
    PackedDirectionalLight, PackedPointLight, PackedSpotLight,
};
use squirrel::renderer::{
    preferred_surface_format, FrameMath, ModelMatrices, PhysicalSize, Renderer, SurfaceError,
    SurfaceUpdate, Upload,
};
use std::rc::Rc;

fn s(x: f32) -> Scalar {
    Scalar::from_bits(x.to_bits())
}

fn f(x: Scalar) -> f32 {
    f32::from_bits(x.to_bits())
}

fn v3(x: f32, y: f32, z: f32) -> Vec3 {
    Vec3::new(s(x), s(y), s(z))
}

fn g3(v: Vec3) -> glam::Vec3 {
    glam::Vec3::new(f(v.x), f(v.y), f(v.z))
}

fn gq(q: Quat) -> glam::Quat {
    glam::Quat::from_xyzw(f(q.x), f(q.y), f(q.z), f(q.w))
}

fn mat(m: glam::Mat4) -> Mat4 {
    let c = m.to_cols_array();
    let col = |i: usize| Vec4::new(s(c[4 * i]), s(c[4 * i + 1]), s(c[4 * i + 2]), s(c[4 * i + 3]));
    Mat4::from_cols(col(0), col(1), col(2), col(3))
}

fn defaults() -> DefaultTextures {
    DefaultTextures {
        diffuse_map: TextureId { id: 10 },
        specular_map: TextureId { id: 11 },
        emissive_map: TextureId { id: 12 },
    }
}

fn cube_mesh() -> Rc<Mesh> {
    let (vertices, indices) = builtin_mesh(BuiltinMesh::Cube);
    assert_eq!(vertices.len(), 36);
    let material = MaterialBuilder::new().build(&defaults());
    let submesh = Submesh::new(BindGroupId { id: 1 }, 0..indices.len() as u32, 0, &material);
    Rc::new(Mesh::new(
        BufferId { id: 1 },
        BufferId { id: 2 },
        indices.len() as u32,
        IndexFormat::Uint16,
        vec![submesh],
    ))
}

fn point_light_at(x: f32, y: f32, z: f32) -> PointLight {
    PointLight {
        position: v3(x, y, z),
        color: v3(0.8, 0.8, 0.8),
        attenuation: LightAttenuation { constant: s(1.0), linear: s(0.2), quadratic: s(0.01) },
        ambient: s(0.0425),
        specular: s(1.0),
    }
}

/// Computes, as a host does, what arithmetic gives for a frame.
fn frame_math(renderer: &Renderer, scene: &Scene, seconds: f32) -> FrameMath {
    let camera = renderer.camera();
    let aspect = match camera.aspect_ratio() {
        Some((w, h)) => w as f32 / h as f32,
        None => 0.0,
    };
    let projection =
        glam::Mat4::perspective_rh(f(camera.fov_y()), aspect, f(camera.z_near()), f(camera.z_far()));
    let view = glam::Mat4::look_at_rh(g3(camera.eye()), g3(camera.target()), g3(camera.up()));
    FrameMath {
        time_elapsed_seconds: s(seconds),
        view_projection: mat(projection * view),
        directional_units: scene
            .directional_lights
            .iter()
            .map(|l| {
                let d = g3(l.direction).normalize();
                v3(d.x, d.y, d.z)
            })
            .collect(),
        spot_cones: scene
            .spot_lights
            .iter()
            .map(|l| {
                let d = g3(l.direction).normalize();
                SpotCone {
                    unit_direction: v3(d.x, d.y, d.z),
                    cutoff_cos: s(f32::cos(f(l.cutoff_radians))),
                    outer_cutoff_cos: s(f32::cos(f(l.outer_cutoff_radians))),
                }
            })
            .collect(),
        model_matrices: scene
            .models
            .iter()
            .map(|m| {
                let local_to_world = glam::Mat4::from_scale_rotation_translation(
                    g3(m.scale()),
                    gq(m.rotation()),
                    g3(m.translation()),
                );
                ModelMatrices {
                    local_to_world: mat(local_to_world),
                    world_to_local: mat(local_to_world.inverse()),
                }
            })
            .collect(),
        lamp_matrices: scene
            .point_lights
            .iter()
            .map(|l| {
                mat(glam::Mat4::from_scale_rotation_translation(
                    glam::Vec3::new(0.2, 0.2, 0.2),
                    glam::Quat::IDENTITY,
                    g3(l.position),
                ))
            })
            .collect(),
    }
}

fn new_renderer() -> Renderer {
    Renderer::new(PhysicalSize { width: 800, height: 600 }, true, defaults())
}

fn one_model_scene(renderer: &mut Renderer) -> Scene {
    let mut scene = Scene::default();
    scene.point_lights.push(point_light_at(1.2, 1.0, 2.0));
    scene.models.push(renderer.create_model(
        cube_mesh(),
        v3(0.0, 0.0, 0.0),
        Quat::identity(),
        v3(1.0, 1.0, 1.0),
    ));
    scene
}

#[test]
fn new_renderer_has_the_initial_camera_and_sizes() {
    let renderer = new_renderer();
    assert_eq!(renderer.window_size(), PhysicalSize { width: 800, height: 600 });
    assert_eq!(
        renderer.surface_config(),
        SurfaceConfiguration { width: 800, height: 600, format_is_srgb: true }
    );
    let camera = renderer.camera();
    assert_eq!(camera.eye(), v3(1.5, 1.0, 5.0));
    assert_eq!(camera.target(), v3(0.0, 0.0, 0.0));
    assert_eq!(camera.up(), v3(0.0, 1.0, 0.0));
    assert_eq!(camera.world_up(), v3(0.0, 1.0, 0.0));
    assert_eq!(f(camera.fov_y()), f32::to_radians(45.0));
    assert_eq!(f(camera.z_near()), 0.1);
    assert_eq!(f(camera.z_far()), 100.0);
    assert_eq!(camera.viewport_width(), 800);
    assert_eq!(camera.viewport_height(), 600);
    assert_eq!(renderer.depth_pass().depth_texture_extent(), Extent { width: 800, height: 600 });
    assert_eq!(renderer.light_debug_pass().lamp_count(), 0);
    assert!(!renderer.debug_state().visualize_depth_pass);
    assert_eq!(renderer.models_created(), 0);
    assert_eq!(*renderer.default_textures(), defaults());
    // Telling the shaders about the surface format dirties the block.
    assert!(renderer.per_frame_uniforms().is_dirty());
    assert_eq!(renderer.per_frame_uniforms().uniforms().output_is_srgb, 1);
    let linear = Renderer::new(PhysicalSize { width: 1, height: 1 }, false, defaults());
    assert_eq!(linear.per_frame_uniforms().uniforms().output_is_srgb, 0);
    assert!(!linear.surface_config().format_is_srgb);
}

#[test]
fn preferred_surface_format_is_the_first_srgb_one() {
    assert_eq!(preferred_surface_format(&vec![false, true, true]), 1);
    assert_eq!(preferred_surface_format(&vec![true, false]), 0);
    assert_eq!(preferred_surface_format(&vec![false, false, false]), 0);
    assert_eq!(preferred_surface_format(&vec![false, false, true]), 2);
    assert_eq!(preferred_surface_format(&vec![false]), 0);
}

#[test]
fn resize_updates_window_surface_depth_and_camera() {
    let mut renderer = new_renderer();
    let update = renderer.resize(1024, 768);
    assert_eq!(
        update,
        Some(SurfaceUpdate {
            surface_config: SurfaceConfiguration { width: 1024, height: 768, format_is_srgb: true },
            depth_extent: Extent { width: 1024, height: 768 },
        })
    );
    assert_eq!(renderer.window_size(), PhysicalSize { width: 1024, height: 768 });
    assert_eq!(renderer.surface_config().width, 1024);
    assert_eq!(renderer.surface_config().height, 768);
    assert_eq!(renderer.depth_pass().depth_texture_extent(), Extent { width: 1024, height: 768 });
    assert_eq!(renderer.camera().aspect_ratio(), Some((1024, 768)));
}

#[test]
fn resize_to_zero_is_refused_and_changes_nothing() {
    let mut renderer = new_renderer();
    assert_eq!(renderer.resize(0, 768), None);
    assert_eq!(renderer.resize(1024, 0), None);
    assert_eq!(renderer.resize(0, 0), None);
    assert_eq!(renderer.window_size(), PhysicalSize { width: 800, height: 600 });
    assert_eq!(renderer.surface_config().width, 800);
    assert_eq!(renderer.depth_pass().depth_texture_extent(), Extent { width: 800, height: 600 });
    assert_eq!(renderer.camera().aspect_ratio(), Some((800, 600)));
    assert_eq!(
        renderer.camera_mut().set_viewport_size(0, 5),
        Err(InvalidCameraSize(0, 5))
    );
}

#[test]
fn depth_texture_has_at_least_one_pixel() {
    let zero = SurfaceConfiguration { width: 0, height: 0, format_is_srgb: false };
    let mut pass = DepthPass::new(&zero);
    assert_eq!(pass.depth_texture_extent(), Extent { width: 1, height: 1 });
    let wide = SurfaceConfiguration { width: 640, height: 0, format_is_srgb: false };
    assert_eq!(pass.resize(&wide), Extent { width: 640, height: 1 });
    assert_eq!(pass.depth_texture_extent(), Extent { width: 640, height: 1 });
    let draw = pass.draw();
    assert_eq!(draw.kind, PassKind::DepthVisualization);
    assert_eq!(draw.color_load, LoadOp::Load);
    assert_eq!(draw.depth_load, None);
    assert_eq!(
        draw.commands,
        vec![
            DrawCommand::SetBindGroup { index: 0, bind_group: BindGroupRef::DepthTexture },
            DrawCommand::SetVertexBuffer { slot: 0, buffer: BufferRef::QuadVertices },
            DrawCommand::SetIndexBuffer {
                buffer: BufferRef::QuadIndices,
                index_format: IndexFormat::Uint16
            },
            DrawCommand::DrawIndexed {
                indices: IndexRange { start: 0, end: 6 },
                base_vertex: 0,
                instances: IndexRange { start: 0, end: 1 },
            },
        ]
    );
}

#[test]
fn input_toggles_the_depth_visualization_on_z_release() {
    let mut renderer = new_renderer();
    let release_z = WindowEvent::KeyboardInput {
        physical_key: KeyCode::KeyZ,
        is_escape: false,
        state: ElementState::Released,
    };
    let press_z = WindowEvent::KeyboardInput {
        physical_key: KeyCode::KeyZ,
        is_escape: false,
        state: ElementState::Pressed,
    };
    let release_c = WindowEvent::KeyboardInput {
        physical_key: KeyCode::KeyC,
        is_escape: false,
        state: ElementState::Released,
    };
    renderer.input(&press_z);
    assert!(!renderer.debug_state().visualize_depth_pass);
    renderer.input(&release_c);
    assert!(!renderer.debug_state().visualize_depth_pass);
    renderer.input(&WindowEvent::MouseInput {
        button: MouseButton::Left,
        state: ElementState::Released,
    });
    assert!(!renderer.debug_state().visualize_depth_pass);
    renderer.input(&release_z);
    assert!(renderer.debug_state().visualize_depth_pass);
    renderer.input(&release_z);
    assert!(!renderer.debug_state().visualize_depth_pass);
}

#[test]
fn created_models_get_keys_of_their_own() {
    let mut renderer = new_renderer();
    let mesh = cube_mesh();
    let a = renderer.create_model(mesh.clone(), v3(0.0, 0.0, 0.0), Quat::identity(), v3(1.0, 1.0, 1.0));
    let b = renderer.create_model(mesh.clone(), v3(1.0, 0.0, 0.0), Quat::identity(), v3(1.0, 1.0, 1.0));
    assert_eq!(renderer.models_created(), 2);
    assert_ne!(a.model_sv_key(), b.model_sv_key());
    assert_ne!(a.model_sv_key().to_bits(), b.model_sv_key().to_bits());
    assert!(a.is_model_sv_dirty());
    assert_eq!(b.translation(), v3(1.0, 0.0, 0.0));
    let vals = renderer.model_shader_vals(a.model_sv_key()).unwrap();
    assert!(!vals.is_dirty());
    assert_eq!(vals.uniforms().local_to_world, Mat4::identity());
    assert!(renderer.model_shader_vals(b.model_sv_key()).is_some());
    // A renderer does not know the keys of another renderer's later models.
    let mut other = new_renderer();
    let _ = other.create_model(mesh.clone(), v3(0.0, 0.0, 0.0), Quat::identity(), v3(1.0, 1.0, 1.0));
    let _ = other.create_model(mesh.clone(), v3(0.0, 0.0, 0.0), Quat::identity(), v3(1.0, 1.0, 1.0));
    let c = other.create_model(mesh, v3(0.0, 0.0, 0.0), Quat::identity(), v3(1.0, 1.0, 1.0));
    assert!(renderer.model_shader_vals(c.model_sv_key()).is_none());
    let scene = Scene { models: vec![c], ..Scene::default() };
    assert!(!renderer.owns_models(&scene));
    assert!(other.owns_models(&scene));
}

#[test]
fn scene_checks() {
    let mut renderer = new_renderer();
    let mesh = cube_mesh();
    let mut scene = one_model_scene(&mut renderer);
    assert!(scene.has_distinct_keys());
    assert!(scene.has_point_lights_in_range());
    assert!(renderer.owns_models(&scene));
    let math = frame_math(&renderer, &scene, 0.0);
    assert!(math.is_fit(&scene));
    assert!(renderer.is_ready_for(&scene, &math));

    // A model that shares its shader values with another one.
    let key = scene.models[0].model_sv_key();
    scene.models.push(squirrel::renderer::models::Model::new(
        key,
        mesh,
        v3(0.0, 0.0, 0.0),
        Quat::identity(),
        v3(1.0, 1.0, 1.0),
    ));
    assert!(!scene.has_distinct_keys());
    let math = frame_math(&renderer, &scene, 0.0);
    assert!(!renderer.is_ready_for(&scene, &math));
    scene.models.pop();

    // A light out of range.
    scene.point_lights[0].ambient = s(2.0);
    assert!(!scene.has_point_lights_in_range());
    let math = frame_math(&renderer, &scene, 0.0);
    assert!(!renderer.is_ready_for(&scene, &math));
    scene.point_lights[0].ambient = s(0.0);

    // Math that does not fit the scene.
    let mut math = frame_math(&renderer, &scene, 0.0);
    math.lamp_matrices.pop();
    assert!(!math.is_fit(&scene));
    assert!(!renderer.is_ready_for(&scene, &math));

    // More lights than there are markers.
    for _ in 0..LAMP_CAPACITY {
        scene.point_lights.push(point_light_at(0.0, 0.0, 0.0));
    }
    let math = frame_math(&renderer, &scene, 0.0);
    assert!(math.is_fit(&scene));
    assert!(!renderer.is_ready_for(&scene, &math));
}

#[test]
fn end_to_end_one_light_one_model() {
    let mut renderer = new_renderer();
    let mut scene = one_model_scene(&mut renderer);
    let key = scene.models[0].model_sv_key();
    assert!(scene.models[0].is_model_sv_dirty());
    let math = frame_math(&renderer, &scene, 0.25);
    assert!(renderer.is_ready_for(&scene, &math));

    let uploads = renderer.prepare_render(&mut scene, &math);

    // The model is clean and so are its uniforms.
    assert!(!scene.models[0].is_model_sv_dirty());
    let vals = renderer.model_shader_vals(key).unwrap();
    assert!(!vals.is_dirty());
    assert_eq!(vals.uniforms().local_to_world, Mat4::identity());
    assert_eq!(vals.uniforms().world_to_local, math.model_matrices[0].world_to_local);
    assert_eq!(f(vals.uniforms().world_to_local.x_axis.x), 1.0);
    assert_eq!(f(vals.uniforms().world_to_local.w_axis.x), 0.0);
    assert_eq!(vals.uniforms().point_light_count, 1);
    assert_eq!(vals.uniforms().point_light[0], PackedPointLight::from(scene.point_lights[0]));
    // The per-frame block was handed out exactly once, and last.
    assert_eq!(
        uploads,
        vec![Upload::PerModel { key }, Upload::LampInstances, Upload::PerFrame]
    );
    assert_eq!(uploads.iter().filter(|u| **u == Upload::PerFrame).count(), 1);
    assert!(!renderer.per_frame_uniforms().is_dirty());
    let per_frame = renderer.per_frame_uniforms().uniforms();
    assert_eq!(f(per_frame.time_elapsed_seconds), 0.25);
    assert_eq!(per_frame.view_projection, math.view_projection);
    assert_eq!(per_frame.view_pos, Vec4::new(s(1.5), s(1.0), s(5.0), s(1.0)));
    assert_eq!(per_frame.directional_light_count, 0);
    assert_eq!(per_frame.spot_light_count, 0);
    // There is one light marker, at the light, tinted like the light.
    assert_eq!(renderer.light_debug_pass().lamp_count(), 1);
    assert!(!renderer.light_debug_pass().is_dirty());
    let marker = renderer.light_debug_pass().lamp_instances()[0];
    assert_eq!(marker.color_tint, v3(0.8, 0.8, 0.8));
    assert_eq!(marker.local_to_world, math.lamp_matrices[0]);
    assert_eq!(marker.local_to_world.w_axis, Vec4::new(s(1.2), s(1.0), s(2.0), s(1.0)));
    assert_eq!(f(marker.local_to_world.x_axis.x), 0.2);

    let passes = renderer.record_passes(&scene);

    assert_eq!(renderer.light_debug_pass().lamp_count(), 0);
    assert_eq!(passes.len(), 2);
    assert_eq!(passes[0].kind, PassKind::Main);
    assert_eq!(passes[0].color_load, LoadOp::Clear);
    assert_eq!(passes[0].depth_load, Some(LoadOp::Clear));
    assert_eq!(
        passes[0].commands,
        vec![
            DrawCommand::SetBindGroup { index: 0, bind_group: BindGroupRef::PerFrame },
            DrawCommand::SetBindGroup { index: 1, bind_group: BindGroupRef::PerModel { key } },
            DrawCommand::SetVertexBuffer {
                slot: 0,
                buffer: BufferRef::Mesh { buffer: BufferId { id: 1 } }
            },
            DrawCommand::SetIndexBuffer {
                buffer: BufferRef::Mesh { buffer: BufferId { id: 2 } },
                index_format: IndexFormat::Uint16,
            },
            DrawCommand::SetBindGroup {
                index: 2,
                bind_group: BindGroupRef::PerSubmesh { bind_group: BindGroupId { id: 1 } },
            },
            DrawCommand::DrawIndexed {
                indices: IndexRange { start: 0, end: 36 },
                base_vertex: 0,
                instances: IndexRange { start: 0, end: 1 },
            },
        ]
    );
    assert_eq!(passes[1].kind, PassKind::LightDebug);
    assert_eq!(passes[1].color_load, LoadOp::Load);
    assert_eq!(passes[1].depth_load, Some(LoadOp::Load));
    assert_eq!(
        passes[1].commands,
        vec![
            DrawCommand::SetBindGroup { index: 0, bind_group: BindGroupRef::PerFrame },
            DrawCommand::SetVertexBuffer { slot: 0, buffer: BufferRef::DebugCubeVertices },
            DrawCommand::SetVertexBuffer { slot: 1, buffer: BufferRef::LampInstances },
            DrawCommand::SetIndexBuffer {
                buffer: BufferRef::DebugCubeIndices,
                index_format: IndexFormat::Uint16
            },
            DrawCommand::DrawIndexed {
                indices: IndexRange { start: 0, end: 36 },
                base_vertex: 0,
                instances: IndexRange { start: 0, end: 1 },
            },
        ]
    );
}

#[test]
fn render_is_prepare_then_record() {
    let mut renderer = new_renderer();
    let mut scene = one_model_scene(&mut renderer);
    let key = scene.models[0].model_sv_key();
    let math = frame_math(&renderer, &scene, 0.0);
    let frame = renderer.render(&mut scene, &math, Ok(()));
    assert_eq!(
        frame.uploads,
        vec![Upload::PerModel { key }, Upload::LampInstances, Upload::PerFrame]
    );
    let passes = frame.passes.unwrap();
    assert_eq!(passes.len(), 2);
    assert_eq!(passes[0].kind, PassKind::Main);
    assert_eq!(passes[1].kind, PassKind::LightDebug);
    match passes[1].commands[4] {
        DrawCommand::DrawIndexed { instances, .. } => {
            assert_eq!(instances, IndexRange { start: 0, end: 1 })
        }
        _ => panic!("the light debug pass ends with a draw"),
    }
    assert!(!scene.models[0].is_model_sv_dirty());
    assert!(!renderer.per_frame_uniforms().is_dirty());
    assert_eq!(renderer.light_debug_pass().lamp_count(), 0);

    // A second frame with nothing changed still writes every block: the
    // lights are set anew each frame.
    let math = frame_math(&renderer, &scene, 0.1);
    let frame = renderer.render(&mut scene, &math, Ok(()));
    assert_eq!(
        frame.uploads,
        vec![Upload::PerModel { key }, Upload::LampInstances, Upload::PerFrame]
    );
    assert_eq!(renderer.light_debug_pass().lamp_count(), 0);
}

#[test]
fn a_frame_that_the_surface_refuses_is_prepared_but_not_drawn() {
    let mut renderer = new_renderer();
    let mut scene = one_model_scene(&mut renderer);
    let math = frame_math(&renderer, &scene, 0.0);
    let frame = renderer.render(&mut scene, &math, Err(SurfaceError::Timeout));
    assert_eq!(frame.uploads.len(), 3);
    assert_eq!(frame.passes.err(), Some(SurfaceError::Timeout));
    assert!(!scene.models[0].is_model_sv_dirty());
    // The markers of the frame were made but not drawn.
    assert_eq!(renderer.light_debug_pass().lamp_count(), 1);
    // The next frame makes its markers anew: one light, one marker.
    let math = frame_math(&renderer, &scene, 0.0);
    let frame = renderer.render(&mut scene, &math, Ok(()));
    let passes = frame.passes.unwrap();
    match passes[1].commands[4] {
        DrawCommand::DrawIndexed { instances, .. } => {
            assert_eq!(instances, IndexRange { start: 0, end: 1 })
        }
        _ => panic!("the light debug pass ends with a draw"),
    }
    assert_eq!(renderer.light_debug_pass().lamp_count(), 0);
}

#[test]
fn frames_that_fail_in_a_row_do_not_pile_up_markers() {
    let mut renderer = new_renderer();
    let mut scene = one_model_scene(&mut renderer);
    for i in 0..3 {
        scene.point_lights.push(point_light_at(i as f32, 0.0, 0.0));
    }
    for _ in 0..40 {
        let math = frame_math(&renderer, &scene, 0.0);
        assert!(renderer.is_ready_for(&scene, &math));
        let frame = renderer.render_if_ready(&mut scene, &math, Err(SurfaceError::Outdated));
        assert!(frame.unwrap().passes.is_err());
        assert_eq!(renderer.light_debug_pass().lamp_count(), 4);
    }
    let math = frame_math(&renderer, &scene, 0.0);
    let frame = renderer.render(&mut scene, &math, Ok(()));
    match frame.passes.unwrap()[1].commands[4] {
        DrawCommand::DrawIndexed { instances, .. } => {
            assert_eq!(instances, IndexRange { start: 0, end: 4 })
        }
        _ => panic!("the light debug pass ends with a draw"),
    }
    assert_eq!(renderer.light_debug_pass().lamp_count(), 0);
    // Fewer lights in the next frame: fewer markers, from the first
    // record on; the records behind them keep what they held.
    scene.point_lights.truncate(1);
    scene.point_lights[0].color = v3(0.1, 0.2, 0.3);
    let math = frame_math(&renderer, &scene, 0.0);
    let _ = renderer.prepare_render(&mut scene, &math);
    assert_eq!(renderer.light_debug_pass().lamp_count(), 1);
    assert_eq!(renderer.light_debug_pass().lamp_instances()[0].color_tint, v3(0.1, 0.2, 0.3));
    assert_eq!(renderer.light_debug_pass().lamp_instances()[0].local_to_world, math.lamp_matrices[0]);
    assert_eq!(renderer.light_debug_pass().lamp_instances()[1].color_tint, v3(0.8, 0.8, 0.8));
}

#[test]
fn a_scene_with_as_many_lights_as_markers_is_taken() {
    let mut renderer = new_renderer();
    let mut scene = one_model_scene(&mut renderer);
    while scene.point_lights.len() < LAMP_CAPACITY {
        scene.point_lights.push(point_light_at(0.0, 0.0, 0.0));
    }
    let math = frame_math(&renderer, &scene, 0.0);
    assert!(renderer.is_ready_for(&scene, &math));
    let frame = renderer.render(&mut scene, &math, Err(SurfaceError::Lost));
    assert!(frame.passes.is_err());
    assert_eq!(renderer.light_debug_pass().lamp_count(), LAMP_CAPACITY);
    // A frame that was not drawn leaves the renderer ready for the next.
    let math = frame_math(&renderer, &scene, 0.0);
    assert!(renderer.is_ready_for(&scene, &math));
    scene.point_lights.push(point_light_at(0.0, 0.0, 0.0));
    let math = frame_math(&renderer, &scene, 0.0);
    assert!(!renderer.is_ready_for(&scene, &math));
}

#[test]
fn depth_visualization_is_the_last_pass_when_switched_on() {
    let mut renderer = new_renderer();
    let mut scene = one_model_scene(&mut renderer);
    renderer.input(&WindowEvent::KeyboardInput {
        physical_key: KeyCode::KeyZ,
        is_escape: false,
        state: ElementState::Released,
    });
    let math = frame_math(&renderer, &scene, 0.0);
    let frame = renderer.render(&mut scene, &math, Ok(()));
    let passes = frame.passes.unwrap();
    assert_eq!(passes.len(), 3);
    assert_eq!(passes[0].kind, PassKind::Main);
    assert_eq!(passes[1].kind, PassKind::LightDebug);
    assert_eq!(passes[2].kind, PassKind::DepthVisualization);
    assert_eq!(passes[2].color_load, LoadOp::Load);
    assert_eq!(passes[2].depth_load, None);
}

#[test]
fn only_dirty_models_get_new_matrices() {
    let mut renderer = new_renderer();
    let mesh = cube_mesh();
    let mut scene = Scene::default();
    scene.models.push(renderer.create_model(
        mesh.clone(),
        v3(1.0, 2.0, 3.0),
        Quat::identity(),
        v3(2.0, 2.0, 2.0),
    ));
    scene.models.push(renderer.create_model(
        mesh,
        v3(-1.0, 0.0, 0.0),
        Quat::identity(),
        v3(1.0, 1.0, 1.0),
    ));
    let k0 = scene.models[0].model_sv_key();
    let k1 = scene.models[1].model_sv_key();
    let math = frame_math(&renderer, &scene, 0.0);
    let uploads = renderer.prepare_render(&mut scene, &math);
    assert_eq!(
        uploads,
        vec![Upload::PerModel { key: k0 }, Upload::PerModel { key: k1 }, Upload::PerFrame]
    );
    let first = renderer.model_shader_vals(k0).unwrap().uniforms().local_to_world;
    assert_eq!(first, math.model_matrices[0].local_to_world);
    assert_eq!(first.w_axis, Vec4::new(s(1.0), s(2.0), s(3.0), s(1.0)));
    assert_eq!(f(first.x_axis.x), 2.0);
    assert_eq!(
        renderer.model_shader_vals(k0).unwrap().uniforms().world_to_local,
        math.model_matrices[0].world_to_local
    );
    let _ = renderer.record_passes(&scene);

    // Move the second model only. Hand over matrices that differ for both:
    // the one of the model that is clean must not be read.
    scene.models[1].set_translation(v3(5.0, 5.0, 5.0));
    assert!(scene.models[1].is_model_sv_dirty());
    assert!(!scene.models[0].is_model_sv_dirty());
    let mut math = frame_math(&renderer, &scene, 0.0);
    math.model_matrices[0].local_to_world = Mat4::zero();
    let _ = renderer.prepare_render(&mut scene, &math);
    assert_eq!(renderer.model_shader_vals(k0).unwrap().uniforms().local_to_world, first);
    assert_eq!(
        renderer.model_shader_vals(k1).unwrap().uniforms().local_to_world.w_axis,
        Vec4::new(s(5.0), s(5.0), s(5.0), s(1.0))
    );
    assert!(!scene.models[1].is_model_sv_dirty());
    assert!(!renderer.model_shader_vals(k1).unwrap().is_dirty());
}

#[test]
fn prepare_packs_the_lights_of_the_scene() {
    let mut renderer = new_renderer();
    let mut scene = one_model_scene(&mut renderer);
    let key = scene.models[0].model_sv_key();
    for i in 0..5 {
        scene.point_lights.push(point_light_at(i as f32, 0.0, 0.0));
    }
    scene.directional_lights.push(DirectionalLight {
        direction: v3(0.0, -2.0, 0.0),
        color: v3(0.3, 0.3, 0.3),
        ambient: s(0.01),
        specular: s(0.2),
    });
    scene.spot_lights.push(SpotLight {
        position: v3(1.0, 0.0, 0.0),
        direction: v3(0.0, 0.0, -3.0),
        cutoff_radians: s(0.2181662),
        outer_cutoff_radians: s(0.3054326),
        color: v3(0.8, 0.8, 0.8),
        attenuation: LightAttenuation { constant: s(1.0), linear: s(0.09), quadratic: s(0.032) },
        ambient: s(0.01),
        specular: s(1.0),
    });
    let math = frame_math(&renderer, &scene, 0.0);
    let _ = renderer.prepare_render(&mut scene, &math);
    let vals = renderer.model_shader_vals(key).unwrap().uniforms();
    assert_eq!(vals.point_light_count, 4);
    for i in 0..4 {
        assert_eq!(vals.point_light[i], PackedPointLight::from(scene.point_lights[i]));
    }
    let per_frame = renderer.per_frame_uniforms().uniforms();
    assert_eq!(per_frame.directional_light_count, 1);
    assert_eq!(
        per_frame.directional_lights[0],
        PackedDirectionalLight::pack(&scene.directional_lights[0], v3(0.0, -1.0, 0.0))
    );
    assert_eq!(per_frame.spot_light_count, 1);
    assert_eq!(
        per_frame.spot_lights[0],
        PackedSpotLight::pack(&scene.spot_lights[0], &math.spot_cones[0])
    );
    assert_eq!(renderer.light_debug_pass().lamp_count(), 6);
    for i in 0..6 {
        let marker = renderer.light_debug_pass().lamp_instances()[i];
        assert_eq!(marker.color_tint, scene.point_lights[i].color);
        assert_eq!(marker.local_to_world, math.lamp_matrices[i]);
    }
}

#[test]
fn light_debug_pass_counts_and_forgets_markers() {
    let mut pass = LightDebugPass::new();
    assert_eq!(pass.lamp_count(), 0);
    assert_eq!(pass.lamp_instances().len(), LAMP_CAPACITY);
    assert_eq!(pass.lamp_instances()[99].color_tint, v3(1.0, 1.0, 1.0));
    assert_eq!(pass.lamp_instances()[99].local_to_world, Mat4::identity());
    // Nothing to write while there is no light.
    assert!(!pass.prepare(&vec![], &vec![]));
    let m = mat(glam::Mat4::from_translation(glam::Vec3::new(1.0, 2.0, 3.0)));
    pass.add_point_light(&point_light_at(1.0, 2.0, 3.0), m);
    pass.add_point_light(&point_light_at(7.0, 8.0, 9.0), m);
    assert_eq!(pass.lamp_count(), 2);
    assert!(pass.is_dirty());
    // Preparing a frame starts from no marker: one light, one marker, in
    // the first record.
    let mut red = point_light_at(4.0, 5.0, 6.0);
    red.color = v3(1.0, 0.0, 0.0);
    assert!(pass.prepare(&vec![red], &vec![Mat4::zero()]));
    assert!(!pass.is_dirty());
    assert_eq!(pass.lamp_count(), 1);
    assert_eq!(pass.lamp_instances()[0].local_to_world, Mat4::zero());
    assert_eq!(pass.lamp_instances()[0].color_tint, v3(1.0, 0.0, 0.0));
    // The second record is not drawn; it keeps what it held.
    assert_eq!(pass.lamp_instances()[1].local_to_world, m);
    assert_eq!(pass.lamp_instances()[2].local_to_world, Mat4::identity());
    // Preparing again gives the same markers, not more.
    assert!(pass.prepare(&vec![red], &vec![Mat4::zero()]));
    assert_eq!(pass.lamp_count(), 1);
    // A frame without lights has no marker, and nothing to write.
    assert!(!pass.prepare(&vec![], &vec![]));
    assert_eq!(pass.lamp_count(), 0);
    pass.add_point_light(&red, m);
    assert_eq!(pass.lamp_count(), 1);
    pass.finish_frame();
    assert_eq!(pass.lamp_count(), 0);
    assert_eq!(pass.lamp_instances()[0].local_to_world, m);
}

#[test]
fn render_if_ready_refuses_a_scene_that_the_renderer_cannot_draw() {
    let mut renderer = new_renderer();
    let mut scene = one_model_scene(&mut renderer);
    let mut math = frame_math(&renderer, &scene, 0.0);
    math.model_matrices.clear();
    assert!(renderer.render_if_ready(&mut scene, &math, Ok(())).is_none());
    assert!(scene.models[0].is_model_sv_dirty());
    assert_eq!(renderer.light_debug_pass().lamp_count(), 0);
    assert!(renderer.per_frame_uniforms().is_dirty());

    let math = frame_math(&renderer, &scene, 0.0);
    let frame = renderer.render_if_ready(&mut scene, &math, Ok(())).unwrap();
    assert_eq!(frame.uploads.len(), 3);
    assert_eq!(frame.passes.unwrap().len(), 2);
    assert!(!scene.models[0].is_model_sv_dirty());
    assert!(!renderer.per_frame_uniforms().is_dirty());
}
