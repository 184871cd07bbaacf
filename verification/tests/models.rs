use squirrel::math::{Quat, Scalar, Vec3};
use squirrel::renderer::gpu_buffers::{BindGroupId, BufferId};
use squirrel::renderer::materials::{DefaultTextures, Material, MaterialBuilder, TextureId};
use squirrel::renderer::model_slots::ModelShaderValsKey;
use squirrel::renderer::models::{DrawModel, Mesh, Model, Submesh};
use squirrel::renderer::passes::{
    BindGroupRef, BufferRef, DrawCommand, IndexFormat, IndexRange, LoadOp, PassKind, RenderPass,
};
use squirrel::renderer::shaders::PerModelShaderVals;
use squirrel::renderer::{PhysicalSize, Renderer};
use std::rc::Rc;

fn s(x: f32) -> Scalar {
    Scalar::from_bits(x.to_bits())
}

fn v3(x: f32, y: f32, z: f32) -> Vec3 {
    Vec3::new(s(x), s(y), s(z))
}

fn defaults() -> DefaultTextures {
    DefaultTextures {
        diffuse_map: TextureId { id: 10 },
        specular_map: TextureId { id: 11 },
        emissive_map: TextureId { id: 12 },
    }
}

fn material() -> Material {
    MaterialBuilder::new().build(&defaults())
}

fn submesh(id: u64, start: u32, end: u32, base_vertex: i32) -> Submesh {
    Submesh::new(BindGroupId { id }, start..end, base_vertex, &material())
}

fn two_part_mesh() -> Mesh {
    Mesh::new(
        BufferId { id: 1 },
        BufferId { id: 2 },
        36,
        IndexFormat::Uint32,
        vec![submesh(7, 0, 24, 0), submesh(8, 24, 36, 16)],
    )
}

fn renderer() -> Renderer {
    Renderer::new(PhysicalSize { width: 800, height: 600 }, true, defaults())
}

fn key() -> ModelShaderValsKey {
    let mut r = renderer();
    let model = r.create_model(Rc::new(two_part_mesh()), v3(0.0, 0.0, 0.0), Quat::identity(), v3(1.0, 1.0, 1.0));
    model.model_sv_key()
}

#[test]
fn submesh_keeps_its_range_and_base_vertex() {
    let part = submesh(7, 3, 9, -2);
    assert_eq!(part.indices(), 3..9);
    assert_eq!(part.base_vertex(), -2);
    assert_eq!(part.submesh_shader_vals().bind_group(), BindGroupId { id: 7 });
    assert!(!part.submesh_shader_vals().is_dirty());
}

#[test]
fn largest_index_end_is_the_maximum() {
    assert_eq!(Mesh::largest_index_end(&vec![]), 0);
    assert_eq!(Mesh::largest_index_end(&vec![submesh(1, 0, 24, 0), submesh(2, 24, 36, 0)]), 36);
    assert_eq!(Mesh::largest_index_end(&vec![submesh(1, 24, 36, 0), submesh(2, 0, 24, 0)]), 36);
    assert_eq!(Mesh::largest_index_end(&vec![submesh(1, 5, 5, 0)]), 5);
}

#[test]
fn mesh_refuses_submeshes_beyond_the_index_count() {
    let parts = vec![submesh(1, 0, 24, 0), submesh(2, 24, 37, 0)];
    assert!(!Mesh::fits(36, &parts));
    assert!(Mesh::fits(37, &parts));
    assert!(Mesh::fits(40, &parts));
    assert!(Mesh::fits(0, &vec![]));
    assert!(!Mesh::fits(0, &vec![submesh(1, 0, 1, 0)]));
}

#[test]
fn mesh_keeps_what_it_was_made_of() {
    let mesh = two_part_mesh();
    assert_eq!(mesh.vertex_buffer(), BufferId { id: 1 });
    assert_eq!(mesh.index_buffer(), BufferId { id: 2 });
    assert_eq!(mesh.index_count(), 36);
    assert_eq!(mesh.index_format(), IndexFormat::Uint32);
    assert_eq!(mesh.submeshes().len(), 2);
    assert_eq!(mesh.submeshes()[1].indices(), 24..36);
    assert!(Mesh::fits(mesh.index_count(), mesh.submeshes()));
}

#[test]
fn new_model_is_dirty() {
    let model = Model::new(
        key(),
        Rc::new(two_part_mesh()),
        v3(1.0, 2.0, 3.0),
        Quat::identity(),
        v3(2.0, 2.0, 2.0),
    );
    assert!(model.is_model_sv_dirty());
    assert_eq!(model.translation(), v3(1.0, 2.0, 3.0));
    assert_eq!(model.rotation(), Quat::identity());
    assert_eq!(model.scale(), v3(2.0, 2.0, 2.0));
    assert_eq!(model.mesh().index_count(), 36);
}

#[test]
fn every_setter_marks_the_model_dirty() {
    let mut model = Model::new(
        key(),
        Rc::new(two_part_mesh()),
        v3(1.0, 2.0, 3.0),
        Quat::identity(),
        v3(2.0, 2.0, 2.0),
    );
    model.mark_model_sv_updated();
    assert!(!model.is_model_sv_dirty());

    model.set_translation(v3(4.0, 5.0, 6.0));
    assert!(model.is_model_sv_dirty());
    assert_eq!(model.translation(), v3(4.0, 5.0, 6.0));
    model.mark_model_sv_updated();

    let q = Quat::new(s(0.0), s(1.0), s(0.0), s(0.0));
    model.set_rotation(q);
    assert!(model.is_model_sv_dirty());
    assert_eq!(model.rotation(), q);
    model.mark_model_sv_updated();

    model.set_scale(v3(3.0, 3.0, 3.0));
    assert!(model.is_model_sv_dirty());
    assert_eq!(model.scale(), v3(3.0, 3.0, 3.0));
    model.mark_model_sv_updated();

    // Setting the same values again still marks the model dirty.
    model.set_scale_rotation_translation(v3(3.0, 3.0, 3.0), q, v3(4.0, 5.0, 6.0));
    assert!(model.is_model_sv_dirty());
    assert_eq!(model.scale(), v3(3.0, 3.0, 3.0));
    assert_eq!(model.rotation(), q);
    assert_eq!(model.translation(), v3(4.0, 5.0, 6.0));
    model.mark_model_sv_updated();
    assert!(!model.is_model_sv_dirty());
    assert_eq!(model.translation(), v3(4.0, 5.0, 6.0));
}

fn expected_mesh_commands() -> Vec<DrawCommand> {
    vec![
        DrawCommand::SetVertexBuffer { slot: 0, buffer: BufferRef::Mesh { buffer: BufferId { id: 1 } } },
        DrawCommand::SetIndexBuffer {
            buffer: BufferRef::Mesh { buffer: BufferId { id: 2 } },
            index_format: IndexFormat::Uint32,
        },
        DrawCommand::SetBindGroup {
            index: 2,
            bind_group: BindGroupRef::PerSubmesh { bind_group: BindGroupId { id: 7 } },
        },
        DrawCommand::DrawIndexed {
            indices: IndexRange { start: 0, end: 24 },
            base_vertex: 0,
            instances: IndexRange { start: 0, end: 1 },
        },
        DrawCommand::SetBindGroup {
            index: 2,
            bind_group: BindGroupRef::PerSubmesh { bind_group: BindGroupId { id: 8 } },
        },
        DrawCommand::DrawIndexed {
            indices: IndexRange { start: 24, end: 36 },
            base_vertex: 16,
            instances: IndexRange { start: 0, end: 1 },
        },
    ]
}

#[test]
fn draw_mesh_records_buffers_then_each_submesh() {
    let mut pass = RenderPass::main();
    assert_eq!(pass.kind, PassKind::Main);
    assert_eq!(pass.color_load, LoadOp::Clear);
    assert_eq!(pass.depth_load, Some(LoadOp::Clear));
    assert!(pass.commands.is_empty());
    pass.draw_mesh(&two_part_mesh());
    assert_eq!(pass.commands, expected_mesh_commands());
    assert_eq!(pass.kind, PassKind::Main);
}

#[test]
fn draw_model_binds_the_model_uniforms_first() {
    let k = key();
    let mut model = Model::new(
        k,
        Rc::new(two_part_mesh()),
        v3(1.0, 2.0, 3.0),
        Quat::identity(),
        v3(2.0, 2.0, 2.0),
    );
    model.mark_model_sv_updated();
    let vals = PerModelShaderVals::new();
    let mut pass = RenderPass::main();
    pass.commands.push(DrawCommand::SetBindGroup { index: 0, bind_group: BindGroupRef::PerFrame });
    pass.draw_model(&model, &vals);
    let mut expected = vec![
        DrawCommand::SetBindGroup { index: 0, bind_group: BindGroupRef::PerFrame },
        DrawCommand::SetBindGroup { index: 1, bind_group: BindGroupRef::PerModel { key: k } },
    ];
    expected.extend(expected_mesh_commands());
    assert_eq!(pass.commands, expected);
}

#[test]
fn a_mesh_without_submeshes_draws_nothing() {
    let mesh = Mesh::new(BufferId { id: 1 }, BufferId { id: 2 }, 0, IndexFormat::Uint16, vec![]);
    let mut pass = RenderPass::main();
    pass.draw_mesh(&mesh);
    assert_eq!(
        pass.commands,
        vec![
            DrawCommand::SetVertexBuffer {
                slot: 0,
                buffer: BufferRef::Mesh { buffer: BufferId { id: 1 } }
            },
            DrawCommand::SetIndexBuffer {
                buffer: BufferRef::Mesh { buffer: BufferId { id: 2 } },
                index_format: IndexFormat::Uint16,
            },
        ]
    );
}
