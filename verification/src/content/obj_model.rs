//! Meshes and materials made from the records of an obj model file.
//!
//! The host reads and parses the file. The records that come out of the
//! parser must be triangulated and single-indexed: one index per vertex,
//! which selects position, normal and texture coordinates alike. Each model
//! of the file becomes one submesh; all of them share one vertex and one
//! index buffer.
use vstd::prelude::*;
use core::ops::Range;
use crate::math::Scalar;
use crate::math::Vec2;
use crate::math::Vec3;
use crate::renderer::gpu_buffers::BindGroupId;
use crate::renderer::gpu_buffers::BufferId;
use crate::renderer::materials::DefaultTextures;
use crate::renderer::materials::Material;
use crate::renderer::materials::MaterialBuilder;
use crate::renderer::materials::TextureId;
use crate::renderer::models::max_index_end;
use crate::renderer::models::Mesh;
use crate::renderer::models::MeshView;
use crate::renderer::models::Submesh;
use crate::renderer::models::Vertex;
use crate::renderer::passes::IndexFormat;
use crate::renderer::shaders::packed_structs::PackedMaterialConstants;

verus! {

/// The geometry of one model of an obj file, as the parser hands it out.
pub struct ObjMesh {
    /// Three scalars for each vertex.
    pub positions: Vec<Scalar>,
    /// Three scalars for each vertex, or none at all.
    pub normals: Vec<Scalar>,
    /// Two scalars for each vertex.
    pub texcoords: Vec<Scalar>,
    /// Three indices for each triangle.
    pub indices: Vec<u32>,
    /// The number of vertices of each face; empty where every face is a
    /// triangle.
    pub face_arities: Vec<u32>,
    /// Indices into `texcoords`; empty where the mesh is single-indexed.
    pub texcoord_indices: Vec<u32>,
    /// Indices into `normals`; empty where the mesh is single-indexed.
    pub normal_indices: Vec<u32>,
    /// The index of the mesh's material among the materials of the file.
    pub material_id: Option<usize>,
}

/// One model of an obj file.
pub struct ObjModel {
    pub mesh: ObjMesh,
    pub name: String,
}

/// One material of an obj file's material library. The host has loaded
/// the textures that the material names.
#[derive(Clone, Copy, Debug, PartialEq, Eq, Structural)]
pub struct ObjMaterial {
    pub ambient: Option<Vec3>,
    pub diffuse: Option<Vec3>,
    pub specular: Option<Vec3>,
    pub shininess: Option<Scalar>,
    pub diffuse_texture: Option<TextureId>,
    pub shininess_texture: Option<TextureId>,
}

impl ObjMesh {
    /// The number of vertices.
    pub open spec fn vertex_count(&self) -> int {
        self.positions@.len() as int / 3
    }

    /// The mesh is triangulated and single-indexed, it has texture
    /// coordinates for every vertex and normals for every vertex or for
    /// none, and it names one of `material_count` materials.
    pub open spec fn usable(&self, material_count: int) -> bool {
        &&& self.face_arities@.len() == 0
        &&& self.normal_indices@.len() == 0
        &&& self.texcoord_indices@.len() == 0
        &&& self.positions@.len() % 3 == 0
        &&& self.texcoords@.len() >= 2 * self.vertex_count()
        &&& self.normals@.len() == 0 || self.normals@.len() >= 3 * self.vertex_count()
        &&& self.material_id is Some
        &&& self.material_id->Some_0 < material_count
    }

    /// Computes `usable`.
    pub fn is_usable(&self, material_count: usize) -> (r: bool)
        ensures
            r == self.usable(material_count as int),
    {
        let n: usize = self.positions.len() / 3;
        self.face_arities.len() == 0 && self.normal_indices.len() == 0
            && self.texcoord_indices.len() == 0 && self.positions.len() % 3 == 0
            && self.texcoords.len() / 2 >= n && (self.texcoords.len() >= 2 * n) && (
        self.normals.len() == 0 || (self.normals.len() / 3 >= n && self.normals.len() >= 3 * n))
            && match self.material_id {
            Some(m) => m < material_count,
            None => false,
        }
    }

    /// The vertex with the number `i`: its position, its texture
    /// coordinates, and its normal, which is zero where the mesh has no
    /// normals.
    pub open spec fn vertex(&self, i: int) -> Vertex {
        Vertex {
            position: Vec3 {
                x: self.positions@[3 * i],
                y: self.positions@[3 * i + 1],
                z: self.positions@[3 * i + 2],
            },
            normal: if self.normals@.len() > 0 {
                Vec3 {
                    x: self.normals@[3 * i],
                    y: self.normals@[3 * i + 1],
                    z: self.normals@[3 * i + 2],
                }
            } else {
                Vec3::splat_spec(0)
            },
            tex_coords: Vec2 { x: self.texcoords@[2 * i], y: self.texcoords@[2 * i + 1] },
        }
    }

    /// The vertices of the mesh, in order.
    pub open spec fn vertices(&self) -> Seq<Vertex> {
        Seq::new(self.vertex_count() as nat, |i: int| self.vertex(i))
    }
}

/// Creates a material from a material of an obj file. A constant that the
/// file leaves out takes its default. The diffuse map is the file's
/// diffuse texture and the specular map is its shininess texture, each
/// replaced by the default texture where the file names none; the emissive
/// map is always the default.
pub fn create_material(
    mat: &ObjMaterial,
    default_textures: &DefaultTextures,
) -> (material: Material)
    ensures
        material == (MaterialBuilder {
            ambient_color: mat.ambient,
            diffuse_color: mat.diffuse,
            specular_color: mat.specular,
            specular_power: mat.shininess,
            diffuse_map: mat.diffuse_texture,
            specular_map: mat.shininess_texture,
            emissive_map: None,
        }).built(*default_textures),
{
    let builder = MaterialBuilder {
        ambient_color: mat.ambient,
        diffuse_color: mat.diffuse,
        specular_color: mat.specular,
        specular_power: mat.shininess,
        diffuse_map: mat.diffuse_texture,
        specular_map: mat.shininess_texture,
        emissive_map: None,
    };
    builder.build(default_textures)
}

/// Whether `process_obj_mesh` takes `model` behind `vertex_count` vertices
/// and `index_count` indices: the mesh is usable, and base vertex and
/// index range still fit their types.
pub open spec fn appendable(
    model: &ObjModel,
    vertex_count: int,
    index_count: int,
    material_count: int,
) -> bool {
    &&& model.mesh.usable(material_count)
    &&& vertex_count <= i32::MAX
    &&& index_count + model.mesh.indices@.len() <= u32::MAX
}

/// Computes `appendable`.
pub fn is_appendable(
    model: &ObjModel,
    vertex_count: usize,
    index_count: usize,
    material_count: usize,
) -> (r: bool)
    ensures
        r == appendable(model, vertex_count as int, index_count as int, material_count as int),
{
    model.mesh.is_usable(material_count) && vertex_count <= 0x7fff_ffff && index_count
        <= 0xffff_ffff && model.mesh.indices.len() <= 0xffff_ffff - index_count
}

/// Append the vertices and indices of an obj model into a shared vertex
/// and index buffer for the entire mesh. Returns a `Submesh` that
/// references the appended data.
///
/// `model`: The obj model to copy from.
/// `vertices`: Vertices from the model are appended to this vertex buffer.
/// `indices`: Indices from the model are appended to this index buffer.
/// `materials`: All the materials loaded by the obj model file.
/// `bind_group`: The bind group of the new submesh.
pub fn process_obj_mesh(
    model: &ObjModel,
    vertices: &mut Vec<Vertex>,
    indices: &mut Vec<u32>,
    materials: &Vec<Material>,
    bind_group: BindGroupId,
) -> (submesh: Submesh)
    requires
        appendable(
            model,
            old(vertices)@.len() as int,
            old(indices)@.len() as int,
            materials@.len() as int,
        ),
    ensures
        final(vertices)@ == old(vertices)@ + model.mesh.vertices(),
        final(indices)@ == old(indices)@ + model.mesh.indices@,
        submesh.index_range() == (Range {
            start: old(indices)@.len() as u32,
            end: (old(indices)@.len() + model.mesh.indices@.len()) as u32,
        }),
        submesh.vertex_offset() == old(vertices)@.len(),
        submesh.shader_vals().bind_group_spec() == bind_group,
        submesh.shader_vals().values().material == PackedMaterialConstants::packed(
            materials@[model.mesh.material_id->Some_0 as int],
        ),
        submesh.shader_vals().textures() == (
            materials@[model.mesh.material_id->Some_0 as int].diffuse_map,
            materials@[model.mesh.material_id->Some_0 as int].specular_map,
            materials@[model.mesh.material_id->Some_0 as int].emissive_map,
        ),
        !submesh.shader_vals().dirty(),
{
    let mesh = &model.mesh;
    let has_normals = mesh.normals.len() > 0;
    let base_vertex: i32 = vertices.len() as i32;
    let base_index: u32 = indices.len() as u32;
    let positions_len: usize = mesh.positions.len();
    let vertex_count: usize = positions_len / 3;

    let mut vp_i: usize = 0;
    while vp_i < vertex_count
        invariant
            0 <= vp_i <= vertex_count,
            vertex_count == mesh.vertex_count(),
            positions_len == mesh.positions@.len() == 3 * vertex_count,
            has_normals == (mesh.normals@.len() > 0),
            mesh.usable(materials@.len() as int),
            vertices@ == old(vertices)@ + mesh.vertices().take(vp_i as int),
        decreases vertex_count - vp_i,
    {
        let normal = if has_normals {
            Vec3::new(mesh.normals[vp_i * 3], mesh.normals[vp_i * 3 + 1], mesh.normals[vp_i * 3 + 2])
        } else {
            Vec3::zero()
        };
        let v = Vertex {
            position: Vec3::new(
                mesh.positions[vp_i * 3],
                mesh.positions[vp_i * 3 + 1],
                mesh.positions[vp_i * 3 + 2],
            ),
            normal,
            tex_coords: Vec2::new(mesh.texcoords[vp_i * 2], mesh.texcoords[vp_i * 2 + 1]),
        };
        assert(v == mesh.vertex(vp_i as int));
        vertices.push(v);
        assert(vertices@ =~= old(vertices)@ + mesh.vertices().take(vp_i + 1));
        vp_i += 1;
    }
    assert(mesh.vertices().take(vertex_count as int) =~= mesh.vertices());

    let mut k: usize = 0;
    while k < mesh.indices.len()
        invariant
            0 <= k <= mesh.indices@.len(),
            indices@ == old(indices)@ + mesh.indices@.take(k as int),
        decreases mesh.indices@.len() - k,
    {
        indices.push(mesh.indices[k]);
        assert(indices@ =~= old(indices)@ + mesh.indices@.take(k + 1));
        k += 1;
    }
    assert(mesh.indices@.take(k as int) =~= mesh.indices@);

    let material_id: usize = match mesh.material_id {
        Some(m) => m,
        None => 0,
    };
    Submesh::new(
        bind_group,
        Range { start: base_index, end: base_index + mesh.indices.len() as u32 },
        base_vertex,
        &materials[material_id],
    )
}

/// The vertices of the first `n` of `models`, one model after the other.
pub open spec fn vertices_before(models: Seq<ObjModel>, n: int) -> Seq<Vertex>
    decreases n,
{
    if n <= 0 {
        Seq::empty()
    } else {
        vertices_before(models, n - 1) + models[n - 1].mesh.vertices()
    }
}

/// The indices of the first `n` of `models`, one model after the other.
pub open spec fn indices_before(models: Seq<ObjModel>, n: int) -> Seq<u32>
    decreases n,
{
    if n <= 0 {
        Seq::empty()
    } else {
        indices_before(models, n - 1) + models[n - 1].mesh.indices@
    }
}

/// Whether `create_mesh` takes `models`: each of them can be appended
/// behind those before it.
pub open spec fn assemblable(models: Seq<ObjModel>, material_count: int) -> bool {
    forall|i: int|
        0 <= i < models.len() ==> appendable(
            #[trigger] &models[i],
            vertices_before(models, i).len() as int,
            indices_before(models, i).len() as int,
            material_count,
        )
}

/// Computes `assemblable`.
pub fn is_assemblable(obj_meshes: &Vec<ObjModel>, material_count: usize) -> (r: bool)
    ensures
        r == assemblable(obj_meshes@, material_count as int),
{
    let mut vertex_total: usize = 0;
    let mut index_total: usize = 0;
    let mut i: usize = 0;
    while i < obj_meshes.len()
        invariant
            0 <= i <= obj_meshes@.len(),
            vertex_total == vertices_before(obj_meshes@, i as int).len(),
            index_total == indices_before(obj_meshes@, i as int).len(),
            index_total <= u32::MAX,
            forall|k: int|
                0 <= k < i ==> appendable(
                    #[trigger] &obj_meshes@[k],
                    vertices_before(obj_meshes@, k).len() as int,
                    indices_before(obj_meshes@, k).len() as int,
                    material_count as int,
                ),
        decreases obj_meshes@.len() - i,
    {
        if !is_appendable(&obj_meshes[i], vertex_total, index_total, material_count) {
            return false;
        }
        let added: usize = obj_meshes[i].mesh.positions.len() / 3;
        assert(vertices_before(obj_meshes@, i + 1) == vertices_before(obj_meshes@, i as int)
            + obj_meshes@[i as int].mesh.vertices());
        assert(indices_before(obj_meshes@, i + 1) == indices_before(obj_meshes@, i as int)
            + obj_meshes@[i as int].mesh.indices@);
        if added > usize::MAX - vertex_total {
            // No later model fits behind this many vertices; a last model
            // would, but a vector cannot hold this many.
            if i + 1 < obj_meshes.len() {
                assert(!appendable(
                    &obj_meshes@[i + 1],
                    vertices_before(obj_meshes@, i + 1).len() as int,
                    indices_before(obj_meshes@, i + 1).len() as int,
                    material_count as int,
                ));
                return false;
            }
            return true;
        }
        vertex_total += added;
        index_total += obj_meshes[i].mesh.indices.len();
        i += 1;
    }
    true
}

/// A mesh together with the data that its two buffers hold.
pub struct MeshData {
    /// What the vertex buffer of `mesh` holds.
    pub vertices: Vec<Vertex>,
    /// What the index buffer of `mesh` holds.
    pub indices: Vec<u32>,
    pub mesh: Mesh,
}

/// Create a mesh out of the models in an obj model file. Every model
/// becomes a submesh; the submeshes share the two buffers, one behind the
/// other, and the indices are 32 bits wide.
///
/// `obj_meshes`: All the obj models defined by the .obj file.
/// `materials`: All the materials referenced in the .obj file.
/// `vertex_buffer`, `index_buffer`: The buffers of the mesh.
/// `bind_groups`: For each model, the bind group of its submesh.
pub fn create_mesh(
    obj_meshes: &Vec<ObjModel>,
    materials: &Vec<Material>,
    vertex_buffer: BufferId,
    index_buffer: BufferId,
    bind_groups: &Vec<BindGroupId>,
) -> (data: MeshData)
    requires
        bind_groups@.len() == obj_meshes@.len(),
        assemblable(obj_meshes@, materials@.len() as int),
    ensures
        data.vertices@ == vertices_before(obj_meshes@, obj_meshes@.len() as int),
        data.indices@ == indices_before(obj_meshes@, obj_meshes@.len() as int),
        data.mesh@.vertex_buffer == vertex_buffer,
        data.mesh@.index_buffer == index_buffer,
        data.mesh@.index_count == data.indices@.len(),
        data.mesh@.index_format == IndexFormat::Uint32,
        data.mesh@.within_bounds(),
        data.mesh@.submeshes.len() == obj_meshes@.len(),
        forall|i: int|
            #![trigger data.mesh@.submeshes[i]]
            0 <= i < obj_meshes@.len() ==> {
                let submesh = data.mesh@.submeshes[i];
                let material = materials@[obj_meshes@[i].mesh.material_id->Some_0 as int];
                &&& submesh.index_range() == (Range {
                    start: indices_before(obj_meshes@, i).len() as u32,
                    end: indices_before(obj_meshes@, i + 1).len() as u32,
                })
                &&& submesh.vertex_offset() == vertices_before(obj_meshes@, i).len()
                &&& submesh.shader_vals().bind_group_spec() == bind_groups@[i]
                &&& submesh.shader_vals().values().material == PackedMaterialConstants::packed(
                    material,
                )
                &&& submesh.shader_vals().textures() == (
                    material.diffuse_map,
                    material.specular_map,
                    material.emissive_map,
                )
                &&& !submesh.shader_vals().dirty()
            },
{
    let mut vertices: Vec<Vertex> = Vec::new();
    let mut indices: Vec<u32> = Vec::new();
    let mut submeshes: Vec<Submesh> = Vec::new();

    let mut i: usize = 0;
    while i < obj_meshes.len()
        invariant
            0 <= i <= obj_meshes@.len(),
            bind_groups@.len() == obj_meshes@.len(),
            assemblable(obj_meshes@, materials@.len() as int),
            vertices@ == vertices_before(obj_meshes@, i as int),
            indices@ == indices_before(obj_meshes@, i as int),
            indices@.len() <= u32::MAX,
            submeshes@.len() == i,
            max_index_end(submeshes@) <= indices@.len(),
            forall|k: int|
                #![trigger submeshes@[k]]
                0 <= k < i ==> {
                    let submesh = submeshes@[k];
                    let material = materials@[obj_meshes@[k].mesh.material_id->Some_0 as int];
                    &&& submesh.index_range() == (Range {
                        start: indices_before(obj_meshes@, k).len() as u32,
                        end: indices_before(obj_meshes@, k + 1).len() as u32,
                    })
                    &&& submesh.vertex_offset() == vertices_before(obj_meshes@, k).len()
                    &&& submesh.shader_vals().bind_group_spec() == bind_groups@[k]
                    &&& submesh.shader_vals().values().material
                        == PackedMaterialConstants::packed(material)
                    &&& submesh.shader_vals().textures() == (
                        material.diffuse_map,
                        material.specular_map,
                        material.emissive_map,
                    )
                    &&& !submesh.shader_vals().dirty()
                },
        decreases obj_meshes@.len() - i,
    {
        assert(appendable(
            &obj_meshes@[i as int],
            vertices_before(obj_meshes@, i as int).len() as int,
            indices_before(obj_meshes@, i as int).len() as int,
            materials@.len() as int,
        ));
        let ghost before = submeshes@;
        let submesh = process_obj_mesh(
            &obj_meshes[i],
            &mut vertices,
            &mut indices,
            materials,
            bind_groups[i],
        );
        submeshes.push(submesh);
        proof {
            assert(submeshes@.drop_last() =~= before);
            assert(vertices@ == vertices_before(obj_meshes@, i + 1));
            assert(indices@ == indices_before(obj_meshes@, i + 1));
        }
        i += 1;
    }
    let index_count: u32 = indices.len() as u32;
    let mesh = Mesh::new(vertex_buffer, index_buffer, index_count, IndexFormat::Uint32, submeshes);
    MeshData { vertices, indices, mesh }
}

} // verus!
