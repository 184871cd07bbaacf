//! Meshes that the engine can construct without loading a model.
use vstd::prelude::*;
use crate::math::Scalar;
use crate::math::HALF;
use crate::math::NEG_HALF;
use crate::math::NEG_ONE;
use crate::math::ONE;
use crate::math::ZERO;
use crate::math::Vec2;
use crate::math::Vec3;
use crate::renderer::models::Vertex;

verus! {

/// A list of meshes that can be constructed by the engine without needing
/// to load a model externally.
#[derive(Clone, Copy, Debug, PartialEq, Eq, Structural)]
pub enum BuiltinMesh {
    Triangle,
    Rect,
    Pentagon,
    Cube,
}

/// A triangle in the plane `z = 0`, facing `+z`. Each row holds a position, a
/// normal and texture coordinates.
pub const TRIANGLE_VERTS: [[u32; 8]; 3] = [
    [ZERO, ONE, ZERO, ZERO, ZERO, ONE, HALF, ZERO],
    [NEG_ONE, NEG_ONE, ZERO, ZERO, ZERO, ONE, ZERO, ONE],
    [ONE, NEG_ONE, ZERO, ZERO, ZERO, ONE, ONE, ONE],
];

/// The triangles of `TRIANGLE_VERTS`, counter-clockwise.
pub const TRIANGLE_INDICES: [u16; 3] = [
    0, 1, 2,
];

/// A square in the plane `z = 0`, facing `+z`. Each row holds a position, a
/// normal and texture coordinates.
pub const RECT_VERTS: [[u32; 8]; 4] = [
    [ONE, ONE, ZERO, ZERO, ZERO, ONE, ONE, ZERO],
    [NEG_ONE, ONE, ZERO, ZERO, ZERO, ONE, ZERO, ZERO],
    [ONE, NEG_ONE, ZERO, ZERO, ZERO, ONE, ONE, ONE],
    [NEG_ONE, NEG_ONE, ZERO, ZERO, ZERO, ONE, ZERO, ONE],
];

/// The triangles of `RECT_VERTS`, counter-clockwise.
pub const RECT_INDICES: [u16; 6] = [
    0, 1, 2, 2, 1, 3,
];

/// A pentagon in the plane `z = 0`, facing `+z`. Each row holds a position, a
/// normal and texture coordinates.
pub const PENTAGON_VERTS: [[u32; 8]; 5] = [
    [0xbe31_d0d5, 0x3f7c_1c5c, ZERO, ZERO, ZERO, ONE, 0x3ed3_8bcb, 0x3f7e_0e2e],
    [0xbf7d_8236, 0x3e0e_835a, ZERO, ZERO, ZERO, ONE, 0x3b9f_7280, 0x3f11_d06b],
    [0xbee0_7229, 0xbf66_175f, ZERO, ZERO, ZERO, ONE, 0x3e8f_c6ec, 0x3d4f_4507],
    [0x3f38_26aa, 0xbf31_d51f, ZERO, ZERO, ZERO, ONE, 0x3f5c_1355, 0x3e1c_55c3],
    [0x3f62_08d8, 0x3ef0_5e9c, ZERO, ZERO, ZERO, ONE, 0x3f71_046c, 0x3f3c_17a7],
];

/// The triangles of `PENTAGON_VERTS`, counter-clockwise.
pub const PENTAGON_INDICES: [u16; 9] = [
    0, 1, 4, 1, 2, 4, 2, 3, 4,
];

/// A cube with edges of length one around the origin, six vertices to a face.
/// Each row holds a position, a normal and texture coordinates.
pub const CUBE_VERTS: [[u32; 8]; 36] = [
    [HALF, HALF, NEG_HALF, ZERO, ZERO, NEG_ONE, ONE, ONE],
    [HALF, NEG_HALF, NEG_HALF, ZERO, ZERO, NEG_ONE, ONE, ZERO],
    [NEG_HALF, NEG_HALF, NEG_HALF, ZERO, ZERO, NEG_ONE, ZERO, ZERO],
    [NEG_HALF, NEG_HALF, NEG_HALF, ZERO, ZERO, NEG_ONE, ZERO, ZERO],
    [NEG_HALF, HALF, NEG_HALF, ZERO, ZERO, NEG_ONE, ZERO, ONE],
    [HALF, HALF, NEG_HALF, ZERO, ZERO, NEG_ONE, ONE, ONE],
    [NEG_HALF, NEG_HALF, HALF, ZERO, ZERO, ONE, ZERO, ZERO],
    [HALF, NEG_HALF, HALF, ZERO, ZERO, ONE, ONE, ZERO],
    [HALF, HALF, HALF, ZERO, ZERO, ONE, ONE, ONE],
    [HALF, HALF, HALF, ZERO, ZERO, ONE, ONE, ONE],
    [NEG_HALF, HALF, HALF, ZERO, ZERO, ONE, ZERO, ONE],
    [NEG_HALF, NEG_HALF, HALF, ZERO, ZERO, ONE, ZERO, ZERO],
    [NEG_HALF, HALF, HALF, NEG_ONE, ZERO, ZERO, ONE, ZERO],
    [NEG_HALF, HALF, NEG_HALF, NEG_ONE, ZERO, ZERO, ONE, ONE],
    [NEG_HALF, NEG_HALF, NEG_HALF, NEG_ONE, ZERO, ZERO, ZERO, ONE],
    [NEG_HALF, NEG_HALF, NEG_HALF, NEG_ONE, ZERO, ZERO, ZERO, ONE],
    [NEG_HALF, NEG_HALF, HALF, NEG_ONE, ZERO, ZERO, ZERO, ZERO],
    [NEG_HALF, HALF, HALF, NEG_ONE, ZERO, ZERO, ONE, ZERO],
    [HALF, NEG_HALF, NEG_HALF, ONE, ZERO, ZERO, ZERO, ONE],
    [HALF, HALF, NEG_HALF, ONE, ZERO, ZERO, ONE, ONE],
    [HALF, HALF, HALF, ONE, ZERO, ZERO, ONE, ZERO],
    [HALF, HALF, HALF, ONE, ZERO, ZERO, ONE, ZERO],
    [HALF, NEG_HALF, HALF, ONE, ZERO, ZERO, ZERO, ZERO],
    [HALF, NEG_HALF, NEG_HALF, ONE, ZERO, ZERO, ZERO, ONE],
    [NEG_HALF, NEG_HALF, NEG_HALF, ZERO, NEG_ONE, ZERO, ZERO, ONE],
    [HALF, NEG_HALF, NEG_HALF, ZERO, NEG_ONE, ZERO, ONE, ONE],
    [HALF, NEG_HALF, HALF, ZERO, NEG_ONE, ZERO, ONE, ZERO],
    [HALF, NEG_HALF, HALF, ZERO, NEG_ONE, ZERO, ONE, ZERO],
    [NEG_HALF, NEG_HALF, HALF, ZERO, NEG_ONE, ZERO, ZERO, ZERO],
    [NEG_HALF, NEG_HALF, NEG_HALF, ZERO, NEG_ONE, ZERO, ZERO, ONE],
    [HALF, HALF, HALF, ZERO, ONE, ZERO, ONE, ZERO],
    [HALF, HALF, NEG_HALF, ZERO, ONE, ZERO, ONE, ONE],
    [NEG_HALF, HALF, NEG_HALF, ZERO, ONE, ZERO, ZERO, ONE],
    [NEG_HALF, HALF, NEG_HALF, ZERO, ONE, ZERO, ZERO, ONE],
    [NEG_HALF, HALF, HALF, ZERO, ONE, ZERO, ZERO, ZERO],
    [HALF, HALF, HALF, ZERO, ONE, ZERO, ONE, ZERO],
];

/// The triangles of `CUBE_VERTS`, counter-clockwise.
pub const CUBE_INDICES: [u16; 36] = [
    0, 1, 2, 3, 4, 5, 6, 7, 8, 9, 10, 11, 12, 13, 14, 15, 16, 17, 18, 19, 20, 21, 22, 23, 24,
    25, 26, 27, 28, 29, 30, 31, 32, 33, 34, 35,
];


/// The vertex that a row of a table holds: three scalars of position,
/// three of normal and two of texture coordinates, each by its bit
/// pattern.
pub open spec fn vertex_of(row: [u32; 8]) -> Vertex {
    Vertex {
        position: Vec3 {
            x: Scalar { bits: row[0] },
            y: Scalar { bits: row[1] },
            z: Scalar { bits: row[2] },
        },
        normal: Vec3 {
            x: Scalar { bits: row[3] },
            y: Scalar { bits: row[4] },
            z: Scalar { bits: row[5] },
        },
        tex_coords: Vec2 { x: Scalar { bits: row[6] }, y: Scalar { bits: row[7] } },
    }
}

/// The vertices of a builtin mesh, in order.
pub open spec fn builtin_vertices(mesh_type: BuiltinMesh) -> Seq<Vertex> {
    match mesh_type {
        BuiltinMesh::Triangle => Seq::new(3, |i: int| vertex_of(TRIANGLE_VERTS[i])),
        BuiltinMesh::Rect => Seq::new(4, |i: int| vertex_of(RECT_VERTS[i])),
        BuiltinMesh::Pentagon => Seq::new(5, |i: int| vertex_of(PENTAGON_VERTS[i])),
        BuiltinMesh::Cube => Seq::new(36, |i: int| vertex_of(CUBE_VERTS[i])),
    }
}

/// The indices of a builtin mesh, three to a triangle.
pub open spec fn builtin_indices(mesh_type: BuiltinMesh) -> Seq<u16> {
    match mesh_type {
        BuiltinMesh::Triangle => TRIANGLE_INDICES@,
        BuiltinMesh::Rect => RECT_INDICES@,
        BuiltinMesh::Pentagon => PENTAGON_INDICES@,
        BuiltinMesh::Cube => CUBE_INDICES@,
    }
}

fn vertex_from_row(row: &[u32; 8]) -> (v: Vertex)
    ensures
        v == vertex_of(*row),
{
    Vertex {
        position: Vec3::new(
            Scalar::from_bits(row[0]),
            Scalar::from_bits(row[1]),
            Scalar::from_bits(row[2]),
        ),
        normal: Vec3::new(
            Scalar::from_bits(row[3]),
            Scalar::from_bits(row[4]),
            Scalar::from_bits(row[5]),
        ),
        tex_coords: Vec2::new(Scalar::from_bits(row[6]), Scalar::from_bits(row[7])),
    }
}

fn vertices_from_rows<const N: usize>(rows: &[[u32; 8]; N]) -> (vertices: Vec<Vertex>)
    ensures
        vertices@ == Seq::new(N as nat, |i: int| vertex_of(rows[i])),
{
    let mut vertices: Vec<Vertex> = Vec::new();
    let mut i: usize = 0;
    while i < N
        invariant
            0 <= i <= N,
            vertices@ == Seq::new(i as nat, |k: int| vertex_of(rows[k])),
        decreases N - i,
    {
        vertices.push(vertex_from_row(&rows[i]));
        assert(vertices@ =~= Seq::new((i + 1) as nat, |k: int| vertex_of(rows[k])));
        i += 1;
    }
    vertices
}

fn indices_from_table<const N: usize>(table: &[u16; N]) -> (indices: Vec<u16>)
    ensures
        indices@ == table@,
{
    let mut indices: Vec<u16> = Vec::new();
    let mut i: usize = 0;
    while i < N
        invariant
            0 <= i <= N,
            indices@ == table@.take(i as int),
        decreases N - i,
    {
        indices.push(table[i]);
        assert(indices@ =~= table@.take(i + 1));
        i += 1;
    }
    assert(table@.take(N as int) =~= table@);
    indices
}

/// Gets a builtin mesh for use in rendering: its vertices and its
/// indices. All builtin meshes are unit sized, meaning the vertices in the
/// mesh range from -1 to 1 on the XYZ axis.
pub fn builtin_mesh(mesh_type: BuiltinMesh) -> (mesh: (Vec<Vertex>, Vec<u16>))
    ensures
        mesh.0@ == builtin_vertices(mesh_type),
        mesh.1@ == builtin_indices(mesh_type),
{
    match mesh_type {
        BuiltinMesh::Triangle => (
            vertices_from_rows(&TRIANGLE_VERTS),
            indices_from_table(&TRIANGLE_INDICES),
        ),
        BuiltinMesh::Rect => (vertices_from_rows(&RECT_VERTS), indices_from_table(&RECT_INDICES)),
        BuiltinMesh::Pentagon => (
            vertices_from_rows(&PENTAGON_VERTS),
            indices_from_table(&PENTAGON_INDICES),
        ),
        BuiltinMesh::Cube => (vertices_from_rows(&CUBE_VERTS), indices_from_table(&CUBE_INDICES)),
    }
}

/// Every index of `TRIANGLE_INDICES` names a row of `TRIANGLE_VERTS`.
pub proof fn lemma_triangle_indices_in_range()
    ensures
        forall|i: int| 0 <= i < 3 ==> (#[trigger] TRIANGLE_INDICES[i]) < 3,
{
    assert forall|i: int| 0 <= i < 3 implies (#[trigger] TRIANGLE_INDICES[i]) < 3 by {
        if i == 0 {
            assert(TRIANGLE_INDICES[0] < 3);
        }
        if i == 1 {
            assert(TRIANGLE_INDICES[1] < 3);
        }
        if i == 2 {
            assert(TRIANGLE_INDICES[2] < 3);
        }
    }
}

/// Every index of `RECT_INDICES` names a row of `RECT_VERTS`.
pub proof fn lemma_rect_indices_in_range()
    ensures
        forall|i: int| 0 <= i < 6 ==> (#[trigger] RECT_INDICES[i]) < 4,
{
    assert forall|i: int| 0 <= i < 6 implies (#[trigger] RECT_INDICES[i]) < 4 by {
        if i == 0 {
            assert(RECT_INDICES[0] < 4);
        }
        if i == 1 {
            assert(RECT_INDICES[1] < 4);
        }
        if i == 2 {
            assert(RECT_INDICES[2] < 4);
        }
        if i == 3 {
            assert(RECT_INDICES[3] < 4);
        }
        if i == 4 {
            assert(RECT_INDICES[4] < 4);
        }
        if i == 5 {
            assert(RECT_INDICES[5] < 4);
        }
    }
}

/// Every index of `PENTAGON_INDICES` names a row of `PENTAGON_VERTS`.
pub proof fn lemma_pentagon_indices_in_range()
    ensures
        forall|i: int| 0 <= i < 9 ==> (#[trigger] PENTAGON_INDICES[i]) < 5,
{
    assert forall|i: int| 0 <= i < 9 implies (#[trigger] PENTAGON_INDICES[i]) < 5 by {
        if i == 0 {
            assert(PENTAGON_INDICES[0] < 5);
        }
        if i == 1 {
            assert(PENTAGON_INDICES[1] < 5);
        }
        if i == 2 {
            assert(PENTAGON_INDICES[2] < 5);
        }
        if i == 3 {
            assert(PENTAGON_INDICES[3] < 5);
        }
        if i == 4 {
            assert(PENTAGON_INDICES[4] < 5);
        }
        if i == 5 {
            assert(PENTAGON_INDICES[5] < 5);
        }
        if i == 6 {
            assert(PENTAGON_INDICES[6] < 5);
        }
        if i == 7 {
            assert(PENTAGON_INDICES[7] < 5);
        }
        if i == 8 {
            assert(PENTAGON_INDICES[8] < 5);
        }
    }
}

/// Every index of `CUBE_INDICES` names a row of `CUBE_VERTS`.
pub proof fn lemma_cube_indices_in_range()
    ensures
        forall|i: int| 0 <= i < 36 ==> (#[trigger] CUBE_INDICES[i]) < 36,
{
    assert forall|i: int| 0 <= i < 36 implies (#[trigger] CUBE_INDICES[i]) < 36 by {
        if i == 0 {
            assert(CUBE_INDICES[0] < 36);
        }
        if i == 1 {
            assert(CUBE_INDICES[1] < 36);
        }
        if i == 2 {
            assert(CUBE_INDICES[2] < 36);
        }
        if i == 3 {
            assert(CUBE_INDICES[3] < 36);
        }
        if i == 4 {
            assert(CUBE_INDICES[4] < 36);
        }
        if i == 5 {
            assert(CUBE_INDICES[5] < 36);
        }
        if i == 6 {
            assert(CUBE_INDICES[6] < 36);
        }
        if i == 7 {
            assert(CUBE_INDICES[7] < 36);
        }
        if i == 8 {
            assert(CUBE_INDICES[8] < 36);
        }
        if i == 9 {
            assert(CUBE_INDICES[9] < 36);
        }
        if i == 10 {
            assert(CUBE_INDICES[10] < 36);
        }
        if i == 11 {
            assert(CUBE_INDICES[11] < 36);
        }
        if i == 12 {
            assert(CUBE_INDICES[12] < 36);
        }
        if i == 13 {
            assert(CUBE_INDICES[13] < 36);
        }
        if i == 14 {
            assert(CUBE_INDICES[14] < 36);
        }
        if i == 15 {
            assert(CUBE_INDICES[15] < 36);
        }
        if i == 16 {
            assert(CUBE_INDICES[16] < 36);
        }
        if i == 17 {
            assert(CUBE_INDICES[17] < 36);
        }
        if i == 18 {
            assert(CUBE_INDICES[18] < 36);
        }
        if i == 19 {
            assert(CUBE_INDICES[19] < 36);
        }
        if i == 20 {
            assert(CUBE_INDICES[20] < 36);
        }
        if i == 21 {
            assert(CUBE_INDICES[21] < 36);
        }
        if i == 22 {
            assert(CUBE_INDICES[22] < 36);
        }
        if i == 23 {
            assert(CUBE_INDICES[23] < 36);
        }
        if i == 24 {
            assert(CUBE_INDICES[24] < 36);
        }
        if i == 25 {
            assert(CUBE_INDICES[25] < 36);
        }
        if i == 26 {
            assert(CUBE_INDICES[26] < 36);
        }
        if i == 27 {
            assert(CUBE_INDICES[27] < 36);
        }
        if i == 28 {
            assert(CUBE_INDICES[28] < 36);
        }
        if i == 29 {
            assert(CUBE_INDICES[29] < 36);
        }
        if i == 30 {
            assert(CUBE_INDICES[30] < 36);
        }
        if i == 31 {
            assert(CUBE_INDICES[31] < 36);
        }
        if i == 32 {
            assert(CUBE_INDICES[32] < 36);
        }
        if i == 33 {
            assert(CUBE_INDICES[33] < 36);
        }
        if i == 34 {
            assert(CUBE_INDICES[34] < 36);
        }
        if i == 35 {
            assert(CUBE_INDICES[35] < 36);
        }
    }
}

/// A builtin mesh is made of whole triangles, and each of its indices
/// names one of its vertices.
pub proof fn lemma_builtin_mesh_is_indexed(mesh_type: BuiltinMesh)
    ensures
        builtin_indices(mesh_type).len() % 3 == 0,
        forall|i: int|
            0 <= i < builtin_indices(mesh_type).len() ==> (#[trigger] builtin_indices(
                mesh_type,
            )[i]) < builtin_vertices(mesh_type).len(),
{
    lemma_triangle_indices_in_range();
    lemma_rect_indices_in_range();
    lemma_pentagon_indices_in_range();
    lemma_cube_indices_in_range();
}

} // verus!
