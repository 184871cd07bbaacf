//! State that helps when debugging the renderer.
use vstd::prelude::*;
use crate::input::KeyCode;
use crate::input::WindowEvent;
use crate::math::Scalar;
use crate::math::HALF;
use crate::math::NEG_HALF;
use crate::math::NEG_ONE;
use crate::math::ONE;
use crate::math::ZERO;
use crate::math::Vec2;
use crate::math::Vec3;

verus! {

/// Configurable state useful when debugging/testing the renderer.
#[derive(Clone, Copy, Debug, PartialEq, Eq, Structural)]
pub struct DebugState {
    /// Whether a frame ends with a pass that shows the depth buffer.
    pub visualize_depth_pass: bool,
}

impl Default for DebugState {
    fn default() -> (state: DebugState)
        ensures
            !state.visualize_depth_pass,
    {
        DebugState { visualize_depth_pass: false }
    }
}

impl DebugState {
    /// Releasing the Z key switches the depth visualization on or off; no
    /// other event changes anything.
    pub fn process_input(&mut self, event: &WindowEvent)
        ensures
            final(self).visualize_depth_pass == (old(self).visualize_depth_pass
                != event.is_release_of(KeyCode::KeyZ)),
    {
        if event.releases(KeyCode::KeyZ) {
            self.visualize_depth_pass = !self.visualize_depth_pass;
        }
    }
}

/// A lightweight vertex used for drawing cubes, quads and other primitive
/// shapes to the screen.
///
/// A debug vertex only has position and a single set of texture
/// coordinates.
#[derive(Clone, Copy, Debug, PartialEq, Eq, Structural)]
pub struct DebugVertex {
    pub position: Vec3,
    pub tex_coords: Vec2,
}

/// Vertices for a full screen quad in CCW order. Each row holds a position
/// and texture coordinates.
pub const QUAD_VERTS: [[u32; 5]; 4] = [
    [ONE, ONE, ZERO, ONE, ZERO],
    [NEG_ONE, ONE, ZERO, ZERO, ZERO],
    [ONE, NEG_ONE, ZERO, ONE, ONE],
    [NEG_ONE, NEG_ONE, ZERO, ZERO, ONE],
];

/// Indices for a full screen quad in CCW order.
pub const QUAD_INDICES: [u16; 6] = [
    0, 1, 2, 2, 1, 3,
];

/// Vertices for a simple cube mesh that ranges from -0.5 to 0.5 in all
/// dimensions. Each row holds a position and texture coordinates.
pub const CUBE_VERTS: [[u32; 5]; 36] = [
    [HALF, HALF, NEG_HALF, ONE, ONE],
    [HALF, NEG_HALF, NEG_HALF, ONE, ZERO],
    [NEG_HALF, NEG_HALF, NEG_HALF, ZERO, ZERO],
    [NEG_HALF, NEG_HALF, NEG_HALF, ZERO, ZERO],
    [NEG_HALF, HALF, NEG_HALF, ZERO, ONE],
    [HALF, HALF, NEG_HALF, ONE, ONE],
    [NEG_HALF, NEG_HALF, HALF, ZERO, ZERO],
    [HALF, NEG_HALF, HALF, ONE, ZERO],
    [HALF, HALF, HALF, ONE, ONE],
    [HALF, HALF, HALF, ONE, ONE],
    [NEG_HALF, HALF, HALF, ZERO, ONE],
    [NEG_HALF, NEG_HALF, HALF, ZERO, ZERO],
    [NEG_HALF, HALF, HALF, ONE, ZERO],
    [NEG_HALF, HALF, NEG_HALF, ONE, ONE],
    [NEG_HALF, NEG_HALF, NEG_HALF, ZERO, ONE],
    [NEG_HALF, NEG_HALF, NEG_HALF, ZERO, ONE],
    [NEG_HALF, NEG_HALF, HALF, ZERO, ZERO],
    [NEG_HALF, HALF, HALF, ONE, ZERO],
    [HALF, NEG_HALF, NEG_HALF, ZERO, ONE],
    [HALF, HALF, NEG_HALF, ONE, ONE],
    [HALF, HALF, HALF, ONE, ZERO],
    [HALF, HALF, HALF, ONE, ZERO],
    [HALF, NEG_HALF, HALF, ZERO, ZERO],
    [HALF, NEG_HALF, NEG_HALF, ZERO, ONE],
    [NEG_HALF, NEG_HALF, NEG_HALF, ZERO, ONE],
    [HALF, NEG_HALF, NEG_HALF, ONE, ONE],
    [HALF, NEG_HALF, HALF, ONE, ZERO],
    [HALF, NEG_HALF, HALF, ONE, ZERO],
    [NEG_HALF, NEG_HALF, HALF, ZERO, ZERO],
    [NEG_HALF, NEG_HALF, NEG_HALF, ZERO, ONE],
    [HALF, HALF, HALF, ONE, ZERO],
    [HALF, HALF, NEG_HALF, ONE, ONE],
    [NEG_HALF, HALF, NEG_HALF, ZERO, ONE],
    [NEG_HALF, HALF, NEG_HALF, ZERO, ONE],
    [NEG_HALF, HALF, HALF, ZERO, ZERO],
    [HALF, HALF, HALF, ONE, ZERO],
];

/// Indices for the simple cube mesh.
pub const CUBE_INDICES: [u16; 36] = [
    0, 1, 2, 3, 4, 5, 6, 7, 8, 9, 10, 11, 12, 13, 14, 15, 16, 17, 18, 19, 20, 21, 22, 23, 24,
    25, 26, 27, 28, 29, 30, 31, 32, 33, 34, 35,
];


/// The vertex that a row of a table holds: three scalars of position and
/// two of texture coordinates, each by its bit pattern.
pub open spec fn debug_vertex_of(row: [u32; 5]) -> DebugVertex {
    DebugVertex {
        position: Vec3 {
            x: Scalar { bits: row[0] },
            y: Scalar { bits: row[1] },
            z: Scalar { bits: row[2] },
        },
        tex_coords: Vec2 { x: Scalar { bits: row[3] }, y: Scalar { bits: row[4] } },
    }
}

fn debug_vertices_from_rows<const N: usize>(rows: &[[u32; 5]; N]) -> (vertices: Vec<DebugVertex>)
    ensures
        vertices@ == Seq::new(N as nat, |i: int| debug_vertex_of(rows[i])),
{
    let mut vertices: Vec<DebugVertex> = Vec::new();
    let mut i: usize = 0;
    while i < N
        invariant
            0 <= i <= N,
            vertices@ == Seq::new(i as nat, |k: int| debug_vertex_of(rows[k])),
        decreases N - i,
    {
        let row = &rows[i];
        vertices.push(
            DebugVertex {
                position: Vec3::new(
                    Scalar::from_bits(row[0]),
                    Scalar::from_bits(row[1]),
                    Scalar::from_bits(row[2]),
                ),
                tex_coords: Vec2::new(Scalar::from_bits(row[3]), Scalar::from_bits(row[4])),
            },
        );
        assert(vertices@ =~= Seq::new((i + 1) as nat, |k: int| debug_vertex_of(rows[k])));
        i += 1;
    }
    vertices
}

fn debug_indices_from_table<const N: usize>(table: &[u16; N]) -> (indices: Vec<u16>)
    ensures
        indices@ == table@,
{
    let mut indices: Vec<u16> = Vec::new();
    let mut i: usize = 0;
    while i < N
        invariant
            0 <= i <= N,
            indices@ == table@.take(i as int),
        decreases N - i,
    {
        indices.push(table[i]);
        assert(indices@ =~= table@.take(i + 1));
        i += 1;
    }
    assert(table@.take(N as int) =~= table@);
    indices
}

/// The indices of the full screen quad.
pub fn quad_indices() -> (indices: Vec<u16>)
    ensures
        indices@ == QUAD_INDICES@,
        indices@.len() == crate::renderer::passes::depth_pass::QUAD_INDEX_COUNT,
{
    debug_indices_from_table(&QUAD_INDICES)
}

/// The indices of the simple cube mesh.
pub fn cube_indices() -> (indices: Vec<u16>)
    ensures
        indices@ == CUBE_INDICES@,
        indices@.len() == crate::renderer::passes::light_debug_pass::CUBE_INDEX_COUNT,
{
    debug_indices_from_table(&CUBE_INDICES)
}

/// The vertices of the full screen quad.
pub fn quad_vertices() -> (vertices: Vec<DebugVertex>)
    ensures
        vertices@ == Seq::new(4, |i: int| debug_vertex_of(QUAD_VERTS[i])),
{
    debug_vertices_from_rows(&QUAD_VERTS)
}

/// The vertices of the simple cube mesh.
pub fn cube_vertices() -> (vertices: Vec<DebugVertex>)
    ensures
        vertices@ == Seq::new(36, |i: int| debug_vertex_of(CUBE_VERTS[i])),
{
    debug_vertices_from_rows(&CUBE_VERTS)
}

/// Every index of `QUAD_INDICES` names a row of `QUAD_VERTS`.
pub proof fn lemma_quad_indices_in_range()
    ensures
        forall|i: int| 0 <= i < 6 ==> (#[trigger] QUAD_INDICES[i]) < 4,
{
    assert forall|i: int| 0 <= i < 6 implies (#[trigger] QUAD_INDICES[i]) < 4 by {
        if i == 0 {
            assert(QUAD_INDICES[0] < 4);
        }
        if i == 1 {
            assert(QUAD_INDICES[1] < 4);
        }
        if i == 2 {
            assert(QUAD_INDICES[2] < 4);
        }
        if i == 3 {
            assert(QUAD_INDICES[3] < 4);
        }
        if i == 4 {
            assert(QUAD_INDICES[4] < 4);
        }
        if i == 5 {
            assert(QUAD_INDICES[5] < 4);
        }
    }
}

/// Every index of `CUBE_INDICES` names a row of `CUBE_VERTS`.
pub proof fn lemma_debug_cube_indices_in_range()
    ensures
        forall|i: int| 0 <= i < 36 ==> (#[trigger] CUBE_INDICES[i]) < 36,
{
    assert forall|i: int| 0 <= i < 36 implies (#[trigger] CUBE_INDICES[i]) < 36 by {
        if i == 0 {
            assert(CUBE_INDICES[0] < 36);
        }
        if i == 1 {
            assert(CUBE_INDICES[1] < 36);
        }
        if i == 2 {
            assert(CUBE_INDICES[2] < 36);
        }
        if i == 3 {
            assert(CUBE_INDICES[3] < 36);
        }
        if i == 4 {
            assert(CUBE_INDICES[4] < 36);
        }
        if i == 5 {
            assert(CUBE_INDICES[5] < 36);
        }
        if i == 6 {
            assert(CUBE_INDICES[6] < 36);
        }
        if i == 7 {
            assert(CUBE_INDICES[7] < 36);
        }
        if i == 8 {
            assert(CUBE_INDICES[8] < 36);
        }
        if i == 9 {
            assert(CUBE_INDICES[9] < 36);
        }
        if i == 10 {
            assert(CUBE_INDICES[10] < 36);
        }
        if i == 11 {
            assert(CUBE_INDICES[11] < 36);
        }
        if i == 12 {
            assert(CUBE_INDICES[12] < 36);
        }
        if i == 13 {
            assert(CUBE_INDICES[13] < 36);
        }
        if i == 14 {
            assert(CUBE_INDICES[14] < 36);
        }
        if i == 15 {
            assert(CUBE_INDICES[15] < 36);
        }
        if i == 16 {
            assert(CUBE_INDICES[16] < 36);
        }
        if i == 17 {
            assert(CUBE_INDICES[17] < 36);
        }
        if i == 18 {
            assert(CUBE_INDICES[18] < 36);
        }
        if i == 19 {
            assert(CUBE_INDICES[19] < 36);
        }
        if i == 20 {
            assert(CUBE_INDICES[20] < 36);
        }
        if i == 21 {
            assert(CUBE_INDICES[21] < 36);
        }
        if i == 22 {
            assert(CUBE_INDICES[22] < 36);
        }
        if i == 23 {
            assert(CUBE_INDICES[23] < 36);
        }
        if i == 24 {
            assert(CUBE_INDICES[24] < 36);
        }
        if i == 25 {
            assert(CUBE_INDICES[25] < 36);
        }
        if i == 26 {
            assert(CUBE_INDICES[26] < 36);
        }
        if i == 27 {
            assert(CUBE_INDICES[27] < 36);
        }
        if i == 28 {
            assert(CUBE_INDICES[28] < 36);
        }
        if i == 29 {
            assert(CUBE_INDICES[29] < 36);
        }
        if i == 30 {
            assert(CUBE_INDICES[30] < 36);
        }
        if i == 31 {
            assert(CUBE_INDICES[31] < 36);
        }
        if i == 32 {
            assert(CUBE_INDICES[32] < 36);
        }
        if i == 33 {
            assert(CUBE_INDICES[33] < 36);
        }
        if i == 34 {
            assert(CUBE_INDICES[34] < 36);
        }
        if i == 35 {
            assert(CUBE_INDICES[35] < 36);
        }
    }
}

} // verus!
