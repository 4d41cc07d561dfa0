use vstd::prelude::*;

use crate::encode::u32_le_bytes;

verus! {

/// Distance in bytes between consecutive vertices in the vertex blob.
pub const VERTEX_STRIDE_BYTES: u64 = 24;

/// Byte offset of the position attribute inside one vertex.
pub const POSITION_OFFSET_BYTES: u64 = 0;

/// Byte offset of the colour attribute inside one vertex.
pub const COLOUR_OFFSET_BYTES: u64 = 12;

/// One vertex as the graphics pipeline consumes it: a position and a colour,
/// each three 32-bit floats, tightly packed with no padding.  Every component
/// is carried as the IEEE-754 bit pattern of the float the shader reads.
#[derive(Clone, Copy, Debug, PartialEq)]
pub struct Vertex {
    pub position: [u32; 3],
    pub colour: [u32; 3],
}

/// The 24 bytes of one vertex as the GPU reads them: the three position
/// components, then the three colour components, each little-endian.
pub open spec fn vertex_le_bytes(v: Vertex) -> Seq<u8> {
    u32_le_bytes(v.position@[0]) + u32_le_bytes(v.position@[1]) + u32_le_bytes(v.position@[2])
        + u32_le_bytes(v.colour@[0]) + u32_le_bytes(v.colour@[1]) + u32_le_bytes(v.colour@[2])
}

/// The per-vertex attribute layout contract handed to the pipeline: where
/// each attribute starts, which shader slot it feeds, and how far apart
/// consecutive vertices sit.  Both attributes are three 32-bit floats,
/// advanced once per vertex.
pub struct VertexLayout {
    pub array_stride: u64,
    pub position_offset: u64,
    pub position_shader_location: u32,
    pub colour_offset: u64,
    pub colour_shader_location: u32,
}

impl Vertex {
    /// The attribute layout that matches `vertex_le_bytes`: position at
    /// offset 0 feeding shader slot 0, colour at offset 12 feeding shader
    /// slot 1, stride 24.
    pub fn describe() -> (l: VertexLayout)
        ensures
            l.array_stride == VERTEX_STRIDE_BYTES,
            l.position_offset == POSITION_OFFSET_BYTES,
            l.position_shader_location == 0,
            l.colour_offset == COLOUR_OFFSET_BYTES,
            l.colour_shader_location == 1,
    {
        VertexLayout {
            array_stride: VERTEX_STRIDE_BYTES,
            position_offset: POSITION_OFFSET_BYTES,
            position_shader_location: 0,
            colour_offset: COLOUR_OFFSET_BYTES,
            colour_shader_location: 1,
        }
    }
}

/// The layout constants describe the byte blob exactly: one vertex fills one
/// stride, its position bytes start at the position offset and its colour
/// bytes at the colour offset.
pub proof fn lemma_vertex_layout_matches_bytes(v: Vertex)
    ensures
        vertex_le_bytes(v).len() == VERTEX_STRIDE_BYTES,
        vertex_le_bytes(v).subrange(
            POSITION_OFFSET_BYTES as int,
            POSITION_OFFSET_BYTES as int + 12,
        ) == u32_le_bytes(v.position@[0]) + u32_le_bytes(v.position@[1]) + u32_le_bytes(
            v.position@[2],
        ),
        vertex_le_bytes(v).subrange(COLOUR_OFFSET_BYTES as int, COLOUR_OFFSET_BYTES as int + 12)
            == u32_le_bytes(v.colour@[0]) + u32_le_bytes(v.colour@[1]) + u32_le_bytes(v.colour@[2]),
{
    assert(vertex_le_bytes(v).subrange(POSITION_OFFSET_BYTES as int, POSITION_OFFSET_BYTES as int + 12)
        =~= u32_le_bytes(v.position@[0]) + u32_le_bytes(v.position@[1]) + u32_le_bytes(v.position@[2]));
    assert(vertex_le_bytes(v).subrange(COLOUR_OFFSET_BYTES as int, COLOUR_OFFSET_BYTES as int + 12)
        =~= u32_le_bytes(v.colour@[0]) + u32_le_bytes(v.colour@[1]) + u32_le_bytes(v.colour@[2]));
}

} // verus!
