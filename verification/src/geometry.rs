//! The static geometry resource: a one-time-uploaded vertex buffer,
//! immutable after creation.
//!
//! A vertex is three position lanes and four color lanes, each a 32-bit
//! value carried by its bit pattern; on the wire a vertex is its seven
//! lanes in order, each in little-endian byte order, 28 bytes in all.
//! The upload maps a CPU-writable buffer, performs a byte-exact copy of
//! the vertex array, and unmaps it; the contract pins the mapped bytes
//! down to [`vertices_bytes`] exactly.

use vstd::prelude::*;
use crate::error::RenderError;

verus! {

/// Size of one vertex on the wire: seven 32-bit lanes.
pub const VERTEX_STRIDE: u32 = 28;

/// One vertex: a position (three lanes) and a color (four lanes). Each
/// lane holds the bit pattern of the 32-bit value the pipeline consumes.
#[derive(Clone, Copy, PartialEq, Eq, Structural, Debug)]
pub struct Vertex {
    /// Bit pattern of the position's first lane.
    pub position_x_bits: u32,
    /// Bit pattern of the position's second lane.
    pub position_y_bits: u32,
    /// Bit pattern of the position's third lane.
    pub position_z_bits: u32,
    /// Bit pattern of the color's red lane.
    pub color_r_bits: u32,
    /// Bit pattern of the color's green lane.
    pub color_g_bits: u32,
    /// Bit pattern of the color's blue lane.
    pub color_b_bits: u32,
    /// Bit pattern of the color's alpha lane.
    pub color_a_bits: u32,
}

/// The four bytes of a 32-bit lane, least significant first.
pub open spec fn le_bytes_u32(x: u32) -> Seq<u8> {
    seq![
        (x & 0xff) as u8,
        ((x >> 8) & 0xff) as u8,
        ((x >> 16) & 0xff) as u8,
        ((x >> 24) & 0xff) as u8,
    ]
}

/// The 28 bytes of one vertex: its seven lanes in order.
pub open spec fn vertex_bytes(v: Vertex) -> Seq<u8> {
    le_bytes_u32(v.position_x_bits) + le_bytes_u32(v.position_y_bits) + le_bytes_u32(
        v.position_z_bits,
    ) + le_bytes_u32(v.color_r_bits) + le_bytes_u32(v.color_g_bits) + le_bytes_u32(v.color_b_bits)
        + le_bytes_u32(v.color_a_bits)
}

/// The bytes of a whole vertex array, vertices in order.
pub open spec fn vertices_bytes(vs: Seq<Vertex>) -> Seq<u8>
    decreases vs.len(),
{
    if vs.len() == 0 {
        Seq::empty()
    } else {
        vertices_bytes(vs.drop_last()) + vertex_bytes(vs.last())
    }
}

/// Extending the array by one vertex appends that vertex's bytes.
proof fn lemma_vertices_bytes_snoc(vs: Seq<Vertex>, i: int)
    requires
        0 <= i < vs.len(),
    ensures
        vertices_bytes(vs.take(i + 1)) == vertices_bytes(vs.take(i)) + vertex_bytes(vs[i]),
{
    assert(vs.take(i + 1).drop_last() =~= vs.take(i));
    assert(vs.take(i + 1).last() == vs[i]);
}

/// The byte image of a vertex array is [`VERTEX_STRIDE`] bytes per vertex.
proof fn lemma_vertices_bytes_len(vs: Seq<Vertex>)
    ensures
        vertices_bytes(vs).len() == VERTEX_STRIDE * vs.len(),
    decreases vs.len(),
{
    if vs.len() > 0 {
        lemma_vertices_bytes_len(vs.drop_last());
    }
}

/// How the input assembler reads the uploaded buffer: the stride between
/// vertices and the total size, both in bytes.
#[derive(Clone, Copy, PartialEq, Eq, Structural, Debug)]
pub struct VertexBufferView {
    /// Distance in bytes from one vertex to the next.
    pub stride_in_bytes: u32,
    /// Total size in bytes of the vertex data.
    pub size_in_bytes: u32,
}

/// The uploaded geometry: the buffer's mapped contents and the view the
/// input assembler binds. Immutable after creation; shared read-only
/// between CPU setup and GPU draw, so no synchronization is needed
/// after the upload.
pub struct VertexBuffer {
    /// The CPU-visible contents of the upload buffer, byte for byte.
    pub data: Vec<u8>,
    /// The view describing the buffer to the input assembler.
    pub vbv: VertexBufferView,
}

impl VertexBuffer {
    /// The view agrees with the mapped contents.
    pub open spec fn wf(self) -> bool {
        &&& self.vbv.stride_in_bytes == VERTEX_STRIDE
        &&& self.vbv.size_in_bytes == self.data@.len()
    }

    /// Read back the mapped region, byte for byte.
    pub fn mapped_bytes(&self) -> (r: &Vec<u8>)
        ensures
            r@ == self.data@,
    {
        &self.data
    }
}

/// Append the four little-endian bytes of one 32-bit lane.
fn push_u32_le(data: &mut Vec<u8>, x: u32)
    ensures
        final(data)@ == old(data)@ + le_bytes_u32(x),
{
    data.push((x & 0xff) as u8);
    data.push(((x >> 8) & 0xff) as u8);
    data.push(((x >> 16) & 0xff) as u8);
    data.push(((x >> 24) & 0xff) as u8);
    assert(data@ =~= old(data)@ + le_bytes_u32(x));
}

/// Allocate a CPU-writable, GPU-readable buffer sized to the vertex
/// array, map it, copy the vertices byte for byte, and unmap it.
///
/// Allocation fails — with `AllocationError` and nothing else — exactly
/// when the buffer cannot be created: for an empty array (a zero-sized
/// buffer is not allocatable) or when the byte size overflows the
/// 32-bit size the input-assembler view carries.
pub fn create_vertex_buffer(vertices: &Vec<Vertex>) -> (r: Result<VertexBuffer, RenderError>)
    ensures
        match r {
            Ok(b) => {
                &&& 0 < vertices@.len()
                &&& VERTEX_STRIDE * vertices@.len() <= u32::MAX
                &&& b.data@ == vertices_bytes(vertices@)
                &&& b.vbv.stride_in_bytes == VERTEX_STRIDE
                &&& b.vbv.size_in_bytes == VERTEX_STRIDE * vertices@.len()
                &&& b.wf()
            },
            Err(e) => {
                &&& e == RenderError::AllocationError
                &&& (vertices@.len() == 0 || VERTEX_STRIDE * vertices@.len() > u32::MAX)
            },
        },
{
    let len = vertices.len();
    if len == 0 {
        return Err(RenderError::AllocationError);
    }
    if len > (u32::MAX / VERTEX_STRIDE) as usize {
        proof {
            assert(VERTEX_STRIDE * vertices@.len() > u32::MAX) by (nonlinear_arith)
                requires
                    vertices@.len() > u32::MAX as int / VERTEX_STRIDE as int,
                    VERTEX_STRIDE == 28,
            ;
        }
        return Err(RenderError::AllocationError);
    }
    let size: u32 = (len as u32) * VERTEX_STRIDE;
    proof {
        assert((len as u32) * VERTEX_STRIDE <= u32::MAX && size == VERTEX_STRIDE * vertices@.len())
            by (nonlinear_arith)
            requires
                len == vertices@.len(),
                len <= u32::MAX as int / VERTEX_STRIDE as int,
                VERTEX_STRIDE == 28,
                size == (len as u32) * VERTEX_STRIDE,
        ;
    }
    let mut data: Vec<u8> = Vec::new();
    let mut i: usize = 0;
    while i < len
        invariant
            i <= len,
            len == vertices@.len(),
            data@ == vertices_bytes(vertices@.take(i as int)),
        decreases len - i,
    {
        let v = vertices[i];
        push_u32_le(&mut data, v.position_x_bits);
        push_u32_le(&mut data, v.position_y_bits);
        push_u32_le(&mut data, v.position_z_bits);
        push_u32_le(&mut data, v.color_r_bits);
        push_u32_le(&mut data, v.color_g_bits);
        push_u32_le(&mut data, v.color_b_bits);
        push_u32_le(&mut data, v.color_a_bits);
        proof {
            lemma_vertices_bytes_snoc(vertices@, i as int);
            assert(data@ =~= vertices_bytes(vertices@.take(i as int)) + vertex_bytes(
                vertices@[i as int],
            ));
        }
        i = i + 1;
    }
    proof {
        assert(vertices@.take(len as int) =~= vertices@);
        lemma_vertices_bytes_len(vertices@);
    }
    Ok(
        VertexBuffer {
            data,
            vbv: VertexBufferView { stride_in_bytes: VERTEX_STRIDE, size_in_bytes: size },
        },
    )
}

} // verus!
