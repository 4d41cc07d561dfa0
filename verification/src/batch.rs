use vstd::prelude::*;

use crate::encode::{push_u16_le, push_u32_le, u16_le_bytes};
use crate::square::{is_quad_vertices, Square};
use crate::vertex::{vertex_le_bytes, Vertex};

verus! {

/// The most quads one batch may hold: with four vertices per quad, the
/// largest count whose vertex indices still fit the 16-bit index format.
pub const MAX_BATCH_ITEMS: u32 = 16384;

/// The vertex blob for a vertex list: every vertex's 24 bytes, in order.
pub open spec fn vertices_le_bytes(vs: Seq<Vertex>) -> Seq<u8>
    decreases vs.len(),
{
    if vs.len() == 0 {
        Seq::empty()
    } else {
        vertices_le_bytes(vs.drop_last()) + vertex_le_bytes(vs.last())
    }
}

/// The six indices that draw quad `i` as two triangles over its four
/// vertices, in the fixed pattern (0, 1, 2, 3, 2, 1) from the quad's first
/// vertex.  Quads are offset by the four vertices each contributes, so no
/// two quads of a batch reference the same vertex.
pub open spec fn quad_indices(i: int) -> Seq<u16> {
    seq![
        (4 * i) as u16,
        (4 * i + 1) as u16,
        (4 * i + 2) as u16,
        (4 * i + 3) as u16,
        (4 * i + 2) as u16,
        (4 * i + 1) as u16,
    ]
}

/// The full index list for a batch of `k` quads: the six indices of each
/// quad, in quad order.
pub open spec fn batch_indices(k: int) -> Seq<u16>
    decreases k,
{
    if k <= 0 {
        Seq::empty()
    } else {
        batch_indices(k - 1) + quad_indices(k - 1)
    }
}

/// The index blob for an index list: every index's two bytes, in order.
pub open spec fn indices_le_bytes(is: Seq<u16>) -> Seq<u8>
    decreases is.len(),
{
    if is.len() == 0 {
        Seq::empty()
    } else {
        indices_le_bytes(is.drop_last()) + u16_le_bytes(is.last())
    }
}

/// A bounded group of quad geometry packaged into one pair of GPU-ready byte
/// blobs, drawn with one draw call.  The blobs are derived state: they are
/// rebuilt in full from the vertex list on every mutation, never patched.
/// The capacity bound is the renderer's to enforce; the batch itself only
/// requires it of its callers.
pub struct Batch {
    pub vertices: Vec<Vertex>,
    pub items: u32,
    pub vertex_data: Vec<u8>,
    pub index_data: Vec<u8>,
}

impl Batch {
    /// Well-formedness: four vertices per item, and both blobs equal to what
    /// the current vertex list derives.
    pub open spec fn wf(self) -> bool {
        &&& self.items <= MAX_BATCH_ITEMS
        &&& self.vertices@.len() == 4 * self.items
        &&& self.vertex_data@ == vertices_le_bytes(self.vertices@)
        &&& self.index_data@ == indices_le_bytes(batch_indices(self.items as int))
    }

    /// An empty batch: no items, no vertices, empty blobs.
    pub fn new() -> (b: Batch)
        ensures
            b.wf(),
            b.items == 0,
            b.vertices@ == Seq::<Vertex>::empty(),
    {
        let b = Batch { vertices: Vec::new(), items: 0, vertex_data: Vec::new(), index_data: Vec::new() };
        proof {
            assert(b.vertex_data@ =~= vertices_le_bytes(b.vertices@));
            assert(b.index_data@ =~= indices_le_bytes(batch_indices(0)));
        }
        b
    }

    /// Appends the four corner vertices of `square` -- top-left, bottom-left,
    /// top-right, bottom-right, all with the square's colour -- increments
    /// the item count, and rebuilds the index list and both blobs from
    /// scratch.  `right_edge` and `bottom_edge` carry the bit patterns of
    /// `position[0] + size` and `position[1] - size`, computed by the host:
    /// the floating-point sums cannot be formed here, but where each lands is
    /// fixed exactly.
    pub fn add_square(&mut self, square: Square, right_edge: u32, bottom_edge: u32)
        requires
            old(self).wf(),
            old(self).items < MAX_BATCH_ITEMS,
        ensures
            final(self).wf(),
            final(self).items == old(self).items + 1,
            final(self).vertices@.len() == old(self).vertices@.len() + 4,
            final(self).vertices@.subrange(0, old(self).vertices@.len() as int) == old(
                self,
            ).vertices@,
            is_quad_vertices(
                final(self).vertices@.skip(old(self).vertices@.len() as int),
                square,
                right_edge,
                bottom_edge,
            ),
    {
        let ghost n = self.vertices@.len() as int;
        self.vertices.push(
            Vertex {
                position: [square.position[0], square.position[1], 0],
                colour: square.colour,
            },
        );
        self.vertices.push(
            Vertex { position: [square.position[0], bottom_edge, 0], colour: square.colour },
        );
        self.vertices.push(
            Vertex { position: [right_edge, square.position[1], 0], colour: square.colour },
        );
        self.vertices.push(
            Vertex { position: [right_edge, bottom_edge, 0], colour: square.colour },
        );
        self.items = self.items + 1;
        self.calculate_buffers();
        proof {
            assert(self.vertices@.subrange(0, n) =~= old(self).vertices@);
            let quad = self.vertices@.skip(n);
            assert(quad[0].position@ =~= seq![square.position@[0], square.position@[1], 0u32]);
            assert(quad[1].position@ =~= seq![square.position@[0], bottom_edge, 0u32]);
            assert(quad[2].position@ =~= seq![right_edge, square.position@[1], 0u32]);
            assert(quad[3].position@ =~= seq![right_edge, bottom_edge, 0u32]);
            assert(forall|i: int| 0 <= i < 4 ==> (#[trigger] quad[i]).colour@ =~= square.colour@);
        }
    }

    /// Regenerates the index list for the current item count and rebuilds
    /// both byte blobs in full from the vertex list.
    pub fn calculate_buffers(&mut self)
        requires
            old(self).items <= MAX_BATCH_ITEMS,
            old(self).vertices@.len() == 4 * old(self).items,
        ensures
            final(self).vertices == old(self).vertices,
            final(self).items == old(self).items,
            final(self).wf(),
    {
        let indices = generate_indices(self.items);
        self.vertex_data = vertices_to_bytes(&self.vertices);
        self.index_data = indices_to_bytes(&indices);
    }

    /// How many indices a draw call must cover to render the whole batch:
    /// six per item, two triangles each.
    pub fn index_count(&self) -> (n: u32)
        requires
            self.items <= MAX_BATCH_ITEMS,
        ensures
            n == 6 * self.items,
    {
        6 * self.items
    }
}

/// The vertex blob carries 24 bytes per vertex.
pub proof fn lemma_vertices_le_bytes_len(vs: Seq<Vertex>)
    ensures
        vertices_le_bytes(vs).len() == 24 * vs.len(),
    decreases vs.len(),
{
    if vs.len() > 0 {
        lemma_vertices_le_bytes_len(vs.drop_last());
    }
}

/// The index blob carries 2 bytes per index.
pub proof fn lemma_indices_le_bytes_len(is: Seq<u16>)
    ensures
        indices_le_bytes(is).len() == 2 * is.len(),
    decreases is.len(),
{
    if is.len() > 0 {
        lemma_indices_le_bytes_len(is.drop_last());
    }
}

/// The index list for `k` quads has six entries per quad, and every entry
/// references one of the batch's own `4 * k` vertices.
pub proof fn lemma_batch_indices_shape(k: int)
    requires
        0 <= k <= MAX_BATCH_ITEMS,
    ensures
        batch_indices(k).len() == 6 * k,
        forall|j: int| 0 <= j < 6 * k ==> 0 <= #[trigger] batch_indices(k)[j] < 4 * k,
    decreases k,
{
    if k > 0 {
        lemma_batch_indices_shape(k - 1);
        assert(4 * (k - 1) + 3 < 65536);
        assert(forall|j: int| 0 <= j < 6 ==> 0 <= #[trigger] quad_indices(k - 1)[j] < 4 * k);
    }
}

/// Vertices sit one stride apart in the blob: vertex `i`'s bytes are exactly
/// bytes `[24 * i, 24 * (i + 1))`.
pub proof fn lemma_vertex_bytes_at(vs: Seq<Vertex>, i: int)
    requires
        0 <= i < vs.len(),
    ensures
        vertices_le_bytes(vs).subrange(24 * i, 24 * i + 24) == vertex_le_bytes(vs[i]),
    decreases vs.len(),
{
    lemma_vertices_le_bytes_len(vs);
    lemma_vertices_le_bytes_len(vs.drop_last());
    if i == vs.len() - 1 {
        assert(vertices_le_bytes(vs).subrange(24 * i, 24 * i + 24) =~= vertex_le_bytes(vs[i]));
    } else {
        lemma_vertex_bytes_at(vs.drop_last(), i);
        assert(vertices_le_bytes(vs).subrange(24 * i, 24 * i + 24) =~= vertices_le_bytes(
            vs.drop_last(),
        ).subrange(24 * i, 24 * i + 24));
    }
}

/// Indices sit two bytes apart in the blob: index `j`'s bytes are exactly
/// bytes `[2 * j, 2 * (j + 1))`.
pub proof fn lemma_index_bytes_at(is: Seq<u16>, j: int)
    requires
        0 <= j < is.len(),
    ensures
        indices_le_bytes(is).subrange(2 * j, 2 * j + 2) == u16_le_bytes(is[j]),
    decreases is.len(),
{
    lemma_indices_le_bytes_len(is);
    lemma_indices_le_bytes_len(is.drop_last());
    if j == is.len() - 1 {
        assert(indices_le_bytes(is).subrange(2 * j, 2 * j + 2) =~= u16_le_bytes(is[j]));
    } else {
        lemma_index_bytes_at(is.drop_last(), j);
        assert(indices_le_bytes(is).subrange(2 * j, 2 * j + 2) =~= indices_le_bytes(
            is.drop_last(),
        ).subrange(2 * j, 2 * j + 2));
    }
}

/// Quad `q`'s six indices sit at positions `[6 * q, 6 * q + 6)` of the list
/// for any batch of `k >= q + 1` quads: growing a batch never reorders the
/// indices already generated.
pub proof fn lemma_batch_indices_at(k: int, q: int)
    requires
        0 <= q < k <= MAX_BATCH_ITEMS,
    ensures
        batch_indices(k).subrange(6 * q, 6 * q + 6) == quad_indices(q),
    decreases k,
{
    lemma_batch_indices_shape(k);
    lemma_batch_indices_shape(k - 1);
    if q == k - 1 {
        assert(batch_indices(k).subrange(6 * q, 6 * q + 6) =~= quad_indices(q));
    } else {
        lemma_batch_indices_at(k - 1, q);
        assert(batch_indices(k).subrange(6 * q, 6 * q + 6) =~= batch_indices(k - 1).subrange(
            6 * q,
            6 * q + 6,
        ));
    }
}

/// Where each piece of a well-formed batch's blobs sits: vertex `v`'s 24
/// bytes start at byte `24 * v` of the vertex blob, and index `j`'s two bytes
/// at byte `2 * j` of the index blob.
pub proof fn lemma_batch_blob_layout(b: Batch, v: int, j: int)
    requires
        b.wf(),
        0 <= v < 4 * b.items,
        0 <= j < 6 * b.items,
    ensures
        b.vertex_data@.subrange(24 * v, 24 * v + 24) == vertex_le_bytes(b.vertices@[v]),
        b.index_data@.subrange(2 * j, 2 * j + 2) == u16_le_bytes(
            batch_indices(b.items as int)[j],
        ),
{
    lemma_batch_indices_shape(b.items as int);
    lemma_vertex_bytes_at(b.vertices@, v);
    lemma_index_bytes_at(batch_indices(b.items as int), j);
}

/// Every count and size a well-formed batch exposes, in terms of its item
/// count `k`: `4 * k` vertices, `6 * k` indices each within `[0, 4 * k)`, a
/// vertex blob of `24 * 4 * k` bytes and an index blob of `2 * 6 * k` bytes.
pub proof fn lemma_batch_shape(b: Batch)
    requires
        b.wf(),
    ensures
        b.vertices@.len() == 4 * b.items,
        batch_indices(b.items as int).len() == 6 * b.items,
        forall|j: int|
            0 <= j < 6 * b.items ==> 0 <= #[trigger] batch_indices(b.items as int)[j] < 4
                * b.items,
        b.vertex_data@.len() == 96 * b.items,
        b.index_data@.len() == 12 * b.items,
{
    lemma_batch_indices_shape(b.items as int);
    lemma_vertices_le_bytes_len(b.vertices@);
    lemma_indices_le_bytes_len(batch_indices(b.items as int));
}

/// The index list for `items` quads, as `batch_indices` derives it.
pub fn generate_indices(items: u32) -> (r: Vec<u16>)
    requires
        items <= MAX_BATCH_ITEMS,
    ensures
        r@ == batch_indices(items as int),
{
    let mut r: Vec<u16> = Vec::new();
    let mut i: u32 = 0;
    while i < items
        invariant
            i <= items,
            items <= MAX_BATCH_ITEMS,
            r@ == batch_indices(i as int),
        decreases items - i,
    {
        let offset: u16 = (4 * i) as u16;
        r.push(offset);
        r.push(offset + 1);
        r.push(offset + 2);
        r.push(offset + 3);
        r.push(offset + 2);
        r.push(offset + 1);
        proof {
            assert(r@ =~= batch_indices(i as int) + quad_indices(i as int));
            assert(batch_indices(i as int + 1) == batch_indices(i as int) + quad_indices(i as int));
        }
        i = i + 1;
    }
    r
}

/// Serialises a vertex list into its GPU-ready byte blob.
pub fn vertices_to_bytes(vs: &Vec<Vertex>) -> (out: Vec<u8>)
    ensures
        out@ == vertices_le_bytes(vs@),
{
    let mut out: Vec<u8> = Vec::new();
    let mut i: usize = 0;
    while i < vs.len()
        invariant
            i <= vs@.len(),
            out@ == vertices_le_bytes(vs@.take(i as int)),
        decreases vs@.len() - i,
    {
        let v = vs[i];
        push_u32_le(&mut out, v.position[0]);
        push_u32_le(&mut out, v.position[1]);
        push_u32_le(&mut out, v.position[2]);
        push_u32_le(&mut out, v.colour[0]);
        push_u32_le(&mut out, v.colour[1]);
        push_u32_le(&mut out, v.colour[2]);
        i = i + 1;
        proof {
            let pre = vs@.take(i as int - 1);
            assert(vs@.take(i as int).drop_last() =~= pre);
            assert(vs@.take(i as int).last() == vs@[i as int - 1]);
            assert(out@ =~= vertices_le_bytes(pre) + vertex_le_bytes(vs@[i as int - 1]));
        }
    }
    proof {
        assert(vs@.take(vs@.len() as int) =~= vs@);
    }
    out
}

/// Serialises an index list into its GPU-ready byte blob of 16-bit indices.
pub fn indices_to_bytes(is: &Vec<u16>) -> (out: Vec<u8>)
    ensures
        out@ == indices_le_bytes(is@),
{
    let mut out: Vec<u8> = Vec::new();
    let mut i: usize = 0;
    while i < is.len()
        invariant
            i <= is@.len(),
            out@ == indices_le_bytes(is@.take(i as int)),
        decreases is@.len() - i,
    {
        push_u16_le(&mut out, is[i]);
        i = i + 1;
        proof {
            assert(is@.take(i as int).drop_last() =~= is@.take(i as int - 1));
            assert(is@.take(i as int).last() == is@[i as int - 1]);
        }
    }
    proof {
        assert(is@.take(is@.len() as int) =~= is@);
    }
    out
}

} // verus!
