use vstd::arithmetic::div_mod::lemma_fundamental_div_mod_converse_div;
use vstd::prelude::*;

use crate::batch::{Batch, MAX_BATCH_ITEMS};
use crate::square::{is_quad_vertices, Square};
use crate::vertex::Vertex;

verus! {

/// Total number of items held across a sequence of batches.
pub open spec fn items_sum(bs: Seq<Batch>) -> int
    decreases bs.len(),
{
    if bs.len() == 0 {
        0
    } else {
        items_sum(bs.drop_last()) + bs.last().items
    }
}

/// Owns the ordered collection of batches and routes each newly added square
/// to the most recently opened batch, opening a fresh one when the current
/// last batch is full.  Batches are never removed, merged or reused: the
/// collection only grows for the session's lifetime.
pub struct Renderer {
    pub batches: Vec<Batch>,
    pub max_items_in_batch: u32,
}

impl Renderer {
    /// Well-formedness: there is always a current batch; every batch is
    /// well-formed and within capacity; every batch except the last is
    /// exactly full; and only the very first batch is ever open while empty.
    pub open spec fn wf(self) -> bool {
        let bs = self.batches@;
        &&& 1 <= self.max_items_in_batch <= MAX_BATCH_ITEMS
        &&& bs.len() >= 1
        &&& forall|i: int| 0 <= i < bs.len() ==> (#[trigger] bs[i]).wf()
        &&& forall|i: int| 0 <= i < bs.len() ==> (#[trigger] bs[i]).items <= self.max_items_in_batch
        &&& forall|i: int|
            0 <= i < bs.len() - 1 ==> (#[trigger] bs[i]).items == self.max_items_in_batch
        &&& (bs.len() > 1 ==> bs.last().items >= 1)
    }

    /// Total number of squares added so far, over all batches.
    pub open spec fn total_items(self) -> int {
        items_sum(self.batches@)
    }

    /// A renderer with one empty batch open.  A capacity of zero would open
    /// empty batches forever, so the host must reject it before construction;
    /// the upper bound keeps every batch's vertex indices within the 16-bit
    /// index format.
    pub fn new(max_items_in_batch: u32) -> (r: Renderer)
        requires
            1 <= max_items_in_batch <= MAX_BATCH_ITEMS,
        ensures
            r.wf(),
            r.max_items_in_batch == max_items_in_batch,
            r.batches@.len() == 1,
            r.batches@[0].items == 0,
            r.batches@[0].vertices@ == Seq::<Vertex>::empty(),
            r.total_items() == 0,
    {
        let mut batches: Vec<Batch> = Vec::new();
        batches.push(Batch::new());
        let r = Renderer { batches, max_items_in_batch };
        proof {
            assert(r.batches@.drop_last() =~= Seq::<Batch>::empty());
            assert(items_sum(Seq::<Batch>::empty()) == 0);
        }
        r
    }

    /// If the last batch is full, opens a fresh batch; then delegates the
    /// square to the (possibly new) last batch.  Every batch before the last
    /// is untouched.  `right_edge` and `bottom_edge` are the bit patterns of
    /// the square's derived far edges, as `Batch::add_square` takes them.
    pub fn add_square(&mut self, square: Square, right_edge: u32, bottom_edge: u32)
        requires
            old(self).wf(),
        ensures
            final(self).wf(),
            final(self).max_items_in_batch == old(self).max_items_in_batch,
            final(self).total_items() == old(self).total_items() + 1,
            ({
                let bs = old(self).batches@;
                let fs = final(self).batches@;
                if bs.last().items == old(self).max_items_in_batch {
                    &&& fs.len() == bs.len() + 1
                    &&& fs.subrange(0, bs.len() as int) == bs
                    &&& fs.last().items == 1
                    &&& is_quad_vertices(fs.last().vertices@, square, right_edge, bottom_edge)
                } else {
                    &&& fs.len() == bs.len()
                    &&& fs.subrange(0, bs.len() - 1) == bs.subrange(0, bs.len() - 1)
                    &&& fs.last().items == bs.last().items + 1
                    &&& fs.last().vertices@.subrange(0, bs.last().vertices@.len() as int)
                        == bs.last().vertices@
                    &&& is_quad_vertices(
                        fs.last().vertices@.skip(bs.last().vertices@.len() as int),
                        square,
                        right_edge,
                        bottom_edge,
                    )
                }
            }),
    {
        let n = self.batches.len();
        if self.batches[n - 1].items == self.max_items_in_batch {
            self.batches.push(Batch::new());
        }
        let ghost mid = self.batches@;
        let mut last = self.batches.pop().unwrap();
        last.add_square(square, right_edge, bottom_edge);
        self.batches.push(last);
        proof {
            let bs = old(self).batches@;
            let fs = self.batches@;
            assert(fs.drop_last() =~= mid.drop_last());
            if bs.last().items == old(self).max_items_in_batch {
                assert(mid.drop_last() =~= bs);
                assert(fs.subrange(0, bs.len() as int) =~= bs);
                assert(mid.last().vertices@ =~= Seq::<Vertex>::empty());
            } else {
                assert(mid =~= bs);
                assert(fs.subrange(0, bs.len() - 1) =~= bs.subrange(0, bs.len() - 1));
            }
            assert(items_sum(fs) == items_sum(fs.drop_last()) + fs.last().items);
            assert(items_sum(bs) == items_sum(bs.drop_last()) + bs.last().items);
        }
    }
}

/// In a well-formed renderer, the total item count decomposes as full batches
/// plus the last: `total == capacity * (batches - 1) + last.items`.
pub proof fn lemma_items_sum_decomposes(bs: Seq<Batch>, capacity: u32)
    requires
        bs.len() >= 1,
        forall|i: int| 0 <= i < bs.len() - 1 ==> (#[trigger] bs[i]).items == capacity,
    ensures
        items_sum(bs) == capacity * (bs.len() - 1) + bs.last().items,
    decreases bs.len(),
{
    if bs.len() == 1 {
        assert(bs.drop_last() =~= Seq::<Batch>::empty());
        assert(items_sum(Seq::<Batch>::empty()) == 0);
        assert(capacity * (bs.len() - 1) == 0) by (nonlinear_arith)
            requires
                bs.len() == 1,
        ;
    } else {
        lemma_items_sum_decomposes(bs.drop_last(), capacity);
        assert(bs.drop_last().last().items == capacity);
        assert(capacity * (bs.len() - 2) + capacity == capacity * (bs.len() - 1))
            by (nonlinear_arith);
    }
}

/// After any number of additions, a well-formed renderer that holds at least
/// one square has exactly the ceiling of `total / capacity` batches, every
/// batch except the last is exactly full, and the last batch holds what
/// remains: `total - capacity * (batches - 1)`.
pub proof fn lemma_batch_count(r: Renderer)
    requires
        r.wf(),
        r.total_items() >= 1,
    ensures
        r.batches@.len() == (r.total_items() + r.max_items_in_batch - 1) / (
        r.max_items_in_batch as int),
        forall|i: int|
            0 <= i < r.batches@.len() - 1 ==> (#[trigger] r.batches@[i]).items
                == r.max_items_in_batch,
        r.batches@.last().items == r.total_items() - r.max_items_in_batch * (r.batches@.len() - 1),
{
    let bs = r.batches@;
    let c = r.max_items_in_batch as int;
    let len = bs.len() as int;
    let total = r.total_items();
    lemma_items_sum_decomposes(bs, r.max_items_in_batch);
    let last = bs.last().items as int;
    if len == 1 {
        assert(c * (len - 1) == 0) by (nonlinear_arith)
            requires
                len == 1,
        ;
        assert(last == total);
    }
    assert(1 <= last <= c);
    assert(total + c - 1 == len * c + (last - 1)) by (nonlinear_arith)
        requires
            total == c * (len - 1) + last,
    ;
    lemma_fundamental_div_mod_converse_div(total + c - 1, c, len, last - 1);
}

} // verus!
