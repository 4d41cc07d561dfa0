use vstd::prelude::*;

use crate::vertex::Vertex;

verus! {

/// One square to draw: an anchor position (two components), a colour (three
/// components) and an edge length, all carried as IEEE-754 bit patterns of
/// the 32-bit floats the shader reads.  A square is a transient value,
/// consumed once by the batch it lands in and never mutated.
#[derive(Clone, Copy, Debug, PartialEq)]
pub struct Square {
    pub position: [u32; 2],
    pub colour: [u32; 3],
    pub size: u32,
}

/// `vs` is exactly the four corner vertices of `square`, in the fixed order
/// top-left, bottom-left, top-right, bottom-right, every corner carrying the
/// square's colour and a zero z coordinate.  `right_edge` and `bottom_edge`
/// are the bit patterns of `position[0] + size` and `position[1] - size`:
/// the quad spans from the anchor down and to the right by `size`.  The two
/// floating-point sums are formed by the host; this predicate fixes where
/// each of their values lands.
pub open spec fn is_quad_vertices(
    vs: Seq<Vertex>,
    square: Square,
    right_edge: u32,
    bottom_edge: u32,
) -> bool {
    &&& vs.len() == 4
    &&& vs[0].position@ == seq![square.position@[0], square.position@[1], 0u32]
    &&& vs[1].position@ == seq![square.position@[0], bottom_edge, 0u32]
    &&& vs[2].position@ == seq![right_edge, square.position@[1], 0u32]
    &&& vs[3].position@ == seq![right_edge, bottom_edge, 0u32]
    &&& forall|i: int| 0 <= i < 4 ==> (#[trigger] vs[i]).colour@ == square.colour@
}

} // verus!
