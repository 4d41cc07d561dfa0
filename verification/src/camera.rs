use vstd::prelude::*;

verus! {

/// Bit pattern of the 32-bit float one, the diagonal of the identity matrix.
pub const F32_ONE_BITS: u32 = 0x3F80_0000;

/// A view specification owned by the host: eye and target points, up vector,
/// and the orthographic frustum's width and height, every component the
/// IEEE-754 bit pattern of a 32-bit float.  A camera is a pure value; the
/// matrix algebra that derives its view-projection matrix (orthographic
/// frustum, look-at view, clip-space depth adjustment) is floating point and
/// therefore the host's.
#[derive(Clone, Copy, Debug, PartialEq)]
pub struct Camera {
    pub eye: [u32; 3],
    pub target: [u32; 3],
    pub up: [u32; 3],
    pub width: u32,
    pub height: u32,
}

/// `m` holds the identity matrix: float one on the diagonal, zero elsewhere.
pub open spec fn is_identity_bits(m: [[u32; 4]; 4]) -> bool {
    forall|i: int, j: int|
        0 <= i < 4 && 0 <= j < 4 ==> #[trigger] m@[i]@[j] == if i == j {
            F32_ONE_BITS
        } else {
            0u32
        }
}

/// The state a uniform holds after `update_projection` stores matrix `m`:
/// the blob is nothing but the matrix.
pub open spec fn updated_with(u: CameraUniform, m: [[u32; 4]; 4]) -> CameraUniform {
    CameraUniform { view_proj: m }
}

/// The GPU-facing memory blob holding the current view-projection matrix,
/// column-major, each entry a 32-bit float bit pattern.  Its sole purpose is
/// to be copied byte for byte into a uniform buffer; the host re-uploads it
/// whenever it changes, for the blob itself tracks no dirtiness.
#[derive(Clone, Copy, Debug, PartialEq)]
pub struct CameraUniform {
    pub view_proj: [[u32; 4]; 4],
}

impl CameraUniform {
    /// A fresh uniform holding the identity matrix.
    pub fn new() -> (u: CameraUniform)
        ensures
            is_identity_bits(u.view_proj),
    {
        let one = F32_ONE_BITS;
        let u = CameraUniform {
            view_proj: [
                [one, 0, 0, 0],
                [0, one, 0, 0],
                [0, 0, one, 0],
                [0, 0, 0, one],
            ],
        };
        u
    }

    /// Overwrites the stored matrix with the view-projection matrix the host
    /// derived from its camera, bit for bit.
    pub fn update_projection(&mut self, view_proj: [[u32; 4]; 4])
        ensures
            *final(self) == updated_with(*old(self), view_proj),
    {
        self.view_proj = view_proj;
    }
}

/// Updating the projection twice from an unchanged camera leaves the uniform
/// exactly as one update does: the stored matrix depends on nothing but the
/// matrix written, so the second write repeats the first bit for bit.
pub proof fn lemma_update_projection_idempotent(u: CameraUniform, m: [[u32; 4]; 4])
    ensures
        updated_with(updated_with(u, m), m) == updated_with(u, m),
{
}

} // verus!
