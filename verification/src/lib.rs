//! Drawing core of a minimal real-time 2D rendering engine.
//!
//! The library accumulates axis-aligned squares into GPU-ready geometry
//! batches bounded by a per-batch capacity, and keeps the camera's
//! view-projection matrix in a GPU-facing uniform blob.  Scalars that the
//! graphics backend reads as 32-bit floats are carried here as their IEEE-754
//! bit patterns (`u32`), so every structural property of the geometry --
//! which corner of a quad gets which coordinate, how vertices and indices are
//! laid out in the byte blobs, and how squares are routed into batches -- is
//! stated and proved exactly.  Floating-point arithmetic itself (deriving a
//! quad's far edges from its anchor and size, and the camera's matrix
//! algebra) is the host's, outside this crate, as are window handling and
//! the GPU device: the host turns the byte blobs produced here into vertex,
//! index and uniform buffers and issues the draw calls.

pub mod batch;
pub mod camera;
pub mod encode;
pub mod renderer;
pub mod square;
pub mod vertex;
