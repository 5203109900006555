//! Frame-loop orchestration for an interactive rendering demo.
//!
//! The crate holds the state that a windowed renderer must keep consistent
//! from tick to tick: keyboard and pointer input, the simulation clock, a
//! resettable interval timer, mesh topology for the shapes that are drawn,
//! and the mirror of the GPU-side buffers together with the resize and
//! regeneration rules that keep them in step with the window.
//!
//! Quantities that the graphics stack stores as IEEE-754 single-precision
//! words (vertex attributes, pointer coordinates) are carried here as their
//! raw 32-bit words; the few places where the logic must interpret such a
//! word (a zero test, a truncating cast) do so with exact integer
//! arithmetic in [`bits`].

pub mod bits;
pub mod camera;
pub mod frame_loop;
pub mod input_manager;
pub mod model;
pub mod renderer;
pub mod timer;
pub mod timing;
