//! Verified core of a minimal windowed renderer.
//!
//! The crate holds the logic of a small render loop: the events the loop
//! reacts to, the mutable render state (clear color, exit flag, output
//! target), the fixed quad geometry, the assembly of shader sources from a
//! dialect-specific header and a shared body, and the decoding of an embedded
//! PNG texture. Opening the window, compiling the shaders and issuing the
//! draw calls are left to an unverified shell around this library.

pub mod event;
pub mod geometry;
pub mod shader;
pub mod state;
pub mod texture;
