//! Shader compile/link bookkeeping and the redraw state machine of a small
//! OpenGL triangle renderer. The driver calls themselves are made by the
//! caller; this library decides what to issue and what the outcome is.

pub mod geometry;
pub mod gpu;
pub mod program;
pub mod render;
pub mod shader;
