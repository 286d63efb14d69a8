//! Per-frame vertex batching for a small triangle renderer.
//!
//! The crate decides what is sent to the graphics device and when: which
//! words are uploaded into the preallocated vertex buffer, how many
//! vertices a draw call names, which handles are bound or released. The
//! caller owns the graphics context and carries the commands out.
//!
//! Floating-point values never enter the crate. A coordinate or a colour
//! channel is held as the 32-bit pattern of its IEEE-754 single precision
//! value, which is exactly what the device receives.

pub mod frame;
pub mod math;
pub mod renderer;
pub mod shader;
