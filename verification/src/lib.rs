//! Core of a matrix-transformation animation engine.
//!
//! The engine walks a "plaintext" matrix through an ordered series of
//! invertible planar-rotation transforms toward a fully composed "ciphertext"
//! end state and back again, renders each intermediate state as an RGBA pixel
//! buffer through a named colour gradient, and drives automatic forward or
//! reverse playback through a cancellable repeating timer.
//!
//! This crate holds the verified control core: the key-series structure, the
//! stepping state machine, the gradient-name registry, the pixel-buffer
//! layout, and the playback state machine. The numeric matrix arithmetic
//! itself (floating point) and the host bindings live outside it; the core
//! tells its caller which key to apply or invert at each step, and the caller
//! hands back the colour of every cell for rendering.

pub mod chain;
pub mod engine;
pub mod errors;
pub mod gradient;
pub mod keys;
pub mod playback;
pub mod render;
pub mod tabular;
