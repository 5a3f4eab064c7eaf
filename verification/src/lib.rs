//! Texture cache and sprite pipeline of a small 2D renderer.
//!
//! The library decides which GPU commands a frame needs and records them in a
//! [`gl::CommandBuffer`]; the host program submits the recorded commands to
//! the platform's graphics context.

pub mod asset;
pub mod error;
pub mod frame;
pub mod gl;
pub mod sprite;
