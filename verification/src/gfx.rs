//! The device-facing half: value types, handles, the command encoder and the
//! device facade over any backend.

pub mod buffer;
pub mod color;
pub mod commands;
pub mod device;
pub mod dpi;
pub mod encoder;
pub mod error;
pub mod limits;
pub mod pipeline;
pub mod render_texture;
pub mod texture;
