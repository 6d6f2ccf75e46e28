//! A backend-agnostic GPU rendering layer.
//!
//! [`gfx`] is what a caller sees: typed handles for pipelines, buffers,
//! textures and render targets, a command encoder that records drawing
//! operations, and a device that creates resources on any backend, hands it
//! command lists and defers the deletion of released resources to a point
//! of the caller's choosing.
//!
//! [`gfx_backend`] is one backend, for OpenGL ES. It never touches the
//! native API. It decides: every operation yields the exact sequence of
//! native calls to issue, as values, and where the next decision hangs on
//! what the native API reports, the operation stops with the question to
//! put and goes on from the answer. Whoever owns the native context issues
//! the calls and fetches the answers.

pub mod gfx;
pub mod gfx_backend;
