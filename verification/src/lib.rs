//! Verified core of a deferred-rendering testbed.
//!
//! The crate models the CPU-side resource logic of the renderer with plain
//! values: binding layouts and binding sets, vertex buffer layouts, pipeline
//! configuration, the tangent/bitangent preprocessing step, render-target
//! sizing, and the per-frame two-pass protocol.  The GPU device, the window
//! and all file and image decoding live outside the verified core and hand
//! it plain values.

pub mod binding;
pub mod camera;
pub mod file_reader;
pub mod model;
pub mod pipeline;
pub mod state;
pub mod texture;
pub mod vertex;
