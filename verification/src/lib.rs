//! CPU-side image buffers and the WGSL code generation behind a small wgpu renderer toolkit.

pub mod image;
pub mod renderers;
