//! Renderer building blocks.

pub mod basic_renderer;
