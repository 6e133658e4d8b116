//! Uniform struct layouts and their WGSL declarations.

pub mod dynamic_uniform;

pub use dynamic_uniform::{DynamicUniformBuffer, DynamicUniformBufferBuilder, UniformType};
