//! WGSL types and declarations for vertex attributes.

pub mod wgsl_attribute;
pub mod wgsl_vertex;
