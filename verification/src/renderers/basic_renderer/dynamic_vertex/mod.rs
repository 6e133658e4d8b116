//! Vertex layouts defined at run time, and the WGSL generated from them.

pub mod attribute;
pub mod byte_order;
pub mod vertex;
mod vertex_format;
pub mod wgsl;

pub use vertex::{
    DynamicVertex, DynamicVertexDescriptor, DynamicVertexDescriptorBuilder, NamedAttributeDescriptor, VertexAttribute,
    VertexBufferLayoutBuilder,
};
pub use attribute::DynamicAttribute;
pub use vertex_format::{vertex_format_align_of, VertexFormat};
pub use wgsl::wgsl_attribute::WgslAttributeType;
pub use wgsl::wgsl_vertex::WgslVertexDescriptor;
