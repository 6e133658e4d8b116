//! A configurable renderer: vertex layouts, uniform layouts and the WGSL shader generated from them.

mod basic_renderer;
pub mod dynamic_vertex;
pub mod text;
pub mod uniform;

pub use basic_renderer::{
    make_label, plan_render, vertex_count, BasicRendererDescriptor, RenderPlan, SAMPLER_BINDING_INDEX, TEXTURE_BINDING_INDEX, TEXTURE_BIND_GROUP_INDEX,
    UNIFORMS_BINDING_INDEX, UNIFORMS_BIND_GROUP_INDEX,
};
pub use dynamic_vertex::{
    vertex_format_align_of, DynamicAttribute, DynamicVertex, DynamicVertexDescriptor, DynamicVertexDescriptorBuilder, NamedAttributeDescriptor,
    VertexAttribute, VertexBufferLayoutBuilder, VertexFormat, WgslAttributeType, WgslVertexDescriptor,
};
pub use uniform::{DynamicUniformBuffer, DynamicUniformBufferBuilder, UniformType};
