use bl_wgpu_util::renderers::basic_renderer::text::{decimal_string, join_strings};
use bl_wgpu_util::renderers::basic_renderer::{
    make_label, plan_render, vertex_count, BasicRendererDescriptor, DynamicUniformBuffer,
    DynamicUniformBufferBuilder, DynamicVertexDescriptorBuilder, UniformType, VertexFormat,
    WgslAttributeType, WgslVertexDescriptor,
};

#[test]
fn wgsl_attribute_types() {
    assert_eq!(WgslAttributeType::F32x3.to_string(), "vec3<f32>");
    assert_eq!(WgslAttributeType::S32.to_string(), "i32");
    assert_eq!(WgslAttributeType::U32x4.comp(), 4);
    assert_eq!(WgslAttributeType::U32x2.size(), 8);
    assert_eq!(WgslAttributeType::from_vertex_format(VertexFormat::Unorm16x2), WgslAttributeType::F32x2);
    assert_eq!(WgslAttributeType::from_vertex_format(VertexFormat::Sint8x4), WgslAttributeType::S32x4);
    assert_eq!(WgslAttributeType::from_vertex_format(VertexFormat::Float64x3), WgslAttributeType::F32x3);
    assert_eq!(WgslAttributeType::from_vertex_format(VertexFormat::Unorm8x4Bgra), WgslAttributeType::F32x4);
    assert_eq!(WgslAttributeType::from(VertexFormat::Uint16), WgslAttributeType::U32);
}

#[test]
fn wgsl_vertex_input_and_output() {
    let d = DynamicVertexDescriptorBuilder::new()
        .with_attribute("position", VertexFormat::Float32x2, None)
        .with_attribute("color", VertexFormat::Unorm8x4, None)
        .with_attribute("uv", VertexFormat::Float32x2, None)
        .build();
    let w = WgslVertexDescriptor::from_descriptor(&d);
    assert_eq!(w.index_of("uv"), Some(2));
    assert_eq!(w.index_of("normal"), None);
    assert_eq!(
        w.code_gen_vertex_input(true),
        "struct VertexInput {\n    @location(0) position: vec2<f32>,\n    @location(1) color: vec4<f32>,\n    @location(2) uv: vec2<f32>,\n}\n"
    );
    assert_eq!(
        w.code_gen_vertex_input(false),
        "struct VertexInput {\n    position: vec2<f32>,\n    color: vec4<f32>,\n    uv: vec2<f32>,\n}\n"
    );
    assert_eq!(
        w.code_gen_vertex_output(),
        "struct VertexOutput {\n    @builtin(position) position: vec4<f32>,\n    @location(0) color: vec4<f32>,\n    @location(1) uv: vec2<f32>,\n}\n"
    );
    assert_eq!(w.code_gen_position_expr(), "vec4<f32>(in.position, 0.0, 1.0)");
    assert_eq!(w.code_gen_color_expr(), Some("in.color".to_string()));
    assert_eq!(w.code_gen_uv_expr(), Some("in.uv".to_string()));
    assert_eq!(d.code_gen_vertex_output(), w.code_gen_vertex_output());
}

#[test]
fn wgsl_special_expressions() {
    let d = DynamicVertexDescriptorBuilder::new()
        .with_attribute("position", VertexFormat::Float32x3, None)
        .with_attribute("color", VertexFormat::Float32x2, None)
        .with_attribute("uv", VertexFormat::Float32x4, None)
        .build();
    assert_eq!(d.code_gen_position_expr(), "vec4<f32>(in.position, 1.0)");
    assert_eq!(d.code_gen_color_expr(), Some("vec4<f32>(vec3(in.color.x), in.color.y)".to_string()));
    assert_eq!(d.code_gen_uv_expr(), Some("in.uv.xy".to_string()));

    let e = DynamicVertexDescriptorBuilder::new()
        .with_attribute("position", VertexFormat::Uint32, None)
        .with_attribute("color", VertexFormat::Uint32, None)
        .build();
    assert_eq!(e.code_gen_position_expr(), "vec4<f32>(0.0, 0.0, 0.0, 1.0)");
    assert_eq!(e.code_gen_color_expr(), None);
    assert_eq!(e.code_gen_uv_expr(), None);
    assert_eq!(e.code_gen_vertex_output(), "struct VertexOutput {\n    @builtin(position) position: vec4<f32>,\n    @location(0) color: vec4<f32>,\n}\n");
}

#[test]
fn hardcoded_vertices_array() {
    let d = DynamicVertexDescriptorBuilder::new()
        .with_attribute("position", VertexFormat::Float32x2, None)
        .build();
    let vs = vec![
        "VertexInput(vec2<f32>(0.0, 1.0))".to_string(),
        "VertexInput(vec2<f32>(1.0, 0.0))".to_string(),
    ];
    assert_eq!(
        d.code_gen_hardcoded_vertices(&vs),
        "const hardcoded_vertices = array<VertexInput, 2>(\n    VertexInput(vec2<f32>(0.0, 1.0)),\n    VertexInput(vec2<f32>(1.0, 0.0)),\n);"
    );
}

fn uniforms() -> DynamicUniformBuffer {
    DynamicUniformBufferBuilder::new(80)
        .with_member("transform_matrix", UniformType::Mat4)
        .with_member("color", UniformType::F32x4)
        .build()
}

#[test]
fn uniform_buffer_members() {
    let u = uniforms();
    assert_eq!(u.min_size(), 80);
    assert_eq!(u.member_type("color"), Some(UniformType::F32x4));
    assert_eq!(u.member_type("transform_matrix"), Some(UniformType::Mat4));
    assert_eq!(u.member_type("missing"), None);
    assert_eq!(u.transform_matrix_expr(), Some("uniforms.transform_matrix".to_string()));
    assert_eq!(u.uniform_color_expr(), Some("uniforms.color".to_string()));
    assert_eq!(
        u.code_gen_uniform_struct("Uniforms"),
        "struct Uniforms {\n    transform_matrix: mat4x4f,\n    color: vec4<f32>,\n}"
    );
}

#[test]
fn uniform_expressions_by_type() {
    let u = DynamicUniformBufferBuilder::new(16)
        .with_member("transform_matrix", UniformType::Mat3)
        .with_member("color", UniformType::F32x3)
        .build();
    assert_eq!(u.transform_matrix_expr(), None);
    assert_eq!(u.uniform_color_expr(), Some("vec4(uniforms.color, 1.0)".to_string()));
    let g = DynamicUniformBufferBuilder::new(4).with_member("color", UniformType::F32).build();
    assert_eq!(g.uniform_color_expr(), Some("vec4(vec3(uniforms.color), 1.0)".to_string()));
    let ga = DynamicUniformBufferBuilder::new(8).with_member("color", UniformType::F32x2).build();
    assert_eq!(ga.uniform_color_expr(), Some("vec4(vec3(uniforms.color.x), uniforms.color.y)".to_string()));
    let none = DynamicUniformBufferBuilder::new(4).build();
    assert_eq!(none.uniform_color_expr(), None);
    assert_eq!(none.code_gen_uniform_struct("U"), "struct U {\n}");
}

#[test]
fn uniform_type_names() {
    assert_eq!(UniformType::Bool.to_string(), "bool");
    assert_eq!(UniformType::I32x3.to_string(), "vec3<i32>");
    assert_eq!(UniformType::Mat2x4.to_string(), "mat2x4f");
    assert_eq!(UniformType::Mat4x3.to_string(), "mat4x3f");
}

#[test]
fn generated_shader_for_colored_vertices() {
    let desc = BasicRendererDescriptor {
        vertex_format: DynamicVertexDescriptorBuilder::new()
            .with_attribute("position", VertexFormat::Float32x2, None)
            .with_attribute("color", VertexFormat::Float32x4, None)
            .build(),
        has_depth: true,
        ..Default::default()
    };
    let expected = [
        "struct VertexInput {\n    @location(0) position: vec2<f32>,\n    @location(1) color: vec4<f32>,\n}\n",
        "struct VertexOutput {\n    @builtin(position) position: vec4<f32>,\n    @location(0) color: vec4<f32>,\n}\n",
        "@vertex",
        "fn vs_main(in: VertexInput) -> VertexOutput {",
        "    var out: VertexOutput;",
        "    out.position = vec4<f32>(in.position, 0.0, 1.0);",
        "    out.color = in.color;",
        "    return out;",
        "}",
        "",
        "@fragment",
        "fn fs_main(in: VertexOutput) -> @location(0) vec4<f32> {",
        "    return in.color;",
        "}",
    ]
    .join("\n");
    assert_eq!(desc.create_shader_code(&Vec::new()), expected);
    assert_eq!(desc.shader_code(&Vec::new()), expected);
}

#[test]
fn generated_shader_with_uniforms_texture_and_hardcoded_vertices() {
    let desc = BasicRendererDescriptor {
        vertex_format: DynamicVertexDescriptorBuilder::new()
            .with_attribute("position", VertexFormat::Float32x2, None)
            .with_attribute("uv", VertexFormat::Float32x2, None)
            .build(),
        uniform_buffer: Some(uniforms()),
        has_texture: true,
        hardcoded_vertices: Some(vec![0u8; 16]),
        ..Default::default()
    };
    let vs = vec!["VertexInput(vec2<f32>(0.0, 0.0), vec2<f32>(0.0, 1.0))".to_string()];
    let expected = [
        "struct VertexInput {\n    position: vec2<f32>,\n    uv: vec2<f32>,\n}\n",
        "struct VertexOutput {\n    @builtin(position) position: vec4<f32>,\n    @location(1) uv: vec2<f32>,\n}\n",
        "struct Uniforms {\n    transform_matrix: mat4x4f,\n    color: vec4<f32>,\n}",
        "",
        "@group(0) @binding(0) var<uniform> uniforms: Uniforms;",
        "",
        "@group(1) @binding(0) var tex: texture_2d<f32>;",
        "@group(1) @binding(1) var tex_sampler: sampler;",
        "",
        "const hardcoded_vertices = array<VertexInput, 1>(\n    VertexInput(vec2<f32>(0.0, 0.0), vec2<f32>(0.0, 1.0)),\n);",
        "",
        "@vertex",
        "fn vs_main(@builtin(vertex_index) vertex_index: u32) -> VertexOutput {",
        "    let in = hardcoded_vertices[vertex_index];",
        "    var out: VertexOutput;",
        "    out.position = uniforms.transform_matrix *vec4<f32>(in.position, 0.0, 1.0);",
        "    out.uv = in.uv;",
        "    return out;",
        "}",
        "",
        "@fragment",
        "fn fs_main(in: VertexOutput) -> @location(0) vec4<f32> {",
        "    return uniforms.color * textureSample(tex, tex_sampler, in.uv);",
        "}",
    ]
    .join("\n");
    assert_eq!(desc.create_shader_code(&vs), expected);
}

#[test]
fn plain_shader_returns_white() {
    let desc = BasicRendererDescriptor {
        vertex_format: DynamicVertexDescriptorBuilder::new()
            .with_attribute("position", VertexFormat::Float32x4, None)
            .build(),
        ..Default::default()
    };
    let code = desc.create_shader_code(&Vec::new());
    assert!(code.contains("    out.position = in.position;"));
    assert!(code.ends_with("    return vec4<f32>(1.0, 1.0, 1.0, 1.0);\n}"));
}

#[test]
fn custom_shader_bypasses_generation() {
    let desc = BasicRendererDescriptor {
        vertex_format: DynamicVertexDescriptorBuilder::new()
            .with_attribute("color", VertexFormat::Uint32, None)
            .build(),
        custom_shader: Some("@vertex fn main() {}".to_string()),
        ..Default::default()
    };
    assert_eq!(desc.shader_code(&Vec::new()), "@vertex fn main() {}");
}

#[test]
fn labels() {
    assert_eq!(make_label(&Some("Renderer".to_string()), "Pipeline"), Some("Renderer.Pipeline".to_string()));
    assert_eq!(make_label(&None, "Pipeline"), Some("Pipeline".to_string()));
}

#[test]
fn render_plans() {
    let p = plan_render(true, true, false, true, true, false, true);
    assert!(p.depth_attachment);
    assert!(!p.set_viewport);
    assert!(p.bind_uniforms);
    assert!(!p.bind_texture);
    assert!(p.set_vertex_buffer);
    assert!(!p.draw);
    let q = plan_render(false, false, true, false, true, true, false);
    assert!(q.bind_texture);
    assert!(q.draw);
    assert!(!q.depth_attachment);
    let r = plan_render(false, false, false, false, false, false, false);
    assert!(r.draw);
    assert!(!r.bind_texture);
}

#[test]
fn vertex_counts() {
    assert_eq!(vertex_count(48, 12), 4);
    assert_eq!(vertex_count(50, 12), 4);
    assert_eq!(vertex_count(0, 8), 0);
}

#[test]
fn decimal_and_join() {
    assert_eq!(decimal_string(0), "0");
    assert_eq!(decimal_string(1234), "1234");
    assert_eq!(decimal_string(u64::MAX), "18446744073709551615");
    assert_eq!(join_strings(&vec!["a".to_string(), "".to_string(), "c".to_string()], ", "), "a, , c");
    assert_eq!(join_strings(&Vec::new(), "\n"), "");
}

#[test]
fn pipeline_vertex_layouts() {
    let plain = BasicRendererDescriptor {
        vertex_format: DynamicVertexDescriptorBuilder::new()
            .with_attribute("position", VertexFormat::Float32x3, None)
            .build(),
        ..Default::default()
    };
    let layouts = plain.vertex_buffer_layouts();
    assert_eq!(layouts.len(), 1);
    assert_eq!(layouts[0].array_stride, 12);
    assert_eq!(layouts[0].attributes.len(), 1);
    assert_eq!(layouts[0].attributes[0].format, VertexFormat::Float32x3);
    let hardcoded = BasicRendererDescriptor {
        vertex_format: DynamicVertexDescriptorBuilder::new()
            .with_attribute("position", VertexFormat::Float32x3, None)
            .build(),
        hardcoded_vertices: Some(vec![0u8; 12]),
        ..Default::default()
    };
    assert!(hardcoded.vertex_buffer_layouts().is_empty());
}

#[test]
fn wgsl_descriptor_finds_the_same_attributes() {
    let d = DynamicVertexDescriptorBuilder::new()
        .with_attribute("uv", VertexFormat::Float32x2, None)
        .with_attribute("position", VertexFormat::Float32x2, None)
        .with_attribute("uv", VertexFormat::Float32x4, None)
        .build();
    let w = WgslVertexDescriptor::from_descriptor(&d);
    for name in ["uv", "position", "color", ""] {
        assert_eq!(w.index_of(name), d.index_of(name));
    }
}

#[test]
fn later_members_do_not_hide_earlier_ones() {
    let b = DynamicUniformBufferBuilder::new(32).with_member("a", UniformType::U32);
    assert!(b.has_member("a"));
    assert!(!b.has_member("b"));
    let u = b.with_member("b", UniformType::F32x2).build();
    assert_eq!(u.member_type("a"), Some(UniformType::U32));
    assert_eq!(u.member_type("b"), Some(UniformType::F32x2));
}
