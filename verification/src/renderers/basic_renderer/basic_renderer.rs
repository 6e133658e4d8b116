//! The descriptor of a basic renderer and the WGSL shader generated from it.

use vstd::prelude::*;
use super::dynamic_vertex::wgsl::wgsl_vertex::{
    color_expr_spec, hardcoded_vertices_spec, position_expr_spec, type_of,
    uv_expr_spec, vertex_input_spec, vertex_output_spec, wgsl_entries,
};
use super::dynamic_vertex::vertex::layout_attribute;
use super::dynamic_vertex::{DynamicVertexDescriptor, VertexBufferLayoutBuilder};
use super::text::{contains_text, decimal, join, join_strings, lemma_contains_text_extend, lemma_join_contains, push_decimal, views};
use super::uniform::dynamic_uniform::{transform_matrix_expr_spec, uniform_color_expr_spec, uniform_struct_spec};
use super::uniform::DynamicUniformBuffer;

verus! {

pub const UNIFORMS_BIND_GROUP_INDEX: u32 = 0;
pub const UNIFORMS_BINDING_INDEX: u32 = 0;

pub const TEXTURE_BIND_GROUP_INDEX: u32 = 1;
pub const TEXTURE_BINDING_INDEX: u32 = 0;
pub const SAMPLER_BINDING_INDEX: u32 = 1;

/// Configuration descriptor for creating a basic renderer.
///
/// It defines the vertex layout, whether uniforms and textures are used, depth testing, and
/// whether to use hardcoded vertices or custom shader code.
#[derive(Debug)]
pub struct BasicRendererDescriptor {
    /// The layout of the vertex data, from which the vertex input struct of the generated
    /// shader and the pipeline's vertex layout are made.
    pub vertex_format: DynamicVertexDescriptor,
    /// If provided, the generated shader expects a `Uniforms` struct with these members in
    /// bind group 0, binding 0.
    pub uniform_buffer: Option<DynamicUniformBuffer>,
    /// If true, the generated shader expects a texture in bind group 1, binding 0, and a
    /// sampler in bind group 1, binding 1, and samples the texture at the `uv` attribute.
    pub has_texture: bool,
    /// If true, the pipeline tests depth against a `Depth32Float` depth texture.
    pub has_depth: bool,
    /// If provided, the vertex data that is written into the generated shader as a constant
    /// array instead of being read from a vertex buffer.
    pub hardcoded_vertices: Option<Vec<u8>>,
    /// If provided, this WGSL is used as the shader instead of the generated one.
    pub custom_shader: Option<String>,
}

impl Default for BasicRendererDescriptor {
    fn default() -> (d: Self)
        ensures
            d.vertex_format.stride == 0,
            d.vertex_format._align == 0,
            d.vertex_format.attributes@.len() == 0,
            d.uniform_buffer is None,
            !d.has_texture,
            !d.has_depth,
            d.hardcoded_vertices is None,
            d.custom_shader is None,
    {
        BasicRendererDescriptor {
            vertex_format: DynamicVertexDescriptor::default(),
            uniform_buffer: None,
            has_texture: false,
            has_depth: false,
            hardcoded_vertices: None,
            custom_shader: None,
        }
    }
}

/// A resource declaration at bind group `group`, binding `binding`.
pub open spec fn binding_line(group: u32, binding: u32, decl: Seq<char>) -> Seq<char> {
    "@group("@ + decimal(group as nat) + ") @binding("@ + decimal(binding as nat) + ") "@ + decl
}

/// The declaration of the uniform struct variable.
pub open spec fn uniforms_binding_line() -> Seq<char> {
    binding_line(UNIFORMS_BIND_GROUP_INDEX, UNIFORMS_BINDING_INDEX, "var<uniform> uniforms: Uniforms;"@)
}

/// The declaration of the texture variable.
pub open spec fn texture_binding_line() -> Seq<char> {
    binding_line(TEXTURE_BIND_GROUP_INDEX, TEXTURE_BINDING_INDEX, "var tex: texture_2d<f32>;"@)
}

/// The declaration of the sampler variable.
pub open spec fn sampler_binding_line() -> Seq<char> {
    binding_line(TEXTURE_BIND_GROUP_INDEX, SAMPLER_BINDING_INDEX, "var tex_sampler: sampler;"@)
}

/// The lines that declare the uniforms, when there are any.
pub open spec fn uniform_lines(u: Option<DynamicUniformBuffer>) -> Seq<Seq<char>> {
    match u {
        Some(ub) => seq![uniform_struct_spec("Uniforms"@, ub.members()), Seq::empty(), uniforms_binding_line(), Seq::empty()],
        None => Seq::empty(),
    }
}

/// The lines that declare the texture and its sampler, when there is a texture.
pub open spec fn texture_lines(has_texture: bool) -> Seq<Seq<char>> {
    if has_texture {
        seq![texture_binding_line(), sampler_binding_line(), Seq::empty()]
    } else {
        Seq::empty()
    }
}

/// The lines that declare the hardcoded vertices, when there are any.
pub open spec fn hardcoded_lines(hardcoded: bool, vertices: Seq<Seq<char>>) -> Seq<Seq<char>> {
    if hardcoded {
        seq![hardcoded_vertices_spec(vertices), Seq::empty()]
    } else {
        Seq::empty()
    }
}

/// The transform matrix expression of the uniforms, if any.
pub open spec fn transform_of(u: Option<DynamicUniformBuffer>) -> Option<Seq<char>> {
    match u {
        Some(ub) => transform_matrix_expr_spec(ub.members()),
        None => None,
    }
}

/// The colour expression of the uniforms, if any.
pub open spec fn uniform_color_of(u: Option<DynamicUniformBuffer>) -> Option<Seq<char>> {
    match u {
        Some(ub) => uniform_color_expr_spec(ub.members()),
        None => None,
    }
}

/// The lines of the vertex shader entry point `vs_main`.
pub open spec fn vertex_fn_lines(d: BasicRendererDescriptor) -> Seq<Seq<char>> {
    let es = wgsl_entries(d.vertex_format.attributes@);
    let matmul = match transform_of(d.uniform_buffer) {
        Some(e) => e + " *"@,
        None => Seq::empty(),
    };
    seq!["@vertex"@]
        + (if d.hardcoded_vertices is Some {
            seq![
                "fn vs_main(@builtin(vertex_index) vertex_index: u32) -> VertexOutput {"@,
                "    let in = hardcoded_vertices[vertex_index];"@,
            ]
        } else {
            seq!["fn vs_main(in: VertexInput) -> VertexOutput {"@]
        })
        + seq!["    var out: VertexOutput;"@, "    out.position = "@ + matmul + position_expr_spec(type_of(es, "position"@)) + ";"@]
        + (if type_of(es, "color"@) is Some {
            seq!["    out.color = "@ + color_expr_spec(type_of(es, "color"@))->0 + ";"@]
        } else {
            Seq::empty()
        })
        + (if type_of(es, "uv"@) is Some {
            seq!["    out.uv = "@ + uv_expr_spec(type_of(es, "uv"@))->0 + ";"@]
        } else {
            Seq::empty()
        })
        + seq!["    return out;"@, "}"@, Seq::empty()]
}

/// The factors of the fragment colour: the uniform colour, the vertex colour and the texture
/// sample, each when present; plain white when none is.
pub open spec fn color_terms(d: BasicRendererDescriptor) -> Seq<Seq<char>> {
    let es = wgsl_entries(d.vertex_format.attributes@);
    let terms = (match uniform_color_of(d.uniform_buffer) {
        Some(e) => seq![e],
        None => Seq::empty(),
    }) + (if type_of(es, "color"@) is Some { seq!["in.color"@] } else { Seq::empty() })
        + (if d.has_texture { seq!["textureSample(tex, tex_sampler, in.uv)"@] } else { Seq::empty() });
    if terms.len() == 0 {
        seq!["vec4<f32>(1.0, 1.0, 1.0, 1.0)"@]
    } else {
        terms
    }
}

/// The lines of the fragment shader entry point `fs_main`.
pub open spec fn fragment_fn_lines(d: BasicRendererDescriptor) -> Seq<Seq<char>> {
    seq![
        "@fragment"@,
        "fn fs_main(in: VertexOutput) -> @location(0) vec4<f32> {"@,
        "    return "@ + join(color_terms(d), " * "@) + ";"@,
        "}"@,
    ]
}

/// The lines of the generated shader, given the WGSL constructors of the hardcoded vertices.
pub open spec fn shader_lines(d: BasicRendererDescriptor, vertices: Seq<Seq<char>>) -> Seq<Seq<char>> {
    let es = wgsl_entries(d.vertex_format.attributes@);
    let hardcoded = d.hardcoded_vertices is Some;
    seq![vertex_input_spec(es, !hardcoded), vertex_output_spec(es)]
        + uniform_lines(d.uniform_buffer)
        + texture_lines(d.has_texture)
        + hardcoded_lines(hardcoded, vertices)
        + vertex_fn_lines(d)
        + fragment_fn_lines(d)
}

/// Whether the special attributes that the generated shader reads have float types: a
/// `color` or `uv` attribute of an integer type has no WGSL expression.
pub open spec fn special_attributes_readable(d: BasicRendererDescriptor) -> bool {
    let es = wgsl_entries(d.vertex_format.attributes@);
    &&& type_of(es, "color"@) is Some ==> color_expr_spec(type_of(es, "color"@)) is Some
    &&& type_of(es, "uv"@) is Some ==> uv_expr_spec(type_of(es, "uv"@)) is Some
}

fn push_line(lines: &mut Vec<String>, line: String)
    ensures
        views(final(lines)@) == views(old(lines)@).push(line@),
{
    lines.push(line);
    assert(views(lines@) =~= views(old(lines)@).push(line@));
}

fn push_str_line(lines: &mut Vec<String>, line: &str)
    ensures
        views(final(lines)@) == views(old(lines)@).push(line@),
{
    push_line(lines, String::from_str(line));
}

fn binding_decl(group: u32, binding: u32, decl: &str) -> (s: String)
    ensures
        s@ == binding_line(group, binding, decl@),
{
    let mut s = String::new();
    s.append("@group(");
    push_decimal(&mut s, group as u64);
    s.append(") @binding(");
    push_decimal(&mut s, binding as u64);
    s.append(") ");
    s.append(decl);
    s
}

/// A layout has an attribute of a given name exactly when its WGSL entries have one.
proof fn lemma_has_name(d: &DynamicVertexDescriptor, name: Seq<char>)
    ensures
        (super::dynamic_vertex::vertex::first_index_of(super::dynamic_vertex::vertex::attribute_names(d.attributes@), name) is Some)
            == (type_of(wgsl_entries(d.attributes@), name) is Some),
{
    super::dynamic_vertex::vertex::lemma_wgsl_names(d.attributes@);
}

impl BasicRendererDescriptor {
    /// Appends the declarations: vertex input and output structs, uniforms, texture and
    /// sampler, and hardcoded vertices.
    fn push_declarations(&self, lines: &mut Vec<String>, hardcoded_vertex_constructors: &Vec<String>)
        ensures
            views(final(lines)@) == views(old(lines)@) + (seq![
                vertex_input_spec(wgsl_entries(self.vertex_format.attributes@), !(self.hardcoded_vertices is Some)),
                vertex_output_spec(wgsl_entries(self.vertex_format.attributes@)),
            ] + uniform_lines(self.uniform_buffer) + texture_lines(self.has_texture)
                + hardcoded_lines(self.hardcoded_vertices is Some, views(hardcoded_vertex_constructors@))),
    {
        proof {
            reveal_strlit("");
        }
        assert(""@ =~= Seq::<char>::empty());
        let hardcoded = self.hardcoded_vertices.is_some();
        push_line(lines, self.vertex_format.code_gen_vertex_input(!hardcoded));
        push_line(lines, self.vertex_format.code_gen_vertex_output());
        match self.uniform_buffer.as_ref() {
            Some(ub) => {
                push_line(lines, ub.code_gen_uniform_struct("Uniforms"));
                push_str_line(lines, "");
                push_line(lines, binding_decl(UNIFORMS_BIND_GROUP_INDEX, UNIFORMS_BINDING_INDEX, "var<uniform> uniforms: Uniforms;"));
                push_str_line(lines, "");
            },
            None => {},
        }
        let ghost part2 = views(lines@);
        if self.has_texture {
            push_line(lines, binding_decl(TEXTURE_BIND_GROUP_INDEX, TEXTURE_BINDING_INDEX, "var tex: texture_2d<f32>;"));
            push_line(lines, binding_decl(TEXTURE_BIND_GROUP_INDEX, SAMPLER_BINDING_INDEX, "var tex_sampler: sampler;"));
            push_str_line(lines, "");
        }
        let ghost part3 = views(lines@);
        assert(part3 =~= part2 + texture_lines(self.has_texture));
        if hardcoded {
            push_line(lines, self.vertex_format.code_gen_hardcoded_vertices(hardcoded_vertex_constructors));
            push_str_line(lines, "");
        }
        assert(views(lines@) =~= part3 + hardcoded_lines(hardcoded, views(hardcoded_vertex_constructors@)));
    }

    /// Appends the vertex shader entry point.
    fn push_vertex_fn(&self, lines: &mut Vec<String>)
        requires
            special_attributes_readable(*self),
        ensures
            views(final(lines)@) == views(old(lines)@) + vertex_fn_lines(*self),
    {
        proof {
            reveal_strlit("");
            lemma_has_name(&self.vertex_format, "color"@);
            lemma_has_name(&self.vertex_format, "uv"@);
        }
        assert(""@ =~= Seq::<char>::empty());
        let ghost start = views(lines@);
        let has_color = self.vertex_format.index_of("color").is_some();
        let has_uv = self.vertex_format.index_of("uv").is_some();
        let transform_matrix_expr = match self.uniform_buffer.as_ref() {
            Some(ub) => ub.transform_matrix_expr(),
            None => None,
        };
        push_str_line(lines, "@vertex");
        if self.hardcoded_vertices.is_some() {
            push_str_line(lines, "fn vs_main(@builtin(vertex_index) vertex_index: u32) -> VertexOutput {");
            push_str_line(lines, "    let in = hardcoded_vertices[vertex_index];");
        } else {
            push_str_line(lines, "fn vs_main(in: VertexInput) -> VertexOutput {");
        }
        push_str_line(lines, "    var out: VertexOutput;");
        let mut position_line = String::from_str("    out.position = ");
        match &transform_matrix_expr {
            Some(expr) => {
                position_line.append(expr.as_str());
                position_line.append(" *");
            },
            None => {},
        }
        let position_expr = self.vertex_format.code_gen_position_expr();
        position_line.append(position_expr.as_str());
        position_line.append(";");
        let ghost es = wgsl_entries(self.vertex_format.attributes@);
        let ghost matmul = match transform_of(self.uniform_buffer) {
            Some(e) => e + " *"@,
            None => Seq::empty(),
        };
        assert(position_line@ =~= "    out.position = "@ + matmul + position_expr_spec(type_of(es, "position"@)) + ";"@);
        push_line(lines, position_line);
        let ghost part1 = views(lines@);
        assert(part1 =~= start + seq!["@vertex"@]
            + (if self.hardcoded_vertices is Some {
                seq![
                    "fn vs_main(@builtin(vertex_index) vertex_index: u32) -> VertexOutput {"@,
                    "    let in = hardcoded_vertices[vertex_index];"@,
                ]
            } else {
                seq!["fn vs_main(in: VertexInput) -> VertexOutput {"@]
            })
            + seq!["    var out: VertexOutput;"@, "    out.position = "@ + matmul + position_expr_spec(type_of(es, "position"@)) + ";"@]);
        if has_color {
            let mut line = String::from_str("    out.color = ");
            let expr = self.vertex_format.code_gen_color_expr().unwrap();
            line.append(expr.as_str());
            line.append(";");
            push_line(lines, line);
        }
        if has_uv {
            let mut line = String::from_str("    out.uv = ");
            let expr = self.vertex_format.code_gen_uv_expr().unwrap();
            line.append(expr.as_str());
            line.append(";");
            push_line(lines, line);
        }
        push_str_line(lines, "    return out;");
        push_str_line(lines, "}");
        push_str_line(lines, "");
        assert(views(lines@) =~= start + vertex_fn_lines(*self));
    }

    /// Appends the fragment shader entry point.
    fn push_fragment_fn(&self, lines: &mut Vec<String>)
        ensures
            views(final(lines)@) == views(old(lines)@) + fragment_fn_lines(*self),
    {
        proof {
            lemma_has_name(&self.vertex_format, "color"@);
        }
        let ghost start = views(lines@);
        let has_color = self.vertex_format.index_of("color").is_some();
        let uniform_color_expr = match self.uniform_buffer.as_ref() {
            Some(ub) => ub.uniform_color_expr(),
            None => None,
        };
        push_str_line(lines, "@fragment");
        push_str_line(lines, "fn fs_main(in: VertexOutput) -> @location(0) vec4<f32> {");
        let mut color_exprs: Vec<String> = Vec::new();
        match uniform_color_expr {
            Some(expr) => push_line(&mut color_exprs, expr),
            None => {},
        }
        if has_color {
            push_str_line(&mut color_exprs, "in.color");
        }
        if self.has_texture {
            push_str_line(&mut color_exprs, "textureSample(tex, tex_sampler, in.uv)");
        }
        if color_exprs.len() == 0 {
            push_str_line(&mut color_exprs, "vec4<f32>(1.0, 1.0, 1.0, 1.0)");
        }
        assert(views(color_exprs@) =~= color_terms(*self));
        let color_expr = join_strings(&color_exprs, " * ");
        let mut return_line = String::from_str("    return ");
        return_line.append(color_expr.as_str());
        return_line.append(";");
        push_line(lines, return_line);
        push_str_line(lines, "}");
        assert(views(lines@) =~= start + fragment_fn_lines(*self));
    }

    /// Generates the WGSL shader for this descriptor, given the WGSL constructor of each
    /// hardcoded vertex (used only when there are hardcoded vertices): the vertex input and
    /// output structs, the uniform, texture and sampler declarations, the hardcoded vertex
    /// array, then `vs_main` and `fs_main`, one per line.
    pub fn create_shader_code(&self, hardcoded_vertex_constructors: &Vec<String>) -> (code: String)
        requires
            special_attributes_readable(*self),
        ensures
            code@ == join(shader_lines(*self, views(hardcoded_vertex_constructors@)), "\n"@),
    {
        let mut code_lines: Vec<String> = Vec::new();
        self.push_declarations(&mut code_lines, hardcoded_vertex_constructors);
        self.push_vertex_fn(&mut code_lines);
        self.push_fragment_fn(&mut code_lines);
        assert(views(code_lines@) =~= shader_lines(*self, views(hardcoded_vertex_constructors@)));
        join_strings(&code_lines, "\n")
    }
}

impl BasicRendererDescriptor {
    /// The shader source of the pipeline: the custom shader when one is given, otherwise the
    /// generated shader.
    pub fn shader_code(&self, hardcoded_vertex_constructors: &Vec<String>) -> (code: String)
        requires
            self.custom_shader is None ==> special_attributes_readable(*self),
        ensures
            code@ == match self.custom_shader {
                Some(custom) => custom@,
                None => join(shader_lines(*self, views(hardcoded_vertex_constructors@)), "\n"@),
            },
    {
        match &self.custom_shader {
            Some(custom) => custom.clone(),
            None => self.create_shader_code(hardcoded_vertex_constructors),
        }
    }
}

impl BasicRendererDescriptor {
    /// The vertex buffer layouts of the pipeline: none when the vertices are hardcoded in the
    /// shader, otherwise the layout of the vertex format.
    pub fn vertex_buffer_layouts(&self) -> (v: Vec<VertexBufferLayoutBuilder>)
        ensures
            self.hardcoded_vertices is Some ==> v@.len() == 0,
            self.hardcoded_vertices is None ==> {
                &&& v@.len() == 1
                &&& v@[0].array_stride == self.vertex_format.stride as u64
                &&& v@[0].attributes@.len() == self.vertex_format.attributes@.len()
                &&& forall|i: int| 0 <= i < v@[0].attributes@.len() ==>
                    #[trigger] v@[0].attributes@[i] == layout_attribute(i, self.vertex_format.attributes@[i])
            },
    {
        let mut v: Vec<VertexBufferLayoutBuilder> = Vec::new();
        if self.hardcoded_vertices.is_none() {
            v.push(self.vertex_format.vertex_buffer_layout_builder());
        }
        v
    }
}

/// The generated shader declares the `Uniforms` struct and its binding when the descriptor
/// has a uniform buffer, the texture and sampler bindings when it has a texture, and the
/// hardcoded vertex array when it has hardcoded vertices.
pub proof fn lemma_shader_declarations(d: BasicRendererDescriptor, vertices: Seq<Seq<char>>)
    ensures
        d.uniform_buffer matches Some(u) ==> {
            &&& shader_lines(d, vertices).contains(uniform_struct_spec("Uniforms"@, u.members()))
            &&& shader_lines(d, vertices).contains(uniforms_binding_line())
        },
        d.has_texture ==> {
            &&& shader_lines(d, vertices).contains(texture_binding_line())
            &&& shader_lines(d, vertices).contains(sampler_binding_line())
        },
        d.hardcoded_vertices is Some ==> shader_lines(d, vertices).contains(hardcoded_vertices_spec(vertices)),
{
    let lines = shader_lines(d, vertices);
    let u = uniform_lines(d.uniform_buffer).len() as int;
    let t = texture_lines(d.has_texture).len() as int;
    if d.uniform_buffer is Some {
        assert(lines[2] == uniform_lines(d.uniform_buffer)[0]);
        assert(lines[4] == uniform_lines(d.uniform_buffer)[2]);
    }
    if d.has_texture {
        assert(lines[2 + u] == texture_binding_line());
        assert(lines[3 + u] == sampler_binding_line());
    }
    if d.hardcoded_vertices is Some {
        assert(lines[2 + u + t] == hardcoded_vertices_spec(vertices));
    }
}

/// The factors of the colour that the generated fragment shader returns: it multiplies the
/// uniform colour when the uniforms give one, the vertex colour `in.color` whenever the vertex
/// layout has a `color` attribute, and the texture sample whenever the renderer has a texture;
/// with none of these it returns opaque white.
pub proof fn lemma_fragment_colour_factors(d: BasicRendererDescriptor, vertices: Seq<Seq<char>>)
    ensures
        shader_lines(d, vertices).len() >= 2,
        ({
            let lines = shader_lines(d, vertices);
            let ret = lines[lines.len() - 2];
            &&& ret.take(11) == "    return "@
            &&& super::dynamic_vertex::vertex::first_index_of(
                super::dynamic_vertex::vertex::attribute_names(d.vertex_format.attributes@), "color"@) is Some
                ==> contains_text(ret, "in.color"@)
            &&& d.has_texture ==> contains_text(ret, "textureSample(tex, tex_sampler, in.uv)"@)
            &&& (uniform_color_of(d.uniform_buffer) matches Some(e) ==> contains_text(ret, e))
            &&& (super::dynamic_vertex::vertex::first_index_of(
                    super::dynamic_vertex::vertex::attribute_names(d.vertex_format.attributes@), "color"@) is None
                && !d.has_texture && uniform_color_of(d.uniform_buffer) is None)
                ==> ret == "    return vec4<f32>(1.0, 1.0, 1.0, 1.0);"@
        }),
{
    lemma_has_name(&d.vertex_format, "color"@);
    let lines = shader_lines(d, vertices);
    let f = fragment_fn_lines(d);
    assert(lines[lines.len() - 2] == f[2]);
    let terms = color_terms(d);
    let sep = " * "@;
    let head = "    return "@;
    let tail = ";"@;
    reveal_strlit("    return ");
    assert(f[2] == head + join(terms, sep) + tail);
    assert(f[2].take(11) =~= head);
    let es = wgsl_entries(d.vertex_format.attributes@);
    let u: Seq<Seq<char>> = match uniform_color_of(d.uniform_buffer) {
        Some(e) => seq![e],
        None => Seq::empty(),
    };
    let c: Seq<Seq<char>> = if type_of(es, "color"@) is Some { seq!["in.color"@] } else { Seq::empty() };
    let t: Seq<Seq<char>> = if d.has_texture { seq!["textureSample(tex, tex_sampler, in.uv)"@] } else { Seq::empty() };
    let all = u + c + t;
    if all.len() > 0 {
        assert(terms == all);
        if type_of(es, "color"@) is Some {
            assert(all[u.len() as int] == "in.color"@);
            lemma_join_contains(terms, sep, u.len() as int);
            lemma_contains_text_extend(join(terms, sep), "in.color"@, head, tail);
        }
        if d.has_texture {
            assert(all[(u.len() + c.len()) as int] == "textureSample(tex, tex_sampler, in.uv)"@);
            lemma_join_contains(terms, sep, (u.len() + c.len()) as int);
            lemma_contains_text_extend(join(terms, sep), "textureSample(tex, tex_sampler, in.uv)"@, head, tail);
        }
        if uniform_color_of(d.uniform_buffer) is Some {
            assert(all[0] == uniform_color_of(d.uniform_buffer)->0);
            lemma_join_contains(terms, sep, 0);
            lemma_contains_text_extend(join(terms, sep), uniform_color_of(d.uniform_buffer)->0, head, tail);
        }
    } else {
        assert(terms == seq!["vec4<f32>(1.0, 1.0, 1.0, 1.0)"@]);
        reveal_strlit("    return vec4<f32>(1.0, 1.0, 1.0, 1.0);");
        reveal_strlit("vec4<f32>(1.0, 1.0, 1.0, 1.0)");
        reveal_strlit(";");
        assert(f[2] =~= "    return vec4<f32>(1.0, 1.0, 1.0, 1.0);"@);
    }
}

/// The label of a renderer's part: `label.suffix`, or just `suffix` when the renderer has no label.
pub fn make_label(label: &Option<String>, suffix: &str) -> (r: Option<String>)
    ensures
        r matches Some(s) && s@ == match label {
            Some(l) => l@ + "."@ + suffix@,
            None => suffix@,
        },
{
    match label {
        Some(l) => {
            let mut s = l.clone();
            s.append(".");
            s.append(suffix);
            Some(s)
        },
        None => Some(String::from_str(suffix)),
    }
}

/// The steps of one render pass of a basic renderer.
#[derive(Debug, Clone, Copy, PartialEq, Eq, Structural)]
pub struct RenderPlan {
    /// Attach the depth view (loaded and stored) to the pass.
    pub depth_attachment: bool,
    /// Set the viewport that was given.
    pub set_viewport: bool,
    /// Bind the uniforms' bind group.
    pub bind_uniforms: bool,
    /// Bind the texture's bind group.
    pub bind_texture: bool,
    /// Bind the vertex buffer that was given.
    pub set_vertex_buffer: bool,
    /// Issue the draw call.
    pub draw: bool,
}

/// Decides the steps of a render pass: depth is attached when the renderer tests depth (a
/// depth view must then be given), the viewport, uniforms and vertex buffer are set when
/// present, and a renderer that samples a texture binds it and draws only once a texture view
/// has been set.
pub fn plan_render(
    has_depth: bool,
    has_depth_view: bool,
    has_viewport: bool,
    has_uniforms: bool,
    has_texture_data: bool,
    has_texture_bind_group: bool,
    has_buffer: bool,
) -> (p: RenderPlan)
    requires
        has_depth ==> has_depth_view,
    ensures
        p.depth_attachment == has_depth,
        p.set_viewport == has_viewport,
        p.bind_uniforms == has_uniforms,
        p.bind_texture == (has_texture_data && has_texture_bind_group),
        p.set_vertex_buffer == has_buffer,
        p.draw == (!has_texture_data || has_texture_bind_group),
{
    let mut draw = true;
    let mut bind_texture = false;
    if has_texture_data {
        draw = false;
        if has_texture_bind_group {
            bind_texture = true;
            draw = true;
        }
    }
    RenderPlan {
        depth_attachment: has_depth,
        set_viewport: has_viewport,
        bind_uniforms: has_uniforms,
        bind_texture,
        set_vertex_buffer: has_buffer,
        draw,
    }
}

/// The number of whole vertices of `stride` bytes in `byte_len` bytes, as a 32-bit count
/// (truncated to 32 bits).
pub fn vertex_count(byte_len: usize, stride: usize) -> (n: u32)
    requires
        stride > 0,
    ensures
        n == (byte_len / stride) as u32,
{
    (byte_len / stride) as u32
}

} // verus!
