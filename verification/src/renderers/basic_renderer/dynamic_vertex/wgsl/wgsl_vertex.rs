//! The WGSL vertex input and output structs, and the expressions that read the special
//! attributes `position`, `color` and `uv`.

use vstd::prelude::*;
use super::super::vertex::{first_index_of, lemma_first_index_of, DynamicVertexDescriptor, NamedAttributeDescriptor};
use super::wgsl_attribute::{has_f32_components, WgslAttributeType};
use crate::renderers::basic_renderer::text::{decimal, push_decimal};

verus! {

/// Attaches a name to an attribute type for placement in a vertex struct.
#[derive(Debug)]
struct NamedWgslAttributeDescriptor {
    name: String,
    attribute: WgslAttributeType,
}

/// The names of a list of named attribute types, in order.
pub open spec fn entry_names(entries: Seq<(Seq<char>, WgslAttributeType)>) -> Seq<Seq<char>> {
    entries.map_values(|e: (Seq<char>, WgslAttributeType)| e.0)
}

/// The type of the first entry named `name`, if any.
pub open spec fn type_of(entries: Seq<(Seq<char>, WgslAttributeType)>, name: Seq<char>) -> Option<WgslAttributeType> {
    match first_index_of(entry_names(entries), name) {
        Some(i) => Some(entries[i as int].1),
        None => None,
    }
}

/// The WGSL attributes of a vertex layout: each attribute's name with the type it is read as.
pub open spec fn wgsl_entries(attributes: Seq<NamedAttributeDescriptor>) -> Seq<(Seq<char>, WgslAttributeType)> {
    attributes.map_values(|a: NamedAttributeDescriptor| (a.name@, WgslAttributeType::of_format(a.format)))
}

/// The field of the vertex input struct for entry `e` at location `i`.
pub open spec fn input_field(i: nat, e: (Seq<char>, WgslAttributeType), with_locations: bool) -> Seq<char> {
    "    "@ + (if with_locations { "@location("@ + decimal(i) + ") "@ } else { Seq::empty() }) + e.0 + ": "@
        + e.1.wgsl() + ",\n"@
}

/// The fields of the vertex input struct, one per entry, at locations 0, 1, 2, ...
pub open spec fn input_fields(entries: Seq<(Seq<char>, WgslAttributeType)>, with_locations: bool) -> Seq<char>
    decreases entries.len(),
{
    if entries.len() == 0 {
        Seq::empty()
    } else {
        input_fields(entries.drop_last(), with_locations)
            + input_field((entries.len() - 1) as nat, entries.last(), with_locations)
    }
}

/// The WGSL declaration of the vertex input struct.
pub open spec fn vertex_input_spec(entries: Seq<(Seq<char>, WgslAttributeType)>, with_locations: bool) -> Seq<char> {
    "struct VertexInput {\n"@ + input_fields(entries, with_locations) + "}\n"@
}

/// The WGSL declaration of the vertex output struct: the clip position, then a colour at
/// location 0 when there is a `color` attribute and texture coordinates at location 1 when
/// there is a `uv` attribute.
pub open spec fn vertex_output_spec(entries: Seq<(Seq<char>, WgslAttributeType)>) -> Seq<char> {
    "struct VertexOutput {\n"@ + "    @builtin(position) position: vec4<f32>,\n"@
        + (if type_of(entries, "color"@) is Some { "    @location(0) color: vec4<f32>,\n"@ } else { Seq::empty() })
        + (if type_of(entries, "uv"@) is Some { "    @location(1) uv: vec2<f32>,\n"@ } else { Seq::empty() })
        + "}\n"@
}

/// The clip position read from a `position` attribute of type `t`: missing x, y, z components
/// are 0.0 and a missing w is 1.0; without a float `position` attribute, the origin.
pub open spec fn position_expr_spec(t: Option<WgslAttributeType>) -> Seq<char> {
    match t {
        Some(WgslAttributeType::F32) => "vec4<f32>(in.position, 0.0, 0.0, 1.0)"@,
        Some(WgslAttributeType::F32x2) => "vec4<f32>(in.position, 0.0, 1.0)"@,
        Some(WgslAttributeType::F32x3) => "vec4<f32>(in.position, 1.0)"@,
        Some(WgslAttributeType::F32x4) => "in.position"@,
        _ => "vec4<f32>(0.0, 0.0, 0.0, 1.0)"@,
    }
}

/// The RGBA colour read from a float `color` attribute of type `t`: grey, grey and alpha,
/// RGB with alpha 1.0, or RGBA.
pub open spec fn color_expr_spec(t: Option<WgslAttributeType>) -> Option<Seq<char>> {
    match t {
        Some(WgslAttributeType::F32) => Some("vec4<f32>(vec3(in.color), 1.0)"@),
        Some(WgslAttributeType::F32x2) => Some("vec4<f32>(vec3(in.color.x), in.color.y)"@),
        Some(WgslAttributeType::F32x3) => Some("vec4<f32>(in.color, 1.0)"@),
        Some(WgslAttributeType::F32x4) => Some("in.color"@),
        _ => None,
    }
}

/// The texture coordinates read from a float `uv` attribute of type `t`: its first two
/// components (a single component is repeated).
pub open spec fn uv_expr_spec(t: Option<WgslAttributeType>) -> Option<Seq<char>> {
    match t {
        Some(WgslAttributeType::F32) => Some("vec2(in.uv)"@),
        Some(WgslAttributeType::F32x2) => Some("in.uv"@),
        Some(WgslAttributeType::F32x3) => Some("in.uv.xy"@),
        Some(WgslAttributeType::F32x4) => Some("in.uv.xy"@),
        _ => None,
    }
}

/// The texts made of `pre`, an input field and `post`: with the field `in.position`, and with
/// `in.color`.
pub open spec fn position_to_colour(pre: Seq<char>, post: Seq<char>) -> (Seq<char>, Seq<char>) {
    (pre + "in.position"@ + post, pre + "in.color"@ + post)
}

/// A colour of three or four float components is made RGBA just as a position of the same
/// type is made a clip position: the input vector is kept whole, components in order, and a
/// missing fourth component is 1.0. So the colour expression is the position expression
/// with `in.position` replaced by `in.color`.
pub proof fn lemma_colour_like_position(t: WgslAttributeType)
    ensures
        has_f32_components(t) && t.component_count() >= 3 ==> exists|pre: Seq<char>, post: Seq<char>|
            #![trigger position_to_colour(pre, post)]
            position_to_colour(pre, post) == (position_expr_spec(Some(t)), color_expr_spec(Some(t))->0)
                && color_expr_spec(Some(t)) is Some,
{
    reveal_strlit("in.position");
    reveal_strlit("in.color");
    if t == WgslAttributeType::F32x3 {
        reveal_strlit("vec4<f32>(in.position, 1.0)");
        reveal_strlit("vec4<f32>(in.color, 1.0)");
        reveal_strlit("vec4<f32>(");
        reveal_strlit(", 1.0)");
        let pre = "vec4<f32>("@;
        let post = ", 1.0)"@;
        assert(pre + "in.position"@ + post =~= "vec4<f32>(in.position, 1.0)"@);
        assert(pre + "in.color"@ + post =~= "vec4<f32>(in.color, 1.0)"@);
        assert(position_to_colour(pre, post) == (position_expr_spec(Some(t)), color_expr_spec(Some(t))->0));
    } else if t == WgslAttributeType::F32x4 {
        let pre = Seq::<char>::empty();
        let post = Seq::<char>::empty();
        assert(pre + "in.position"@ + post =~= "in.position"@);
        assert(pre + "in.color"@ + post =~= "in.color"@);
        assert(position_to_colour(pre, post) == (position_expr_spec(Some(t)), color_expr_spec(Some(t))->0));
    }
}

/// Describes a WGSL vertex layout. Location bindings are implicitly assigned based on the
/// order of attributes.
#[derive(Debug)]
pub struct WgslVertexDescriptor {
    attributes: Vec<NamedWgslAttributeDescriptor>,
}

spec fn views_of(attributes: Seq<NamedWgslAttributeDescriptor>) -> Seq<(Seq<char>, WgslAttributeType)> {
    attributes.map_values(|a: NamedWgslAttributeDescriptor| (a.name@, a.attribute))
}

impl WgslVertexDescriptor {
    /// The attributes, in order, by name and WGSL type.
    pub closed spec fn entries(self) -> Seq<(Seq<char>, WgslAttributeType)> {
        views_of(self.attributes@)
    }

    /// The WGSL attributes of a vertex layout.
    pub fn from_descriptor(value: &DynamicVertexDescriptor) -> (w: Self)
        ensures
            w.entries() == wgsl_entries(value.attributes@),
    {
        let mut attributes: Vec<NamedWgslAttributeDescriptor> = Vec::new();
        let mut i: usize = 0;
        while i < value.attributes.len()
            invariant
                i <= value.attributes@.len(),
                views_of(attributes@) == wgsl_entries(value.attributes@.take(i as int)),
            decreases value.attributes@.len() - i,
        {
            let a = &value.attributes[i];
            let ghost before = attributes@;
            let entry = NamedWgslAttributeDescriptor {
                name: a.name.clone(),
                attribute: WgslAttributeType::from_vertex_format(a.format),
            };
            assert(entry.name@ == value.attributes@[i as int].name@);
            attributes.push(entry);
            assert(attributes@ == before.push(entry));
            assert(views_of(attributes@) =~= views_of(before).push((entry.name@, entry.attribute)));
            assert(value.attributes@.take(i + 1) =~= value.attributes@.take(i as int).push(value.attributes@[i as int]));
            assert(views_of(attributes@) =~= wgsl_entries(value.attributes@.take(i + 1)));
            i = i + 1;
        }
        assert(value.attributes@.take(value.attributes@.len() as int) =~= value.attributes@);
        Self { attributes }
    }

    /// Returns the index of the attribute with the given name.
    pub fn index_of(&self, attr_name: &str) -> (r: Option<usize>)
        ensures
            r matches Some(i) ==> Some(i as nat) == first_index_of(entry_names(self.entries()), attr_name@),
            r is None <==> first_index_of(entry_names(self.entries()), attr_name@) is None,
    {
        let key = String::from_str(attr_name);
        let ghost names = entry_names(self.entries());
        proof {
            lemma_first_index_of(names, attr_name@);
        }
        let mut i: usize = 0;
        while i < self.attributes.len()
            invariant
                i <= self.attributes@.len(),
                names == entry_names(self.entries()),
                names.len() == self.attributes@.len(),
                key@ == attr_name@,
                forall|j: int| 0 <= j < i ==> names[j] != attr_name@,
                first_index_of(names, attr_name@) matches Some(k) ==> k < names.len() && names[k as int] == attr_name@
                    && forall|j: int| 0 <= j < k ==> names[j] != attr_name@,
                first_index_of(names, attr_name@) is None ==> forall|j: int| 0 <= j < names.len() ==> names[j] != attr_name@,
            decreases self.attributes@.len() - i,
        {
            assert(names[i as int] == self.attributes@[i as int].name@);
            if self.attributes[i].name == key {
                proof {
                    if first_index_of(names, attr_name@) is Some {
                        let k = first_index_of(names, attr_name@)->0;
                        if k < i { assert(names[k as int] != attr_name@); }
                        if k > i { assert(names[i as int] == attr_name@); }
                    }
                }
                return Some(i);
            }
            i = i + 1;
        }
        proof {
            if first_index_of(names, attr_name@) is Some {
                let k = first_index_of(names, attr_name@)->0;
                assert(names[k as int] != attr_name@);
            }
        }
        None
    }

    /// The type of the first attribute with the given name.
    fn type_of_name(&self, name: &str) -> (t: Option<WgslAttributeType>)
        ensures
            t == type_of(self.entries(), name@),
    {
        proof {
            lemma_first_index_of(entry_names(self.entries()), name@);
        }
        match self.index_of(name) {
            Some(i) => Some(self.attributes[i].attribute),
            None => None,
        }
    }

    /// Generates the WGSL code for the vertex input struct.
    pub fn code_gen_vertex_input(&self, with_locations: bool) -> (s: String)
        ensures
            s@ == vertex_input_spec(self.entries(), with_locations),
    {
        let mut s = String::new();
        s.append("struct VertexInput {\n");
        let ghost head = s@;
        let mut i: usize = 0;
        while i < self.attributes.len()
            invariant
                i <= self.attributes@.len(),
                head == "struct VertexInput {\n"@,
                s@ == head + input_fields(self.entries().take(i as int), with_locations),
            decreases self.attributes@.len() - i,
        {
            let ghost before = s@;
            s.append("    ");
            if with_locations {
                s.append("@location(");
                push_decimal(&mut s, i as u64);
                s.append(") ");
            }
            s.append(self.attributes[i].name.as_str());
            s.append(": ");
            s.append(self.attributes[i].attribute.to_string());
            s.append(",\n");
            proof {
                let t = self.entries().take(i + 1);
                assert(t.drop_last() =~= self.entries().take(i as int));
                assert(t.last() == (self.attributes@[i as int].name@, self.attributes@[i as int].attribute));
                assert(s@ =~= before + input_field(i as nat, t.last(), with_locations));
            }
            i = i + 1;
        }
        s.append("}\n");
        assert(self.entries().take(self.attributes@.len() as int) =~= self.entries());
        s
    }

    /// Generates the WGSL code for the vertex output struct.
    pub fn code_gen_vertex_output(&self) -> (s: String)
        ensures
            s@ == vertex_output_spec(self.entries()),
    {
        let mut s = String::new();
        s.append("struct VertexOutput {\n");
        s.append("    @builtin(position) position: vec4<f32>,\n");
        if self.type_of_name("color").is_some() {
            s.append("    @location(0) color: vec4<f32>,\n");
        }
        if self.type_of_name("uv").is_some() {
            s.append("    @location(1) uv: vec2<f32>,\n");
        }
        s.append("}\n");
        s
    }

    /// The clip position expression for the vertex shader's output (without the statement, as
    /// it may be combined with a transform matrix).
    pub fn code_gen_position_expr(&self) -> (s: String)
        ensures
            s@ == position_expr_spec(type_of(self.entries(), "position"@)),
    {
        match self.type_of_name("position") {
            Some(WgslAttributeType::F32) => String::from_str("vec4<f32>(in.position, 0.0, 0.0, 1.0)"),
            Some(WgslAttributeType::F32x2) => String::from_str("vec4<f32>(in.position, 0.0, 1.0)"),
            Some(WgslAttributeType::F32x3) => String::from_str("vec4<f32>(in.position, 1.0)"),
            Some(WgslAttributeType::F32x4) => String::from_str("in.position"),
            _ => String::from_str("vec4<f32>(0.0, 0.0, 0.0, 1.0)"),
        }
    }

    /// The colour expression for the vertex shader's output.
    pub fn code_gen_color_expr(&self) -> (e: Option<String>)
        ensures
            e matches Some(s) ==> Some(s@) == color_expr_spec(type_of(self.entries(), "color"@)),
            e is None <==> color_expr_spec(type_of(self.entries(), "color"@)) is None,
    {
        match self.type_of_name("color") {
            Some(WgslAttributeType::F32) => Some(String::from_str("vec4<f32>(vec3(in.color), 1.0)")),
            Some(WgslAttributeType::F32x2) => Some(String::from_str("vec4<f32>(vec3(in.color.x), in.color.y)")),
            Some(WgslAttributeType::F32x3) => Some(String::from_str("vec4<f32>(in.color, 1.0)")),
            Some(WgslAttributeType::F32x4) => Some(String::from_str("in.color")),
            _ => None,
        }
    }

    /// The texture coordinate expression for the vertex shader's output.
    pub fn code_gen_uv_expr(&self) -> (e: Option<String>)
        ensures
            e matches Some(s) ==> Some(s@) == uv_expr_spec(type_of(self.entries(), "uv"@)),
            e is None <==> uv_expr_spec(type_of(self.entries(), "uv"@)) is None,
    {
        match self.type_of_name("uv") {
            Some(WgslAttributeType::F32) => Some(String::from_str("vec2(in.uv)")),
            Some(WgslAttributeType::F32x2) => Some(String::from_str("in.uv")),
            Some(WgslAttributeType::F32x3) | Some(WgslAttributeType::F32x4) => Some(String::from_str("in.uv.xy")),
            _ => None,
        }
    }
}

impl DynamicVertexDescriptor {
    /// Generates the WGSL code for the vertex input struct of this layout.
    pub fn code_gen_vertex_input(&self, with_locations: bool) -> (s: String)
        ensures
            s@ == vertex_input_spec(wgsl_entries(self.attributes@), with_locations),
    {
        WgslVertexDescriptor::from_descriptor(self).code_gen_vertex_input(with_locations)
    }

    /// Generates the WGSL code for the vertex output struct of this layout.
    pub fn code_gen_vertex_output(&self) -> (s: String)
        ensures
            s@ == vertex_output_spec(wgsl_entries(self.attributes@)),
    {
        WgslVertexDescriptor::from_descriptor(self).code_gen_vertex_output()
    }

    /// The clip position expression of this layout.
    pub fn code_gen_position_expr(&self) -> (s: String)
        ensures
            s@ == position_expr_spec(type_of(wgsl_entries(self.attributes@), "position"@)),
    {
        WgslVertexDescriptor::from_descriptor(self).code_gen_position_expr()
    }

    /// The colour expression of this layout, when it has a float `color` attribute.
    pub fn code_gen_color_expr(&self) -> (e: Option<String>)
        ensures
            e matches Some(s) ==> Some(s@) == color_expr_spec(type_of(wgsl_entries(self.attributes@), "color"@)),
            e is None <==> color_expr_spec(type_of(wgsl_entries(self.attributes@), "color"@)) is None,
    {
        WgslVertexDescriptor::from_descriptor(self).code_gen_color_expr()
    }

    /// The texture coordinate expression of this layout, when it has a float `uv` attribute.
    pub fn code_gen_uv_expr(&self) -> (e: Option<String>)
        ensures
            e matches Some(s) ==> Some(s@) == uv_expr_spec(type_of(wgsl_entries(self.attributes@), "uv"@)),
            e is None <==> uv_expr_spec(type_of(wgsl_entries(self.attributes@), "uv"@)) is None,
    {
        WgslVertexDescriptor::from_descriptor(self).code_gen_uv_expr()
    }
}

/// One line `    <vertex>,` per vertex, in order.
pub open spec fn vertex_array_entries(vertices: Seq<Seq<char>>) -> Seq<char>
    decreases vertices.len(),
{
    if vertices.len() == 0 {
        Seq::empty()
    } else {
        vertex_array_entries(vertices.drop_last()) + "    "@ + vertices.last() + ",\n"@
    }
}

/// The WGSL constant array `hardcoded_vertices` holding the given vertex constructors.
pub open spec fn hardcoded_vertices_spec(vertices: Seq<Seq<char>>) -> Seq<char> {
    "const hardcoded_vertices = array<VertexInput, "@ + decimal(vertices.len()) + ">(\n"@
        + vertex_array_entries(vertices) + ");"@
}

impl DynamicVertexDescriptor {
    /// The WGSL constant array `hardcoded_vertices`, given the WGSL constructor of each vertex
    /// (such as `VertexInput(vec2<f32>(0.5, 1.0))`), in order: one per vertex of the buffer that
    /// [`DynamicVertexDescriptor::read_vertices`] splits.
    pub fn code_gen_hardcoded_vertices(&self, vertices: &Vec<String>) -> (s: String)
        ensures
            s@ == hardcoded_vertices_spec(crate::renderers::basic_renderer::text::views(vertices@)),
    {
        let ghost vs = crate::renderers::basic_renderer::text::views(vertices@);
        let mut s = String::new();
        s.append("const hardcoded_vertices = array<VertexInput, ");
        push_decimal(&mut s, vertices.len() as u64);
        s.append(">(\n");
        let ghost head = s@;
        let mut i: usize = 0;
        while i < vertices.len()
            invariant
                i <= vertices@.len(),
                vs == crate::renderers::basic_renderer::text::views(vertices@),
                s@ == head + vertex_array_entries(vs.take(i as int)),
            decreases vertices@.len() - i,
        {
            s.append("    ");
            s.append(vertices[i].as_str());
            s.append(",\n");
            proof {
                let t = vs.take(i + 1);
                assert(t.drop_last() =~= vs.take(i as int));
                assert(t.last() == vertices@[i as int]@);
                assert(s@ =~= head + vertex_array_entries(t));
            }
            i = i + 1;
        }
        s.append(");");
        assert(vs.take(vertices@.len() as int) =~= vs);
        s
    }
}

} // verus!
