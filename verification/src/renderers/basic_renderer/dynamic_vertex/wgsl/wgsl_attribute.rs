//! The WGSL types that vertex attributes take in a shader.

use vstd::prelude::*;
use super::super::vertex_format::VertexFormat;
use crate::renderers::basic_renderer::text::wgsl_vector;

verus! {

/// The 32-bit scalar and vector types that vertex attributes become in WGSL.
#[derive(Debug, Clone, Copy, PartialEq, Eq, Structural)]
pub enum WgslAttributeType {
    U32, U32x2, U32x3, U32x4,
    S32, S32x2, S32x3, S32x4,
    F32, F32x2, F32x3, F32x4,
}

impl WgslAttributeType {
    /// The WGSL spelling of the type.
    pub open spec fn wgsl(self) -> Seq<char> {
        match self {
            WgslAttributeType::U32 => "u32"@,
            WgslAttributeType::U32x2 => "vec2<u32>"@,
            WgslAttributeType::U32x3 => "vec3<u32>"@,
            WgslAttributeType::U32x4 => "vec4<u32>"@,
            WgslAttributeType::S32 => "i32"@,
            WgslAttributeType::S32x2 => "vec2<i32>"@,
            WgslAttributeType::S32x3 => "vec3<i32>"@,
            WgslAttributeType::S32x4 => "vec4<i32>"@,
            WgslAttributeType::F32 => "f32"@,
            WgslAttributeType::F32x2 => "vec2<f32>"@,
            WgslAttributeType::F32x3 => "vec3<f32>"@,
            WgslAttributeType::F32x4 => "vec4<f32>"@,
        }
    }

    /// The number of components.
    pub open spec fn component_count(self) -> nat {
        match self {
            WgslAttributeType::U32 | WgslAttributeType::S32 | WgslAttributeType::F32 => 1,
            WgslAttributeType::U32x2 | WgslAttributeType::S32x2 | WgslAttributeType::F32x2 => 2,
            WgslAttributeType::U32x3 | WgslAttributeType::S32x3 | WgslAttributeType::F32x3 => 3,
            WgslAttributeType::U32x4 | WgslAttributeType::S32x4 | WgslAttributeType::F32x4 => 4,
        }
    }

    /// The WGSL type that an attribute of format `f` is read as: integers widen to 32 bits,
    /// normalized integers and floats of any width become `f32` components, and the packed
    /// formats become four `f32` components.
    pub open spec fn of_format(f: VertexFormat) -> WgslAttributeType {
        match f {
            VertexFormat::Uint8 | VertexFormat::Uint16 | VertexFormat::Uint32 => WgslAttributeType::U32,
            VertexFormat::Uint8x2 | VertexFormat::Uint16x2 | VertexFormat::Uint32x2 => WgslAttributeType::U32x2,
            VertexFormat::Uint32x3 => WgslAttributeType::U32x3,
            VertexFormat::Uint8x4 | VertexFormat::Uint16x4 | VertexFormat::Uint32x4 => WgslAttributeType::U32x4,
            VertexFormat::Sint8 | VertexFormat::Sint16 | VertexFormat::Sint32 => WgslAttributeType::S32,
            VertexFormat::Sint8x2 | VertexFormat::Sint16x2 | VertexFormat::Sint32x2 => WgslAttributeType::S32x2,
            VertexFormat::Sint32x3 => WgslAttributeType::S32x3,
            VertexFormat::Sint8x4 | VertexFormat::Sint16x4 | VertexFormat::Sint32x4 => WgslAttributeType::S32x4,
            VertexFormat::Unorm8 | VertexFormat::Unorm16 | VertexFormat::Snorm8 | VertexFormat::Snorm16 | VertexFormat::Float16 | VertexFormat::Float32 | VertexFormat::Float64 => WgslAttributeType::F32,
            VertexFormat::Unorm8x2 | VertexFormat::Unorm16x2 | VertexFormat::Snorm8x2 | VertexFormat::Snorm16x2 | VertexFormat::Float16x2 | VertexFormat::Float32x2 | VertexFormat::Float64x2 => WgslAttributeType::F32x2,
            VertexFormat::Float32x3 | VertexFormat::Float64x3 => WgslAttributeType::F32x3,
            VertexFormat::Unorm8x4 | VertexFormat::Unorm16x4 | VertexFormat::Snorm8x4 | VertexFormat::Snorm16x4 | VertexFormat::Float16x4 | VertexFormat::Float32x4 | VertexFormat::Float64x4 | VertexFormat::Unorm10_10_10_2 | VertexFormat::Unorm8x4Bgra => WgslAttributeType::F32x4,
        }
    }

    /// The number of components.
    pub fn comp(&self) -> (n: usize)
        ensures
            n == self.component_count(),
    {
        match self {
            WgslAttributeType::U32 | WgslAttributeType::S32 | WgslAttributeType::F32 => 1,
            WgslAttributeType::U32x2 | WgslAttributeType::S32x2 | WgslAttributeType::F32x2 => 2,
            WgslAttributeType::U32x3 | WgslAttributeType::S32x3 | WgslAttributeType::F32x3 => 3,
            WgslAttributeType::U32x4 | WgslAttributeType::S32x4 | WgslAttributeType::F32x4 => 4,
        }
    }

    /// The size in bytes: four bytes per component.
    pub fn size(&self) -> (n: usize)
        ensures
            n == 4 * self.component_count(),
    {
        self.comp() * 4
    }

    /// The WGSL spelling of the type.
    pub fn to_string(&self) -> (s: &'static str)
        ensures
            s@ == self.wgsl(),
    {
        match self {
            WgslAttributeType::U32 => "u32",
            WgslAttributeType::U32x2 => "vec2<u32>",
            WgslAttributeType::U32x3 => "vec3<u32>",
            WgslAttributeType::U32x4 => "vec4<u32>",
            WgslAttributeType::S32 => "i32",
            WgslAttributeType::S32x2 => "vec2<i32>",
            WgslAttributeType::S32x3 => "vec3<i32>",
            WgslAttributeType::S32x4 => "vec4<i32>",
            WgslAttributeType::F32 => "f32",
            WgslAttributeType::F32x2 => "vec2<f32>",
            WgslAttributeType::F32x3 => "vec3<f32>",
            WgslAttributeType::F32x4 => "vec4<f32>",
        }
    }

    /// The WGSL type that an attribute of format `value` is read as.
    pub fn from_vertex_format(value: VertexFormat) -> (t: Self)
        ensures
            t == Self::of_format(value),
    {
        match value {
            VertexFormat::Uint8 | VertexFormat::Uint16 | VertexFormat::Uint32 => WgslAttributeType::U32,
            VertexFormat::Uint8x2 | VertexFormat::Uint16x2 | VertexFormat::Uint32x2 => WgslAttributeType::U32x2,
            VertexFormat::Uint32x3 => WgslAttributeType::U32x3,
            VertexFormat::Uint8x4 | VertexFormat::Uint16x4 | VertexFormat::Uint32x4 => WgslAttributeType::U32x4,
            VertexFormat::Sint8 | VertexFormat::Sint16 | VertexFormat::Sint32 => WgslAttributeType::S32,
            VertexFormat::Sint8x2 | VertexFormat::Sint16x2 | VertexFormat::Sint32x2 => WgslAttributeType::S32x2,
            VertexFormat::Sint32x3 => WgslAttributeType::S32x3,
            VertexFormat::Sint8x4 | VertexFormat::Sint16x4 | VertexFormat::Sint32x4 => WgslAttributeType::S32x4,
            VertexFormat::Unorm8 | VertexFormat::Unorm16 | VertexFormat::Snorm8 | VertexFormat::Snorm16 | VertexFormat::Float16 | VertexFormat::Float32 | VertexFormat::Float64 => WgslAttributeType::F32,
            VertexFormat::Unorm8x2 | VertexFormat::Unorm16x2 | VertexFormat::Snorm8x2 | VertexFormat::Snorm16x2 | VertexFormat::Float16x2 | VertexFormat::Float32x2 | VertexFormat::Float64x2 => WgslAttributeType::F32x2,
            VertexFormat::Float32x3 | VertexFormat::Float64x3 => WgslAttributeType::F32x3,
            VertexFormat::Unorm8x4 | VertexFormat::Unorm16x4 | VertexFormat::Snorm8x4 | VertexFormat::Snorm16x4 | VertexFormat::Float16x4 | VertexFormat::Float32x4 | VertexFormat::Float64x4 | VertexFormat::Unorm10_10_10_2 | VertexFormat::Unorm8x4Bgra => WgslAttributeType::F32x4,
        }
    }
}

impl From<VertexFormat> for WgslAttributeType {
    fn from(value: VertexFormat) -> (t: Self) {
        Self::from_vertex_format(value)
    }
}

impl vstd::std_specs::convert::FromSpecImpl<VertexFormat> for WgslAttributeType {
    open spec fn obeys_from_spec() -> bool {
        true
    }

    open spec fn from_spec(v: VertexFormat) -> Self {
        WgslAttributeType::of_format(v)
    }
}

/// Whether the type's components are `u32`.
pub open spec fn has_u32_components(t: WgslAttributeType) -> bool {
    matches!(t, WgslAttributeType::U32 | WgslAttributeType::U32x2 | WgslAttributeType::U32x3 | WgslAttributeType::U32x4)
}

/// Whether the type's components are `i32`.
pub open spec fn has_i32_components(t: WgslAttributeType) -> bool {
    matches!(t, WgslAttributeType::S32 | WgslAttributeType::S32x2 | WgslAttributeType::S32x3 | WgslAttributeType::S32x4)
}

/// Whether the type's components are `f32`.
pub open spec fn has_f32_components(t: WgslAttributeType) -> bool {
    matches!(t, WgslAttributeType::F32 | WgslAttributeType::F32x2 | WgslAttributeType::F32x3 | WgslAttributeType::F32x4)
}

/// A vertex attribute is read in WGSL with as many components as it stands for, and with
/// components of its kind: unsigned integers as `u32`, signed integers as `i32`, and normalized
/// and floating-point formats as `f32`.
pub proof fn lemma_wgsl_type_of_format(f: VertexFormat)
    ensures
        WgslAttributeType::of_format(f).component_count() == f.shader_component_count(),
        f.is_unsigned_integer() ==> has_u32_components(WgslAttributeType::of_format(f)),
        f.is_signed_integer() ==> has_i32_components(WgslAttributeType::of_format(f)),
        f.is_normalized() || f.is_float() ==> has_f32_components(WgslAttributeType::of_format(f)),
        has_u32_components(WgslAttributeType::of_format(f)) ==> f.is_unsigned_integer(),
        has_i32_components(WgslAttributeType::of_format(f)) ==> f.is_signed_integer(),
        has_f32_components(WgslAttributeType::of_format(f)) ==> f.is_normalized() || f.is_float(),
{
}

/// The scalar that the type's components have.
pub open spec fn component_scalar(t: WgslAttributeType) -> Seq<char> {
    if has_u32_components(t) { "u32"@ } else if has_i32_components(t) { "i32"@ } else { "f32"@ }
}

/// The WGSL spelling of an attribute type is that of a scalar or vector with the type's
/// number and kind of components.
pub proof fn lemma_wgsl_type_spelling(t: WgslAttributeType)
    ensures
        t.wgsl() == wgsl_vector(t.component_count(), component_scalar(t)),
{
    match t {
        WgslAttributeType::U32 => {
            reveal_strlit("u32");
            reveal_strlit("u32");
            assert(t.wgsl() =~= wgsl_vector(1, "u32"@));
        },
        WgslAttributeType::U32x2 => {
            reveal_strlit("vec2<u32>");
            reveal_strlit("u32");
            reveal_strlit("vec");
            reveal_strlit("<");
            reveal_strlit(">");
            assert(t.wgsl() =~= wgsl_vector(2, "u32"@));
        },
        WgslAttributeType::U32x3 => {
            reveal_strlit("vec3<u32>");
            reveal_strlit("u32");
            reveal_strlit("vec");
            reveal_strlit("<");
            reveal_strlit(">");
            assert(t.wgsl() =~= wgsl_vector(3, "u32"@));
        },
        WgslAttributeType::U32x4 => {
            reveal_strlit("vec4<u32>");
            reveal_strlit("u32");
            reveal_strlit("vec");
            reveal_strlit("<");
            reveal_strlit(">");
            assert(t.wgsl() =~= wgsl_vector(4, "u32"@));
        },
        WgslAttributeType::S32 => {
            reveal_strlit("i32");
            reveal_strlit("i32");
            assert(t.wgsl() =~= wgsl_vector(1, "i32"@));
        },
        WgslAttributeType::S32x2 => {
            reveal_strlit("vec2<i32>");
            reveal_strlit("i32");
            reveal_strlit("vec");
            reveal_strlit("<");
            reveal_strlit(">");
            assert(t.wgsl() =~= wgsl_vector(2, "i32"@));
        },
        WgslAttributeType::S32x3 => {
            reveal_strlit("vec3<i32>");
            reveal_strlit("i32");
            reveal_strlit("vec");
            reveal_strlit("<");
            reveal_strlit(">");
            assert(t.wgsl() =~= wgsl_vector(3, "i32"@));
        },
        WgslAttributeType::S32x4 => {
            reveal_strlit("vec4<i32>");
            reveal_strlit("i32");
            reveal_strlit("vec");
            reveal_strlit("<");
            reveal_strlit(">");
            assert(t.wgsl() =~= wgsl_vector(4, "i32"@));
        },
        WgslAttributeType::F32 => {
            reveal_strlit("f32");
            reveal_strlit("f32");
            assert(t.wgsl() =~= wgsl_vector(1, "f32"@));
        },
        WgslAttributeType::F32x2 => {
            reveal_strlit("vec2<f32>");
            reveal_strlit("f32");
            reveal_strlit("vec");
            reveal_strlit("<");
            reveal_strlit(">");
            assert(t.wgsl() =~= wgsl_vector(2, "f32"@));
        },
        WgslAttributeType::F32x3 => {
            reveal_strlit("vec3<f32>");
            reveal_strlit("f32");
            reveal_strlit("vec");
            reveal_strlit("<");
            reveal_strlit(">");
            assert(t.wgsl() =~= wgsl_vector(3, "f32"@));
        },
        WgslAttributeType::F32x4 => {
            reveal_strlit("vec4<f32>");
            reveal_strlit("f32");
            reveal_strlit("vec");
            reveal_strlit("<");
            reveal_strlit(">");
            assert(t.wgsl() =~= wgsl_vector(4, "f32"@));
        },
    }
}

} // verus!
