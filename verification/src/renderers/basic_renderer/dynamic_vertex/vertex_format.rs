//! The formats of vertex attributes, with their sizes and alignments.

use vstd::prelude::*;

verus! {

/// The formats a vertex attribute can have, as in `wgpu::VertexFormat`.
#[allow(non_camel_case_types)]
#[derive(Debug, Clone, Copy, PartialEq, Eq, Structural)]
pub enum VertexFormat {
    Uint8,
    Uint8x2,
    Uint8x4,
    Sint8,
    Sint8x2,
    Sint8x4,
    Unorm8,
    Unorm8x2,
    Unorm8x4,
    Snorm8,
    Snorm8x2,
    Snorm8x4,
    Uint16,
    Uint16x2,
    Uint16x4,
    Sint16,
    Sint16x2,
    Sint16x4,
    Unorm16,
    Unorm16x2,
    Unorm16x4,
    Snorm16,
    Snorm16x2,
    Snorm16x4,
    Float16,
    Float16x2,
    Float16x4,
    Float32,
    Float32x2,
    Float32x3,
    Float32x4,
    Uint32,
    Uint32x2,
    Uint32x3,
    Uint32x4,
    Sint32,
    Sint32x2,
    Sint32x3,
    Sint32x4,
    Float64,
    Float64x2,
    Float64x3,
    Float64x4,
    Unorm10_10_10_2,
    Unorm8x4Bgra,
}

impl VertexFormat {
    /// Bytes per component of the attribute (the packed formats count as one four-byte component).
    pub open spec fn component_bytes(self) -> nat {
        match self {
            VertexFormat::Uint8 | VertexFormat::Uint8x2 | VertexFormat::Uint8x4 | VertexFormat::Sint8 | VertexFormat::Sint8x2 | VertexFormat::Sint8x4 | VertexFormat::Unorm8 | VertexFormat::Unorm8x2 | VertexFormat::Unorm8x4 | VertexFormat::Snorm8 | VertexFormat::Snorm8x2 | VertexFormat::Snorm8x4 | VertexFormat::Unorm8x4Bgra => 1,
            VertexFormat::Uint16 | VertexFormat::Uint16x2 | VertexFormat::Uint16x4 | VertexFormat::Sint16 | VertexFormat::Sint16x2 | VertexFormat::Sint16x4 | VertexFormat::Unorm16 | VertexFormat::Unorm16x2 | VertexFormat::Unorm16x4 | VertexFormat::Snorm16 | VertexFormat::Snorm16x2 | VertexFormat::Snorm16x4 | VertexFormat::Float16 | VertexFormat::Float16x2 | VertexFormat::Float16x4 => 2,
            VertexFormat::Float32 | VertexFormat::Float32x2 | VertexFormat::Float32x3 | VertexFormat::Float32x4 | VertexFormat::Uint32 | VertexFormat::Uint32x2 | VertexFormat::Uint32x3 | VertexFormat::Uint32x4 | VertexFormat::Sint32 | VertexFormat::Sint32x2 | VertexFormat::Sint32x3 | VertexFormat::Sint32x4 | VertexFormat::Unorm10_10_10_2 => 4,
            VertexFormat::Float64 | VertexFormat::Float64x2 | VertexFormat::Float64x3 | VertexFormat::Float64x4 => 8,
        }
    }

    /// Components of the attribute.
    pub open spec fn component_count(self) -> nat {
        match self {
            VertexFormat::Uint8 | VertexFormat::Sint8 | VertexFormat::Unorm8 | VertexFormat::Snorm8 | VertexFormat::Uint16 | VertexFormat::Sint16 | VertexFormat::Unorm16 | VertexFormat::Snorm16 | VertexFormat::Float16 | VertexFormat::Float32 | VertexFormat::Uint32 | VertexFormat::Sint32 | VertexFormat::Float64 | VertexFormat::Unorm10_10_10_2 => 1,
            VertexFormat::Uint8x2 | VertexFormat::Sint8x2 | VertexFormat::Unorm8x2 | VertexFormat::Snorm8x2 | VertexFormat::Uint16x2 | VertexFormat::Sint16x2 | VertexFormat::Unorm16x2 | VertexFormat::Snorm16x2 | VertexFormat::Float16x2 | VertexFormat::Float32x2 | VertexFormat::Uint32x2 | VertexFormat::Sint32x2 | VertexFormat::Float64x2 => 2,
            VertexFormat::Float32x3 | VertexFormat::Uint32x3 | VertexFormat::Sint32x3 | VertexFormat::Float64x3 => 3,
            VertexFormat::Uint8x4 | VertexFormat::Sint8x4 | VertexFormat::Unorm8x4 | VertexFormat::Snorm8x4 | VertexFormat::Uint16x4 | VertexFormat::Sint16x4 | VertexFormat::Unorm16x4 | VertexFormat::Snorm16x4 | VertexFormat::Float16x4 | VertexFormat::Float32x4 | VertexFormat::Uint32x4 | VertexFormat::Sint32x4 | VertexFormat::Float64x4 | VertexFormat::Unorm8x4Bgra => 4,
        }
    }

    /// The size of the attribute in bytes (components times bytes per component).
    pub open spec fn byte_size(self) -> nat {
        match self {
            VertexFormat::Uint8 | VertexFormat::Sint8 | VertexFormat::Unorm8 | VertexFormat::Snorm8 => 1,
            VertexFormat::Uint8x2 | VertexFormat::Sint8x2 | VertexFormat::Unorm8x2 | VertexFormat::Snorm8x2 | VertexFormat::Uint16 | VertexFormat::Sint16 | VertexFormat::Unorm16 | VertexFormat::Snorm16 | VertexFormat::Float16 => 2,
            VertexFormat::Uint8x4 | VertexFormat::Sint8x4 | VertexFormat::Unorm8x4 | VertexFormat::Snorm8x4 | VertexFormat::Uint16x2 | VertexFormat::Sint16x2 | VertexFormat::Unorm16x2 | VertexFormat::Snorm16x2 | VertexFormat::Float16x2 | VertexFormat::Float32 | VertexFormat::Uint32 | VertexFormat::Sint32 | VertexFormat::Unorm10_10_10_2 | VertexFormat::Unorm8x4Bgra => 4,
            VertexFormat::Uint16x4 | VertexFormat::Sint16x4 | VertexFormat::Unorm16x4 | VertexFormat::Snorm16x4 | VertexFormat::Float16x4 | VertexFormat::Float32x2 | VertexFormat::Uint32x2 | VertexFormat::Sint32x2 | VertexFormat::Float64 => 8,
            VertexFormat::Float32x3 | VertexFormat::Uint32x3 | VertexFormat::Sint32x3 => 12,
            VertexFormat::Float32x4 | VertexFormat::Uint32x4 | VertexFormat::Sint32x4 | VertexFormat::Float64x2 => 16,
            VertexFormat::Float64x3 => 24,
            VertexFormat::Float64x4 => 32,
        }
    }

    /// Whether the format holds unsigned integers read as they are (the `Uint` formats).
    pub open spec fn is_unsigned_integer(self) -> bool {
        matches!(self, VertexFormat::Uint8 | VertexFormat::Uint8x2 | VertexFormat::Uint8x4
            | VertexFormat::Uint16 | VertexFormat::Uint16x2 | VertexFormat::Uint16x4
            | VertexFormat::Uint32 | VertexFormat::Uint32x2 | VertexFormat::Uint32x3 | VertexFormat::Uint32x4)
    }

    /// Whether the format holds signed integers read as they are (the `Sint` formats).
    pub open spec fn is_signed_integer(self) -> bool {
        matches!(self, VertexFormat::Sint8 | VertexFormat::Sint8x2 | VertexFormat::Sint8x4
            | VertexFormat::Sint16 | VertexFormat::Sint16x2 | VertexFormat::Sint16x4
            | VertexFormat::Sint32 | VertexFormat::Sint32x2 | VertexFormat::Sint32x3 | VertexFormat::Sint32x4)
    }

    /// Whether the format holds integers that stand for values in [0, 1] or [-1, 1] (the
    /// `Unorm` and `Snorm` formats, the packed ones included).
    pub open spec fn is_normalized(self) -> bool {
        matches!(self, VertexFormat::Unorm8 | VertexFormat::Unorm8x2 | VertexFormat::Unorm8x4
            | VertexFormat::Snorm8 | VertexFormat::Snorm8x2 | VertexFormat::Snorm8x4
            | VertexFormat::Unorm16 | VertexFormat::Unorm16x2 | VertexFormat::Unorm16x4
            | VertexFormat::Snorm16 | VertexFormat::Snorm16x2 | VertexFormat::Snorm16x4
            | VertexFormat::Unorm10_10_10_2 | VertexFormat::Unorm8x4Bgra)
    }

    /// Whether the format holds floating-point numbers (the `Float` formats).
    pub open spec fn is_float(self) -> bool {
        matches!(self, VertexFormat::Float16 | VertexFormat::Float16x2 | VertexFormat::Float16x4
            | VertexFormat::Float32 | VertexFormat::Float32x2 | VertexFormat::Float32x3 | VertexFormat::Float32x4
            | VertexFormat::Float64 | VertexFormat::Float64x2 | VertexFormat::Float64x3 | VertexFormat::Float64x4)
    }

    /// The number of values an attribute of this format stands for in a shader: its components,
    /// or four (red, green, blue, alpha) for the packed `Unorm10_10_10_2`.
    pub open spec fn shader_component_count(self) -> nat {
        if self == VertexFormat::Unorm10_10_10_2 { 4 } else { self.component_count() }
    }

    /// The size of an attribute of this format in bytes.
    pub fn size(&self) -> (n: u64)
        ensures
            n == self.byte_size(),
    {
        match self {
            VertexFormat::Uint8 | VertexFormat::Sint8 | VertexFormat::Unorm8 | VertexFormat::Snorm8 => 1,
            VertexFormat::Uint8x2 | VertexFormat::Sint8x2 | VertexFormat::Unorm8x2 | VertexFormat::Snorm8x2 | VertexFormat::Uint16 | VertexFormat::Sint16 | VertexFormat::Unorm16 | VertexFormat::Snorm16 | VertexFormat::Float16 => 2,
            VertexFormat::Uint8x4 | VertexFormat::Sint8x4 | VertexFormat::Unorm8x4 | VertexFormat::Snorm8x4 | VertexFormat::Uint16x2 | VertexFormat::Sint16x2 | VertexFormat::Unorm16x2 | VertexFormat::Snorm16x2 | VertexFormat::Float16x2 | VertexFormat::Float32 | VertexFormat::Uint32 | VertexFormat::Sint32 | VertexFormat::Unorm10_10_10_2 | VertexFormat::Unorm8x4Bgra => 4,
            VertexFormat::Uint16x4 | VertexFormat::Sint16x4 | VertexFormat::Unorm16x4 | VertexFormat::Snorm16x4 | VertexFormat::Float16x4 | VertexFormat::Float32x2 | VertexFormat::Uint32x2 | VertexFormat::Sint32x2 | VertexFormat::Float64 => 8,
            VertexFormat::Float32x3 | VertexFormat::Uint32x3 | VertexFormat::Sint32x3 => 12,
            VertexFormat::Float32x4 | VertexFormat::Uint32x4 | VertexFormat::Sint32x4 | VertexFormat::Float64x2 => 16,
            VertexFormat::Float64x3 => 24,
            VertexFormat::Float64x4 => 32,
        }
    }

    /// Bytes per component.
    pub fn comp_bytes(&self) -> (n: usize)
        ensures
            n == self.component_bytes(),
            n == 1 || n == 2 || n == 4 || n == 8,
            1 <= self.component_count() <= 4,
            self.byte_size() == self.component_count() * self.component_bytes(),
    {
        match self {
            VertexFormat::Uint8 | VertexFormat::Uint8x2 | VertexFormat::Uint8x4 | VertexFormat::Sint8 | VertexFormat::Sint8x2 | VertexFormat::Sint8x4 | VertexFormat::Unorm8 | VertexFormat::Unorm8x2 | VertexFormat::Unorm8x4 | VertexFormat::Snorm8 | VertexFormat::Snorm8x2 | VertexFormat::Snorm8x4 | VertexFormat::Unorm8x4Bgra => 1,
            VertexFormat::Uint16 | VertexFormat::Uint16x2 | VertexFormat::Uint16x4 | VertexFormat::Sint16 | VertexFormat::Sint16x2 | VertexFormat::Sint16x4 | VertexFormat::Unorm16 | VertexFormat::Unorm16x2 | VertexFormat::Unorm16x4 | VertexFormat::Snorm16 | VertexFormat::Snorm16x2 | VertexFormat::Snorm16x4 | VertexFormat::Float16 | VertexFormat::Float16x2 | VertexFormat::Float16x4 => 2,
            VertexFormat::Float32 | VertexFormat::Float32x2 | VertexFormat::Float32x3 | VertexFormat::Float32x4 | VertexFormat::Uint32 | VertexFormat::Uint32x2 | VertexFormat::Uint32x3 | VertexFormat::Uint32x4 | VertexFormat::Sint32 | VertexFormat::Sint32x2 | VertexFormat::Sint32x3 | VertexFormat::Sint32x4 | VertexFormat::Unorm10_10_10_2 => 4,
            VertexFormat::Float64 | VertexFormat::Float64x2 | VertexFormat::Float64x3 | VertexFormat::Float64x4 => 8,
        }
    }

    /// Components per attribute.
    pub fn comp_count(&self) -> (n: usize)
        ensures
            n == self.component_count(),
    {
        match self {
            VertexFormat::Uint8 | VertexFormat::Sint8 | VertexFormat::Unorm8 | VertexFormat::Snorm8 | VertexFormat::Uint16 | VertexFormat::Sint16 | VertexFormat::Unorm16 | VertexFormat::Snorm16 | VertexFormat::Float16 | VertexFormat::Float32 | VertexFormat::Uint32 | VertexFormat::Sint32 | VertexFormat::Float64 | VertexFormat::Unorm10_10_10_2 => 1,
            VertexFormat::Uint8x2 | VertexFormat::Sint8x2 | VertexFormat::Unorm8x2 | VertexFormat::Snorm8x2 | VertexFormat::Uint16x2 | VertexFormat::Sint16x2 | VertexFormat::Unorm16x2 | VertexFormat::Snorm16x2 | VertexFormat::Float16x2 | VertexFormat::Float32x2 | VertexFormat::Uint32x2 | VertexFormat::Sint32x2 | VertexFormat::Float64x2 => 2,
            VertexFormat::Float32x3 | VertexFormat::Uint32x3 | VertexFormat::Sint32x3 | VertexFormat::Float64x3 => 3,
            VertexFormat::Uint8x4 | VertexFormat::Sint8x4 | VertexFormat::Unorm8x4 | VertexFormat::Snorm8x4 | VertexFormat::Uint16x4 | VertexFormat::Sint16x4 | VertexFormat::Unorm16x4 | VertexFormat::Snorm16x4 | VertexFormat::Float16x4 | VertexFormat::Float32x4 | VertexFormat::Uint32x4 | VertexFormat::Sint32x4 | VertexFormat::Float64x4 | VertexFormat::Unorm8x4Bgra => 4,
        }
    }

    /// The alignment that Rust gives the value type that stores one attribute of this format:
    /// that of its component type, as an array has the alignment of its elements (for the
    /// 64-bit float formats, the 64-bit integers that hold their bit patterns).
    pub open spec fn alignment(self) -> nat {
        match self {
            VertexFormat::Uint8 | VertexFormat::Sint8 | VertexFormat::Unorm8 | VertexFormat::Snorm8 => vstd::layout::align_of::<u8>(),
            VertexFormat::Uint8x2 | VertexFormat::Sint8x2 | VertexFormat::Unorm8x2 | VertexFormat::Snorm8x2 => vstd::layout::align_of::<u8>(),
            VertexFormat::Uint8x4 | VertexFormat::Sint8x4 | VertexFormat::Unorm8x4 | VertexFormat::Snorm8x4 | VertexFormat::Unorm8x4Bgra => vstd::layout::align_of::<u8>(),
            VertexFormat::Uint16 | VertexFormat::Sint16 | VertexFormat::Unorm16 | VertexFormat::Snorm16 | VertexFormat::Float16 => vstd::layout::align_of::<u16>(),
            VertexFormat::Uint16x2 | VertexFormat::Sint16x2 | VertexFormat::Unorm16x2 | VertexFormat::Snorm16x2 | VertexFormat::Float16x2 => vstd::layout::align_of::<u16>(),
            VertexFormat::Uint16x4 | VertexFormat::Sint16x4 | VertexFormat::Unorm16x4 | VertexFormat::Snorm16x4 | VertexFormat::Float16x4 => vstd::layout::align_of::<u16>(),
            VertexFormat::Float32 | VertexFormat::Uint32 | VertexFormat::Sint32 | VertexFormat::Unorm10_10_10_2 => vstd::layout::align_of::<u32>(),
            VertexFormat::Float32x2 | VertexFormat::Uint32x2 | VertexFormat::Sint32x2 => vstd::layout::align_of::<u32>(),
            VertexFormat::Float32x3 | VertexFormat::Uint32x3 | VertexFormat::Sint32x3 => vstd::layout::align_of::<u32>(),
            VertexFormat::Float32x4 | VertexFormat::Uint32x4 | VertexFormat::Sint32x4 => vstd::layout::align_of::<u32>(),
            VertexFormat::Float64 => vstd::layout::align_of::<u64>(),
            VertexFormat::Float64x2 => vstd::layout::align_of::<u64>(),
            VertexFormat::Float64x3 => vstd::layout::align_of::<u64>(),
            VertexFormat::Float64x4 => vstd::layout::align_of::<u64>(),
        }
    }
}

/// Returns the required byte alignment for a given vertex format.
pub fn vertex_format_align_of(vf: VertexFormat) -> (a: usize)
    ensures
        a == vf.alignment(),
        a > 0,
{
    broadcast use vstd::layout::align_nonzero;
    match vf {
        VertexFormat::Uint8 | VertexFormat::Sint8 | VertexFormat::Unorm8 | VertexFormat::Snorm8 => {
            core::mem::align_of::<u8>()
        }
        VertexFormat::Uint8x2 | VertexFormat::Sint8x2 | VertexFormat::Unorm8x2 | VertexFormat::Snorm8x2 => {
            core::mem::align_of::<u8>()
        }
        VertexFormat::Uint8x4 | VertexFormat::Sint8x4 | VertexFormat::Unorm8x4 | VertexFormat::Snorm8x4 | VertexFormat::Unorm8x4Bgra => {
            core::mem::align_of::<u8>()
        }
        VertexFormat::Uint16 | VertexFormat::Sint16 | VertexFormat::Unorm16 | VertexFormat::Snorm16 | VertexFormat::Float16 => {
            core::mem::align_of::<u16>()
        }
        VertexFormat::Uint16x2 | VertexFormat::Sint16x2 | VertexFormat::Unorm16x2 | VertexFormat::Snorm16x2 | VertexFormat::Float16x2 => {
            core::mem::align_of::<u16>()
        }
        VertexFormat::Uint16x4 | VertexFormat::Sint16x4 | VertexFormat::Unorm16x4 | VertexFormat::Snorm16x4 | VertexFormat::Float16x4 => {
            core::mem::align_of::<u16>()
        }
        VertexFormat::Float32 | VertexFormat::Uint32 | VertexFormat::Sint32 | VertexFormat::Unorm10_10_10_2 => {
            core::mem::align_of::<u32>()
        }
        VertexFormat::Float32x2 | VertexFormat::Uint32x2 | VertexFormat::Sint32x2 => {
            core::mem::align_of::<u32>()
        }
        VertexFormat::Float32x3 | VertexFormat::Uint32x3 | VertexFormat::Sint32x3 => {
            core::mem::align_of::<u32>()
        }
        VertexFormat::Float32x4 | VertexFormat::Uint32x4 | VertexFormat::Sint32x4 => {
            core::mem::align_of::<u32>()
        }
        VertexFormat::Float64 => {
            core::mem::align_of::<u64>()
        }
        VertexFormat::Float64x2 => {
            core::mem::align_of::<u64>()
        }
        VertexFormat::Float64x3 => {
            core::mem::align_of::<u64>()
        }
        VertexFormat::Float64x4 => {
            core::mem::align_of::<u64>()
        }
    }
}

/// The alignment of a vertex format is the alignment of its component's scalar type: 1-byte
/// components align as `u8` (that is, to 1), 2-byte ones as `u16`, 4-byte ones as `u32` and
/// 8-byte ones as `u64`; so it always divides the component size.
pub proof fn lemma_alignment_of_component(f: VertexFormat)
    ensures
        f.component_bytes() == 1 ==> f.alignment() == vstd::layout::align_of::<u8>() && f.alignment() == 1,
        f.component_bytes() == 2 ==> f.alignment() == vstd::layout::align_of::<u16>(),
        f.component_bytes() == 4 ==> f.alignment() == vstd::layout::align_of::<u32>(),
        f.component_bytes() == 8 ==> f.alignment() == vstd::layout::align_of::<u64>(),
        f.alignment() > 0,
        f.component_bytes() % f.alignment() == 0,
{
    broadcast use vstd::layout::align_of_u8, vstd::layout::layout_of_primitives,
        vstd::layout::align_properties, vstd::layout::align_nonzero;
}

} // verus!
