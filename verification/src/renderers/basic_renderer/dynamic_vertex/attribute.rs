//! A single vertex attribute value of any vertex format, read from and written to bytes.

use vstd::prelude::*;
use super::byte_order::{
    decode_components, encode_components, lemma_decode_encode, lemma_native_value_bound, lemma_pow256_widths, pow256,
    read_components, write_components,
};
use super::vertex_format::{vertex_format_align_of, VertexFormat};

verus! {

/// A value for any vertex format, held as the integers the format stores: the bit patterns
/// for the float formats, the raw integers for the normalized formats.
#[allow(non_camel_case_types)]
#[derive(Debug, Clone, Copy)]
pub enum DynamicAttribute {
    Uint8(u8),
    Uint8x2([u8; 2]),
    Uint8x4([u8; 4]),
    Sint8(i8),
    Sint8x2([i8; 2]),
    Sint8x4([i8; 4]),
    Unorm8(u8),
    Unorm8x2([u8; 2]),
    Unorm8x4([u8; 4]),
    Snorm8(i8),
    Snorm8x2([i8; 2]),
    Snorm8x4([i8; 4]),
    Uint16(u16),
    Uint16x2([u16; 2]),
    Uint16x4([u16; 4]),
    Sint16(i16),
    Sint16x2([i16; 2]),
    Sint16x4([i16; 4]),
    Unorm16(u16),
    Unorm16x2([u16; 2]),
    Unorm16x4([u16; 4]),
    Snorm16(i16),
    Snorm16x2([i16; 2]),
    Snorm16x4([i16; 4]),
    Float16(u16),
    Float16x2([u16; 2]),
    Float16x4([u16; 4]),
    Float32(u32),
    Float32x2([u32; 2]),
    Float32x3([u32; 3]),
    Float32x4([u32; 4]),
    Uint32(u32),
    Uint32x2([u32; 2]),
    Uint32x3([u32; 3]),
    Uint32x4([u32; 4]),
    Sint32(i32),
    Sint32x2([i32; 2]),
    Sint32x3([i32; 3]),
    Sint32x4([i32; 4]),
    Float64(u64),
    Float64x2([u64; 2]),
    Float64x3([u64; 3]),
    Float64x4([u64; 4]),
    Unorm10_10_10_2(u32),
    Unorm8x4Bgra([u8; 4]),
}

proof fn lemma_i8_bits(x: u8, a: i8, b: i8)
    ensures
        ((x as i8) as u8) == x,
        (a as u8) == (b as u8) ==> a == b,
{
    assert(((x as i8) as u8) == x) by (bit_vector);
    assert((a as u8) == (b as u8) ==> a == b) by (bit_vector);
}

proof fn lemma_i16_bits(x: u16, a: i16, b: i16)
    ensures
        ((x as i16) as u16) == x,
        (a as u16) == (b as u16) ==> a == b,
{
    assert(((x as i16) as u16) == x) by (bit_vector);
    assert((a as u16) == (b as u16) ==> a == b) by (bit_vector);
}

proof fn lemma_i32_bits(x: u32, a: i32, b: i32)
    ensures
        ((x as i32) as u32) == x,
        (a as u32) == (b as u32) ==> a == b,
{
    assert(((x as i32) as u32) == x) by (bit_vector);
    assert((a as u32) == (b as u32) ==> a == b) by (bit_vector);
}

impl DynamicAttribute {
    /// The format of the value.
    pub open spec fn format_of(self) -> VertexFormat {
        match self {
            DynamicAttribute::Uint8(_) => VertexFormat::Uint8,
            DynamicAttribute::Uint8x2(_) => VertexFormat::Uint8x2,
            DynamicAttribute::Uint8x4(_) => VertexFormat::Uint8x4,
            DynamicAttribute::Sint8(_) => VertexFormat::Sint8,
            DynamicAttribute::Sint8x2(_) => VertexFormat::Sint8x2,
            DynamicAttribute::Sint8x4(_) => VertexFormat::Sint8x4,
            DynamicAttribute::Unorm8(_) => VertexFormat::Unorm8,
            DynamicAttribute::Unorm8x2(_) => VertexFormat::Unorm8x2,
            DynamicAttribute::Unorm8x4(_) => VertexFormat::Unorm8x4,
            DynamicAttribute::Snorm8(_) => VertexFormat::Snorm8,
            DynamicAttribute::Snorm8x2(_) => VertexFormat::Snorm8x2,
            DynamicAttribute::Snorm8x4(_) => VertexFormat::Snorm8x4,
            DynamicAttribute::Uint16(_) => VertexFormat::Uint16,
            DynamicAttribute::Uint16x2(_) => VertexFormat::Uint16x2,
            DynamicAttribute::Uint16x4(_) => VertexFormat::Uint16x4,
            DynamicAttribute::Sint16(_) => VertexFormat::Sint16,
            DynamicAttribute::Sint16x2(_) => VertexFormat::Sint16x2,
            DynamicAttribute::Sint16x4(_) => VertexFormat::Sint16x4,
            DynamicAttribute::Unorm16(_) => VertexFormat::Unorm16,
            DynamicAttribute::Unorm16x2(_) => VertexFormat::Unorm16x2,
            DynamicAttribute::Unorm16x4(_) => VertexFormat::Unorm16x4,
            DynamicAttribute::Snorm16(_) => VertexFormat::Snorm16,
            DynamicAttribute::Snorm16x2(_) => VertexFormat::Snorm16x2,
            DynamicAttribute::Snorm16x4(_) => VertexFormat::Snorm16x4,
            DynamicAttribute::Float16(_) => VertexFormat::Float16,
            DynamicAttribute::Float16x2(_) => VertexFormat::Float16x2,
            DynamicAttribute::Float16x4(_) => VertexFormat::Float16x4,
            DynamicAttribute::Float32(_) => VertexFormat::Float32,
            DynamicAttribute::Float32x2(_) => VertexFormat::Float32x2,
            DynamicAttribute::Float32x3(_) => VertexFormat::Float32x3,
            DynamicAttribute::Float32x4(_) => VertexFormat::Float32x4,
            DynamicAttribute::Uint32(_) => VertexFormat::Uint32,
            DynamicAttribute::Uint32x2(_) => VertexFormat::Uint32x2,
            DynamicAttribute::Uint32x3(_) => VertexFormat::Uint32x3,
            DynamicAttribute::Uint32x4(_) => VertexFormat::Uint32x4,
            DynamicAttribute::Sint32(_) => VertexFormat::Sint32,
            DynamicAttribute::Sint32x2(_) => VertexFormat::Sint32x2,
            DynamicAttribute::Sint32x3(_) => VertexFormat::Sint32x3,
            DynamicAttribute::Sint32x4(_) => VertexFormat::Sint32x4,
            DynamicAttribute::Float64(_) => VertexFormat::Float64,
            DynamicAttribute::Float64x2(_) => VertexFormat::Float64x2,
            DynamicAttribute::Float64x3(_) => VertexFormat::Float64x3,
            DynamicAttribute::Float64x4(_) => VertexFormat::Float64x4,
            DynamicAttribute::Unorm10_10_10_2(_) => VertexFormat::Unorm10_10_10_2,
            DynamicAttribute::Unorm8x4Bgra(_) => VertexFormat::Unorm8x4Bgra,
        }
    }

    /// The components of the value as unsigned integers of the component's width: signed
    /// components in two's complement, floats as their bit patterns.
    pub open spec fn unsigned_components(self) -> Seq<nat> {
        match self {
            DynamicAttribute::Uint8(v) => seq![v as nat],
            DynamicAttribute::Uint8x2(v) => seq![v[0] as nat, v[1] as nat],
            DynamicAttribute::Uint8x4(v) => seq![v[0] as nat, v[1] as nat, v[2] as nat, v[3] as nat],
            DynamicAttribute::Sint8(v) => seq![(v as u8) as nat],
            DynamicAttribute::Sint8x2(v) => seq![(v[0] as u8) as nat, (v[1] as u8) as nat],
            DynamicAttribute::Sint8x4(v) => seq![(v[0] as u8) as nat, (v[1] as u8) as nat, (v[2] as u8) as nat, (v[3] as u8) as nat],
            DynamicAttribute::Unorm8(v) => seq![v as nat],
            DynamicAttribute::Unorm8x2(v) => seq![v[0] as nat, v[1] as nat],
            DynamicAttribute::Unorm8x4(v) => seq![v[0] as nat, v[1] as nat, v[2] as nat, v[3] as nat],
            DynamicAttribute::Snorm8(v) => seq![(v as u8) as nat],
            DynamicAttribute::Snorm8x2(v) => seq![(v[0] as u8) as nat, (v[1] as u8) as nat],
            DynamicAttribute::Snorm8x4(v) => seq![(v[0] as u8) as nat, (v[1] as u8) as nat, (v[2] as u8) as nat, (v[3] as u8) as nat],
            DynamicAttribute::Uint16(v) => seq![v as nat],
            DynamicAttribute::Uint16x2(v) => seq![v[0] as nat, v[1] as nat],
            DynamicAttribute::Uint16x4(v) => seq![v[0] as nat, v[1] as nat, v[2] as nat, v[3] as nat],
            DynamicAttribute::Sint16(v) => seq![(v as u16) as nat],
            DynamicAttribute::Sint16x2(v) => seq![(v[0] as u16) as nat, (v[1] as u16) as nat],
            DynamicAttribute::Sint16x4(v) => seq![(v[0] as u16) as nat, (v[1] as u16) as nat, (v[2] as u16) as nat, (v[3] as u16) as nat],
            DynamicAttribute::Unorm16(v) => seq![v as nat],
            DynamicAttribute::Unorm16x2(v) => seq![v[0] as nat, v[1] as nat],
            DynamicAttribute::Unorm16x4(v) => seq![v[0] as nat, v[1] as nat, v[2] as nat, v[3] as nat],
            DynamicAttribute::Snorm16(v) => seq![(v as u16) as nat],
            DynamicAttribute::Snorm16x2(v) => seq![(v[0] as u16) as nat, (v[1] as u16) as nat],
            DynamicAttribute::Snorm16x4(v) => seq![(v[0] as u16) as nat, (v[1] as u16) as nat, (v[2] as u16) as nat, (v[3] as u16) as nat],
            DynamicAttribute::Float16(v) => seq![v as nat],
            DynamicAttribute::Float16x2(v) => seq![v[0] as nat, v[1] as nat],
            DynamicAttribute::Float16x4(v) => seq![v[0] as nat, v[1] as nat, v[2] as nat, v[3] as nat],
            DynamicAttribute::Float32(v) => seq![v as nat],
            DynamicAttribute::Float32x2(v) => seq![v[0] as nat, v[1] as nat],
            DynamicAttribute::Float32x3(v) => seq![v[0] as nat, v[1] as nat, v[2] as nat],
            DynamicAttribute::Float32x4(v) => seq![v[0] as nat, v[1] as nat, v[2] as nat, v[3] as nat],
            DynamicAttribute::Uint32(v) => seq![v as nat],
            DynamicAttribute::Uint32x2(v) => seq![v[0] as nat, v[1] as nat],
            DynamicAttribute::Uint32x3(v) => seq![v[0] as nat, v[1] as nat, v[2] as nat],
            DynamicAttribute::Uint32x4(v) => seq![v[0] as nat, v[1] as nat, v[2] as nat, v[3] as nat],
            DynamicAttribute::Sint32(v) => seq![(v as u32) as nat],
            DynamicAttribute::Sint32x2(v) => seq![(v[0] as u32) as nat, (v[1] as u32) as nat],
            DynamicAttribute::Sint32x3(v) => seq![(v[0] as u32) as nat, (v[1] as u32) as nat, (v[2] as u32) as nat],
            DynamicAttribute::Sint32x4(v) => seq![(v[0] as u32) as nat, (v[1] as u32) as nat, (v[2] as u32) as nat, (v[3] as u32) as nat],
            DynamicAttribute::Float64(v) => seq![v as nat],
            DynamicAttribute::Float64x2(v) => seq![v[0] as nat, v[1] as nat],
            DynamicAttribute::Float64x3(v) => seq![v[0] as nat, v[1] as nat, v[2] as nat],
            DynamicAttribute::Float64x4(v) => seq![v[0] as nat, v[1] as nat, v[2] as nat, v[3] as nat],
            DynamicAttribute::Unorm10_10_10_2(v) => seq![v as nat],
            DynamicAttribute::Unorm8x4Bgra(v) => seq![v[0] as nat, v[1] as nat, v[2] as nat, v[3] as nat],
        }
    }

    /// Returns the corresponding vertex format.
    pub fn vertex_format(&self) -> (f: VertexFormat)
        ensures
            f == self.format_of(),
    {
        match self {
            DynamicAttribute::Uint8(_) => VertexFormat::Uint8,
            DynamicAttribute::Uint8x2(_) => VertexFormat::Uint8x2,
            DynamicAttribute::Uint8x4(_) => VertexFormat::Uint8x4,
            DynamicAttribute::Sint8(_) => VertexFormat::Sint8,
            DynamicAttribute::Sint8x2(_) => VertexFormat::Sint8x2,
            DynamicAttribute::Sint8x4(_) => VertexFormat::Sint8x4,
            DynamicAttribute::Unorm8(_) => VertexFormat::Unorm8,
            DynamicAttribute::Unorm8x2(_) => VertexFormat::Unorm8x2,
            DynamicAttribute::Unorm8x4(_) => VertexFormat::Unorm8x4,
            DynamicAttribute::Snorm8(_) => VertexFormat::Snorm8,
            DynamicAttribute::Snorm8x2(_) => VertexFormat::Snorm8x2,
            DynamicAttribute::Snorm8x4(_) => VertexFormat::Snorm8x4,
            DynamicAttribute::Uint16(_) => VertexFormat::Uint16,
            DynamicAttribute::Uint16x2(_) => VertexFormat::Uint16x2,
            DynamicAttribute::Uint16x4(_) => VertexFormat::Uint16x4,
            DynamicAttribute::Sint16(_) => VertexFormat::Sint16,
            DynamicAttribute::Sint16x2(_) => VertexFormat::Sint16x2,
            DynamicAttribute::Sint16x4(_) => VertexFormat::Sint16x4,
            DynamicAttribute::Unorm16(_) => VertexFormat::Unorm16,
            DynamicAttribute::Unorm16x2(_) => VertexFormat::Unorm16x2,
            DynamicAttribute::Unorm16x4(_) => VertexFormat::Unorm16x4,
            DynamicAttribute::Snorm16(_) => VertexFormat::Snorm16,
            DynamicAttribute::Snorm16x2(_) => VertexFormat::Snorm16x2,
            DynamicAttribute::Snorm16x4(_) => VertexFormat::Snorm16x4,
            DynamicAttribute::Float16(_) => VertexFormat::Float16,
            DynamicAttribute::Float16x2(_) => VertexFormat::Float16x2,
            DynamicAttribute::Float16x4(_) => VertexFormat::Float16x4,
            DynamicAttribute::Float32(_) => VertexFormat::Float32,
            DynamicAttribute::Float32x2(_) => VertexFormat::Float32x2,
            DynamicAttribute::Float32x3(_) => VertexFormat::Float32x3,
            DynamicAttribute::Float32x4(_) => VertexFormat::Float32x4,
            DynamicAttribute::Uint32(_) => VertexFormat::Uint32,
            DynamicAttribute::Uint32x2(_) => VertexFormat::Uint32x2,
            DynamicAttribute::Uint32x3(_) => VertexFormat::Uint32x3,
            DynamicAttribute::Uint32x4(_) => VertexFormat::Uint32x4,
            DynamicAttribute::Sint32(_) => VertexFormat::Sint32,
            DynamicAttribute::Sint32x2(_) => VertexFormat::Sint32x2,
            DynamicAttribute::Sint32x3(_) => VertexFormat::Sint32x3,
            DynamicAttribute::Sint32x4(_) => VertexFormat::Sint32x4,
            DynamicAttribute::Float64(_) => VertexFormat::Float64,
            DynamicAttribute::Float64x2(_) => VertexFormat::Float64x2,
            DynamicAttribute::Float64x3(_) => VertexFormat::Float64x3,
            DynamicAttribute::Float64x4(_) => VertexFormat::Float64x4,
            DynamicAttribute::Unorm10_10_10_2(_) => VertexFormat::Unorm10_10_10_2,
            DynamicAttribute::Unorm8x4Bgra(_) => VertexFormat::Unorm8x4Bgra,
        }
    }

    /// The size of the attribute in bytes.
    pub fn size(&self) -> (n: usize)
        ensures
            n == self.format_of().byte_size(),
    {
        self.vertex_format().size() as usize
    }

    /// The required alignment of the attribute.
    pub fn align_of(&self) -> (a: usize)
        ensures
            a == self.format_of().alignment(),
    {
        vertex_format_align_of(self.vertex_format())
    }

    /// The components as unsigned integers.
    fn component_values(&self) -> (v: Vec<u64>)
        ensures
            v@.map_values(|x: u64| x as nat) == self.unsigned_components(),
    {
        let v = match self {
            DynamicAttribute::Uint8(v) => vec![*v as u64],
            DynamicAttribute::Uint8x2(v) => vec![v[0] as u64, v[1] as u64],
            DynamicAttribute::Uint8x4(v) => vec![v[0] as u64, v[1] as u64, v[2] as u64, v[3] as u64],
            DynamicAttribute::Sint8(v) => vec![(*v as u8) as u64],
            DynamicAttribute::Sint8x2(v) => vec![(v[0] as u8) as u64, (v[1] as u8) as u64],
            DynamicAttribute::Sint8x4(v) => vec![(v[0] as u8) as u64, (v[1] as u8) as u64, (v[2] as u8) as u64, (v[3] as u8) as u64],
            DynamicAttribute::Unorm8(v) => vec![*v as u64],
            DynamicAttribute::Unorm8x2(v) => vec![v[0] as u64, v[1] as u64],
            DynamicAttribute::Unorm8x4(v) => vec![v[0] as u64, v[1] as u64, v[2] as u64, v[3] as u64],
            DynamicAttribute::Snorm8(v) => vec![(*v as u8) as u64],
            DynamicAttribute::Snorm8x2(v) => vec![(v[0] as u8) as u64, (v[1] as u8) as u64],
            DynamicAttribute::Snorm8x4(v) => vec![(v[0] as u8) as u64, (v[1] as u8) as u64, (v[2] as u8) as u64, (v[3] as u8) as u64],
            DynamicAttribute::Uint16(v) => vec![*v as u64],
            DynamicAttribute::Uint16x2(v) => vec![v[0] as u64, v[1] as u64],
            DynamicAttribute::Uint16x4(v) => vec![v[0] as u64, v[1] as u64, v[2] as u64, v[3] as u64],
            DynamicAttribute::Sint16(v) => vec![(*v as u16) as u64],
            DynamicAttribute::Sint16x2(v) => vec![(v[0] as u16) as u64, (v[1] as u16) as u64],
            DynamicAttribute::Sint16x4(v) => vec![(v[0] as u16) as u64, (v[1] as u16) as u64, (v[2] as u16) as u64, (v[3] as u16) as u64],
            DynamicAttribute::Unorm16(v) => vec![*v as u64],
            DynamicAttribute::Unorm16x2(v) => vec![v[0] as u64, v[1] as u64],
            DynamicAttribute::Unorm16x4(v) => vec![v[0] as u64, v[1] as u64, v[2] as u64, v[3] as u64],
            DynamicAttribute::Snorm16(v) => vec![(*v as u16) as u64],
            DynamicAttribute::Snorm16x2(v) => vec![(v[0] as u16) as u64, (v[1] as u16) as u64],
            DynamicAttribute::Snorm16x4(v) => vec![(v[0] as u16) as u64, (v[1] as u16) as u64, (v[2] as u16) as u64, (v[3] as u16) as u64],
            DynamicAttribute::Float16(v) => vec![*v as u64],
            DynamicAttribute::Float16x2(v) => vec![v[0] as u64, v[1] as u64],
            DynamicAttribute::Float16x4(v) => vec![v[0] as u64, v[1] as u64, v[2] as u64, v[3] as u64],
            DynamicAttribute::Float32(v) => vec![*v as u64],
            DynamicAttribute::Float32x2(v) => vec![v[0] as u64, v[1] as u64],
            DynamicAttribute::Float32x3(v) => vec![v[0] as u64, v[1] as u64, v[2] as u64],
            DynamicAttribute::Float32x4(v) => vec![v[0] as u64, v[1] as u64, v[2] as u64, v[3] as u64],
            DynamicAttribute::Uint32(v) => vec![*v as u64],
            DynamicAttribute::Uint32x2(v) => vec![v[0] as u64, v[1] as u64],
            DynamicAttribute::Uint32x3(v) => vec![v[0] as u64, v[1] as u64, v[2] as u64],
            DynamicAttribute::Uint32x4(v) => vec![v[0] as u64, v[1] as u64, v[2] as u64, v[3] as u64],
            DynamicAttribute::Sint32(v) => vec![(*v as u32) as u64],
            DynamicAttribute::Sint32x2(v) => vec![(v[0] as u32) as u64, (v[1] as u32) as u64],
            DynamicAttribute::Sint32x3(v) => vec![(v[0] as u32) as u64, (v[1] as u32) as u64, (v[2] as u32) as u64],
            DynamicAttribute::Sint32x4(v) => vec![(v[0] as u32) as u64, (v[1] as u32) as u64, (v[2] as u32) as u64, (v[3] as u32) as u64],
            DynamicAttribute::Float64(v) => vec![*v as u64],
            DynamicAttribute::Float64x2(v) => vec![v[0] as u64, v[1] as u64],
            DynamicAttribute::Float64x3(v) => vec![v[0] as u64, v[1] as u64, v[2] as u64],
            DynamicAttribute::Float64x4(v) => vec![v[0] as u64, v[1] as u64, v[2] as u64, v[3] as u64],
            DynamicAttribute::Unorm10_10_10_2(v) => vec![*v as u64],
            DynamicAttribute::Unorm8x4Bgra(v) => vec![v[0] as u64, v[1] as u64, v[2] as u64, v[3] as u64],
        };
        assert(v@.map_values(|x: u64| x as nat) =~= self.unsigned_components());
        v
    }

    /// Reads an attribute of format `ty` from the start of `buffer`: each component from its
    /// bytes in the machine's byte order.
    pub fn read(ty: VertexFormat, buffer: &[u8]) -> (a: Self)
        requires
            ty.byte_size() <= buffer@.len(),
        ensures
            a.format_of() == ty,
            a.unsigned_components() == decode_components(buffer@, ty.component_bytes(), ty.component_count()),
    {
        let n = ty.comp_bytes();
        let count = ty.comp_count();
        let c = read_components(buffer, n, count);
        let ghost d = decode_components(buffer@, n as nat, count as nat);
        proof {
            lemma_pow256_widths();
            assert forall|k: int| 0 <= k < count implies #[trigger] d[k] < pow256(n as nat) by {
                assert(k * n + n <= count * n) by (nonlinear_arith) requires k < count;
                lemma_native_value_bound(buffer@.subrange(k * n, k * n + n));
            }
        }
        let a = match ty {
            VertexFormat::Uint8 => DynamicAttribute::Uint8(c[0] as u8),
            VertexFormat::Uint8x2 => DynamicAttribute::Uint8x2([c[0] as u8, c[1] as u8]),
            VertexFormat::Uint8x4 => DynamicAttribute::Uint8x4([c[0] as u8, c[1] as u8, c[2] as u8, c[3] as u8]),
            VertexFormat::Sint8 => DynamicAttribute::Sint8(c[0] as u8 as i8),
            VertexFormat::Sint8x2 => DynamicAttribute::Sint8x2([c[0] as u8 as i8, c[1] as u8 as i8]),
            VertexFormat::Sint8x4 => DynamicAttribute::Sint8x4([c[0] as u8 as i8, c[1] as u8 as i8, c[2] as u8 as i8, c[3] as u8 as i8]),
            VertexFormat::Unorm8 => DynamicAttribute::Unorm8(c[0] as u8),
            VertexFormat::Unorm8x2 => DynamicAttribute::Unorm8x2([c[0] as u8, c[1] as u8]),
            VertexFormat::Unorm8x4 => DynamicAttribute::Unorm8x4([c[0] as u8, c[1] as u8, c[2] as u8, c[3] as u8]),
            VertexFormat::Snorm8 => DynamicAttribute::Snorm8(c[0] as u8 as i8),
            VertexFormat::Snorm8x2 => DynamicAttribute::Snorm8x2([c[0] as u8 as i8, c[1] as u8 as i8]),
            VertexFormat::Snorm8x4 => DynamicAttribute::Snorm8x4([c[0] as u8 as i8, c[1] as u8 as i8, c[2] as u8 as i8, c[3] as u8 as i8]),
            VertexFormat::Uint16 => DynamicAttribute::Uint16(c[0] as u16),
            VertexFormat::Uint16x2 => DynamicAttribute::Uint16x2([c[0] as u16, c[1] as u16]),
            VertexFormat::Uint16x4 => DynamicAttribute::Uint16x4([c[0] as u16, c[1] as u16, c[2] as u16, c[3] as u16]),
            VertexFormat::Sint16 => DynamicAttribute::Sint16(c[0] as u16 as i16),
            VertexFormat::Sint16x2 => DynamicAttribute::Sint16x2([c[0] as u16 as i16, c[1] as u16 as i16]),
            VertexFormat::Sint16x4 => DynamicAttribute::Sint16x4([c[0] as u16 as i16, c[1] as u16 as i16, c[2] as u16 as i16, c[3] as u16 as i16]),
            VertexFormat::Unorm16 => DynamicAttribute::Unorm16(c[0] as u16),
            VertexFormat::Unorm16x2 => DynamicAttribute::Unorm16x2([c[0] as u16, c[1] as u16]),
            VertexFormat::Unorm16x4 => DynamicAttribute::Unorm16x4([c[0] as u16, c[1] as u16, c[2] as u16, c[3] as u16]),
            VertexFormat::Snorm16 => DynamicAttribute::Snorm16(c[0] as u16 as i16),
            VertexFormat::Snorm16x2 => DynamicAttribute::Snorm16x2([c[0] as u16 as i16, c[1] as u16 as i16]),
            VertexFormat::Snorm16x4 => DynamicAttribute::Snorm16x4([c[0] as u16 as i16, c[1] as u16 as i16, c[2] as u16 as i16, c[3] as u16 as i16]),
            VertexFormat::Float16 => DynamicAttribute::Float16(c[0] as u16),
            VertexFormat::Float16x2 => DynamicAttribute::Float16x2([c[0] as u16, c[1] as u16]),
            VertexFormat::Float16x4 => DynamicAttribute::Float16x4([c[0] as u16, c[1] as u16, c[2] as u16, c[3] as u16]),
            VertexFormat::Float32 => DynamicAttribute::Float32(c[0] as u32),
            VertexFormat::Float32x2 => DynamicAttribute::Float32x2([c[0] as u32, c[1] as u32]),
            VertexFormat::Float32x3 => DynamicAttribute::Float32x3([c[0] as u32, c[1] as u32, c[2] as u32]),
            VertexFormat::Float32x4 => DynamicAttribute::Float32x4([c[0] as u32, c[1] as u32, c[2] as u32, c[3] as u32]),
            VertexFormat::Uint32 => DynamicAttribute::Uint32(c[0] as u32),
            VertexFormat::Uint32x2 => DynamicAttribute::Uint32x2([c[0] as u32, c[1] as u32]),
            VertexFormat::Uint32x3 => DynamicAttribute::Uint32x3([c[0] as u32, c[1] as u32, c[2] as u32]),
            VertexFormat::Uint32x4 => DynamicAttribute::Uint32x4([c[0] as u32, c[1] as u32, c[2] as u32, c[3] as u32]),
            VertexFormat::Sint32 => DynamicAttribute::Sint32(c[0] as u32 as i32),
            VertexFormat::Sint32x2 => DynamicAttribute::Sint32x2([c[0] as u32 as i32, c[1] as u32 as i32]),
            VertexFormat::Sint32x3 => DynamicAttribute::Sint32x3([c[0] as u32 as i32, c[1] as u32 as i32, c[2] as u32 as i32]),
            VertexFormat::Sint32x4 => DynamicAttribute::Sint32x4([c[0] as u32 as i32, c[1] as u32 as i32, c[2] as u32 as i32, c[3] as u32 as i32]),
            VertexFormat::Float64 => DynamicAttribute::Float64(c[0]),
            VertexFormat::Float64x2 => DynamicAttribute::Float64x2([c[0], c[1]]),
            VertexFormat::Float64x3 => DynamicAttribute::Float64x3([c[0], c[1], c[2]]),
            VertexFormat::Float64x4 => DynamicAttribute::Float64x4([c[0], c[1], c[2], c[3]]),
            VertexFormat::Unorm10_10_10_2 => DynamicAttribute::Unorm10_10_10_2(c[0] as u32),
            VertexFormat::Unorm8x4Bgra => DynamicAttribute::Unorm8x4Bgra([c[0] as u8, c[1] as u8, c[2] as u8, c[3] as u8]),
        };
        proof {
            let uc = a.unsigned_components();
            assert forall|k: int| 0 <= k < count implies #[trigger] uc[k] == d[k] by {
                assert(c@[k] as nat == d[k]);
                match a {
                    DynamicAttribute::Sint8(v) => { lemma_i8_bits(c@[k] as u8, 0, 0); },
                    DynamicAttribute::Sint8x2(v) => { lemma_i8_bits(c@[k] as u8, 0, 0); },
                    DynamicAttribute::Sint8x4(v) => { lemma_i8_bits(c@[k] as u8, 0, 0); },
                    DynamicAttribute::Snorm8(v) => { lemma_i8_bits(c@[k] as u8, 0, 0); },
                    DynamicAttribute::Snorm8x2(v) => { lemma_i8_bits(c@[k] as u8, 0, 0); },
                    DynamicAttribute::Snorm8x4(v) => { lemma_i8_bits(c@[k] as u8, 0, 0); },
                    DynamicAttribute::Sint16(v) => { lemma_i16_bits(c@[k] as u16, 0, 0); },
                    DynamicAttribute::Sint16x2(v) => { lemma_i16_bits(c@[k] as u16, 0, 0); },
                    DynamicAttribute::Sint16x4(v) => { lemma_i16_bits(c@[k] as u16, 0, 0); },
                    DynamicAttribute::Snorm16(v) => { lemma_i16_bits(c@[k] as u16, 0, 0); },
                    DynamicAttribute::Snorm16x2(v) => { lemma_i16_bits(c@[k] as u16, 0, 0); },
                    DynamicAttribute::Snorm16x4(v) => { lemma_i16_bits(c@[k] as u16, 0, 0); },
                    DynamicAttribute::Sint32(v) => { lemma_i32_bits(c@[k] as u32, 0, 0); },
                    DynamicAttribute::Sint32x2(v) => { lemma_i32_bits(c@[k] as u32, 0, 0); },
                    DynamicAttribute::Sint32x3(v) => { lemma_i32_bits(c@[k] as u32, 0, 0); },
                    DynamicAttribute::Sint32x4(v) => { lemma_i32_bits(c@[k] as u32, 0, 0); },
                    _ => {},
                }
            }
            assert(uc =~= d);
        }
        a
    }

    /// Copies the value of the attribute to the start of `buffer`: each component's bytes in
    /// the machine's byte order. The bytes after it keep their values.
    pub fn write(&self, buffer: &mut [u8])
        requires
            self.format_of().byte_size() <= old(buffer)@.len(),
        ensures
            final(buffer)@ == encode_components(self.unsigned_components(), self.format_of().component_bytes())
                + old(buffer)@.skip(self.format_of().byte_size() as int),
    {
        let f = self.vertex_format();
        let n = f.comp_bytes();
        let values = self.component_values();
        proof {
            self.lemma_components_in_range();
            assert forall|k: int| 0 <= k < values@.len() implies (#[trigger] values@[k]) < pow256(n as nat) by {
                assert(values@.map_values(|x: u64| x as nat)[k] == values@[k] as nat);
            }
        }
        write_components(buffer, &values, n);
    }

    /// There is one component per component of the format, each below `256^width`.
    pub proof fn lemma_components_in_range(self)
        ensures
            self.unsigned_components().len() == self.format_of().component_count(),
            self.format_of().byte_size() == self.format_of().component_count() * self.format_of().component_bytes(),
            forall|k: int| 0 <= k < self.unsigned_components().len() ==>
                (#[trigger] self.unsigned_components()[k]) < pow256(self.format_of().component_bytes()),
    {
        lemma_pow256_widths();
    }
}

/// The format and the components determine the attribute.
pub proof fn lemma_components_determine(a: DynamicAttribute, b: DynamicAttribute)
    requires
        a.format_of() == b.format_of(),
        a.unsigned_components() == b.unsigned_components(),
    ensures
        a == b,
{
    let ua = a.unsigned_components();
    let ub = b.unsigned_components();
    match (a, b) {
        (DynamicAttribute::Uint8(x), DynamicAttribute::Uint8(y)) => { assert(ua == seq![x as nat]); assert(ub == seq![y as nat]); assert(ua[0] == x as nat); assert(ub[0] == y as nat); },
        (DynamicAttribute::Uint8x2(x), DynamicAttribute::Uint8x2(y)) => { assert(ua[0] == ub[0]); assert(ua[1] == ub[1]); assert(x =~= y); },
        (DynamicAttribute::Uint8x4(x), DynamicAttribute::Uint8x4(y)) => { assert(ua[0] == ub[0]); assert(ua[1] == ub[1]); assert(ua[2] == ub[2]); assert(ua[3] == ub[3]); assert(x =~= y); },
        (DynamicAttribute::Sint8(x), DynamicAttribute::Sint8(y)) => { lemma_i8_bits(0, x, y); assert(ua == seq![(x as u8) as nat]); assert(ub == seq![(y as u8) as nat]); assert(ua[0] == (x as u8) as nat); assert(ub[0] == (y as u8) as nat); },
        (DynamicAttribute::Sint8x2(x), DynamicAttribute::Sint8x2(y)) => { assert(ua[0] == ub[0]); lemma_i8_bits(0, x[0], y[0]); assert(ua[1] == ub[1]); lemma_i8_bits(0, x[1], y[1]); assert(x =~= y); },
        (DynamicAttribute::Sint8x4(x), DynamicAttribute::Sint8x4(y)) => { assert(ua[0] == ub[0]); lemma_i8_bits(0, x[0], y[0]); assert(ua[1] == ub[1]); lemma_i8_bits(0, x[1], y[1]); assert(ua[2] == ub[2]); lemma_i8_bits(0, x[2], y[2]); assert(ua[3] == ub[3]); lemma_i8_bits(0, x[3], y[3]); assert(x =~= y); },
        (DynamicAttribute::Unorm8(x), DynamicAttribute::Unorm8(y)) => { assert(ua == seq![x as nat]); assert(ub == seq![y as nat]); assert(ua[0] == x as nat); assert(ub[0] == y as nat); },
        (DynamicAttribute::Unorm8x2(x), DynamicAttribute::Unorm8x2(y)) => { assert(ua[0] == ub[0]); assert(ua[1] == ub[1]); assert(x =~= y); },
        (DynamicAttribute::Unorm8x4(x), DynamicAttribute::Unorm8x4(y)) => { assert(ua[0] == ub[0]); assert(ua[1] == ub[1]); assert(ua[2] == ub[2]); assert(ua[3] == ub[3]); assert(x =~= y); },
        (DynamicAttribute::Snorm8(x), DynamicAttribute::Snorm8(y)) => { lemma_i8_bits(0, x, y); assert(ua == seq![(x as u8) as nat]); assert(ub == seq![(y as u8) as nat]); assert(ua[0] == (x as u8) as nat); assert(ub[0] == (y as u8) as nat); },
        (DynamicAttribute::Snorm8x2(x), DynamicAttribute::Snorm8x2(y)) => { assert(ua[0] == ub[0]); lemma_i8_bits(0, x[0], y[0]); assert(ua[1] == ub[1]); lemma_i8_bits(0, x[1], y[1]); assert(x =~= y); },
        (DynamicAttribute::Snorm8x4(x), DynamicAttribute::Snorm8x4(y)) => { assert(ua[0] == ub[0]); lemma_i8_bits(0, x[0], y[0]); assert(ua[1] == ub[1]); lemma_i8_bits(0, x[1], y[1]); assert(ua[2] == ub[2]); lemma_i8_bits(0, x[2], y[2]); assert(ua[3] == ub[3]); lemma_i8_bits(0, x[3], y[3]); assert(x =~= y); },
        (DynamicAttribute::Uint16(x), DynamicAttribute::Uint16(y)) => { assert(ua == seq![x as nat]); assert(ub == seq![y as nat]); assert(ua[0] == x as nat); assert(ub[0] == y as nat); },
        (DynamicAttribute::Uint16x2(x), DynamicAttribute::Uint16x2(y)) => { assert(ua[0] == ub[0]); assert(ua[1] == ub[1]); assert(x =~= y); },
        (DynamicAttribute::Uint16x4(x), DynamicAttribute::Uint16x4(y)) => { assert(ua[0] == ub[0]); assert(ua[1] == ub[1]); assert(ua[2] == ub[2]); assert(ua[3] == ub[3]); assert(x =~= y); },
        (DynamicAttribute::Sint16(x), DynamicAttribute::Sint16(y)) => { lemma_i16_bits(0, x, y); assert(ua == seq![(x as u16) as nat]); assert(ub == seq![(y as u16) as nat]); assert(ua[0] == (x as u16) as nat); assert(ub[0] == (y as u16) as nat); },
        (DynamicAttribute::Sint16x2(x), DynamicAttribute::Sint16x2(y)) => { assert(ua[0] == ub[0]); lemma_i16_bits(0, x[0], y[0]); assert(ua[1] == ub[1]); lemma_i16_bits(0, x[1], y[1]); assert(x =~= y); },
        (DynamicAttribute::Sint16x4(x), DynamicAttribute::Sint16x4(y)) => { assert(ua[0] == ub[0]); lemma_i16_bits(0, x[0], y[0]); assert(ua[1] == ub[1]); lemma_i16_bits(0, x[1], y[1]); assert(ua[2] == ub[2]); lemma_i16_bits(0, x[2], y[2]); assert(ua[3] == ub[3]); lemma_i16_bits(0, x[3], y[3]); assert(x =~= y); },
        (DynamicAttribute::Unorm16(x), DynamicAttribute::Unorm16(y)) => { assert(ua == seq![x as nat]); assert(ub == seq![y as nat]); assert(ua[0] == x as nat); assert(ub[0] == y as nat); },
        (DynamicAttribute::Unorm16x2(x), DynamicAttribute::Unorm16x2(y)) => { assert(ua[0] == ub[0]); assert(ua[1] == ub[1]); assert(x =~= y); },
        (DynamicAttribute::Unorm16x4(x), DynamicAttribute::Unorm16x4(y)) => { assert(ua[0] == ub[0]); assert(ua[1] == ub[1]); assert(ua[2] == ub[2]); assert(ua[3] == ub[3]); assert(x =~= y); },
        (DynamicAttribute::Snorm16(x), DynamicAttribute::Snorm16(y)) => { lemma_i16_bits(0, x, y); assert(ua == seq![(x as u16) as nat]); assert(ub == seq![(y as u16) as nat]); assert(ua[0] == (x as u16) as nat); assert(ub[0] == (y as u16) as nat); },
        (DynamicAttribute::Snorm16x2(x), DynamicAttribute::Snorm16x2(y)) => { assert(ua[0] == ub[0]); lemma_i16_bits(0, x[0], y[0]); assert(ua[1] == ub[1]); lemma_i16_bits(0, x[1], y[1]); assert(x =~= y); },
        (DynamicAttribute::Snorm16x4(x), DynamicAttribute::Snorm16x4(y)) => { assert(ua[0] == ub[0]); lemma_i16_bits(0, x[0], y[0]); assert(ua[1] == ub[1]); lemma_i16_bits(0, x[1], y[1]); assert(ua[2] == ub[2]); lemma_i16_bits(0, x[2], y[2]); assert(ua[3] == ub[3]); lemma_i16_bits(0, x[3], y[3]); assert(x =~= y); },
        (DynamicAttribute::Float16(x), DynamicAttribute::Float16(y)) => { assert(ua == seq![x as nat]); assert(ub == seq![y as nat]); assert(ua[0] == x as nat); assert(ub[0] == y as nat); },
        (DynamicAttribute::Float16x2(x), DynamicAttribute::Float16x2(y)) => { assert(ua[0] == ub[0]); assert(ua[1] == ub[1]); assert(x =~= y); },
        (DynamicAttribute::Float16x4(x), DynamicAttribute::Float16x4(y)) => { assert(ua[0] == ub[0]); assert(ua[1] == ub[1]); assert(ua[2] == ub[2]); assert(ua[3] == ub[3]); assert(x =~= y); },
        (DynamicAttribute::Float32(x), DynamicAttribute::Float32(y)) => { assert(ua == seq![x as nat]); assert(ub == seq![y as nat]); assert(ua[0] == x as nat); assert(ub[0] == y as nat); },
        (DynamicAttribute::Float32x2(x), DynamicAttribute::Float32x2(y)) => { assert(ua[0] == ub[0]); assert(ua[1] == ub[1]); assert(x =~= y); },
        (DynamicAttribute::Float32x3(x), DynamicAttribute::Float32x3(y)) => { assert(ua[0] == ub[0]); assert(ua[1] == ub[1]); assert(ua[2] == ub[2]); assert(x =~= y); },
        (DynamicAttribute::Float32x4(x), DynamicAttribute::Float32x4(y)) => { assert(ua[0] == ub[0]); assert(ua[1] == ub[1]); assert(ua[2] == ub[2]); assert(ua[3] == ub[3]); assert(x =~= y); },
        (DynamicAttribute::Uint32(x), DynamicAttribute::Uint32(y)) => { assert(ua == seq![x as nat]); assert(ub == seq![y as nat]); assert(ua[0] == x as nat); assert(ub[0] == y as nat); },
        (DynamicAttribute::Uint32x2(x), DynamicAttribute::Uint32x2(y)) => { assert(ua[0] == ub[0]); assert(ua[1] == ub[1]); assert(x =~= y); },
        (DynamicAttribute::Uint32x3(x), DynamicAttribute::Uint32x3(y)) => { assert(ua[0] == ub[0]); assert(ua[1] == ub[1]); assert(ua[2] == ub[2]); assert(x =~= y); },
        (DynamicAttribute::Uint32x4(x), DynamicAttribute::Uint32x4(y)) => { assert(ua[0] == ub[0]); assert(ua[1] == ub[1]); assert(ua[2] == ub[2]); assert(ua[3] == ub[3]); assert(x =~= y); },
        (DynamicAttribute::Sint32(x), DynamicAttribute::Sint32(y)) => { lemma_i32_bits(0, x, y); assert(ua == seq![(x as u32) as nat]); assert(ub == seq![(y as u32) as nat]); assert(ua[0] == (x as u32) as nat); assert(ub[0] == (y as u32) as nat); },
        (DynamicAttribute::Sint32x2(x), DynamicAttribute::Sint32x2(y)) => { assert(ua[0] == ub[0]); lemma_i32_bits(0, x[0], y[0]); assert(ua[1] == ub[1]); lemma_i32_bits(0, x[1], y[1]); assert(x =~= y); },
        (DynamicAttribute::Sint32x3(x), DynamicAttribute::Sint32x3(y)) => { assert(ua[0] == ub[0]); lemma_i32_bits(0, x[0], y[0]); assert(ua[1] == ub[1]); lemma_i32_bits(0, x[1], y[1]); assert(ua[2] == ub[2]); lemma_i32_bits(0, x[2], y[2]); assert(x =~= y); },
        (DynamicAttribute::Sint32x4(x), DynamicAttribute::Sint32x4(y)) => { assert(ua[0] == ub[0]); lemma_i32_bits(0, x[0], y[0]); assert(ua[1] == ub[1]); lemma_i32_bits(0, x[1], y[1]); assert(ua[2] == ub[2]); lemma_i32_bits(0, x[2], y[2]); assert(ua[3] == ub[3]); lemma_i32_bits(0, x[3], y[3]); assert(x =~= y); },
        (DynamicAttribute::Float64(x), DynamicAttribute::Float64(y)) => { assert(ua == seq![x as nat]); assert(ub == seq![y as nat]); assert(ua[0] == x as nat); assert(ub[0] == y as nat); },
        (DynamicAttribute::Float64x2(x), DynamicAttribute::Float64x2(y)) => { assert(ua[0] == ub[0]); assert(ua[1] == ub[1]); assert(x =~= y); },
        (DynamicAttribute::Float64x3(x), DynamicAttribute::Float64x3(y)) => { assert(ua[0] == ub[0]); assert(ua[1] == ub[1]); assert(ua[2] == ub[2]); assert(x =~= y); },
        (DynamicAttribute::Float64x4(x), DynamicAttribute::Float64x4(y)) => { assert(ua[0] == ub[0]); assert(ua[1] == ub[1]); assert(ua[2] == ub[2]); assert(ua[3] == ub[3]); assert(x =~= y); },
        (DynamicAttribute::Unorm10_10_10_2(x), DynamicAttribute::Unorm10_10_10_2(y)) => { assert(ua == seq![x as nat]); assert(ub == seq![y as nat]); assert(ua[0] == x as nat); assert(ub[0] == y as nat); },
        (DynamicAttribute::Unorm8x4Bgra(x), DynamicAttribute::Unorm8x4Bgra(y)) => { assert(ua[0] == ub[0]); assert(ua[1] == ub[1]); assert(ua[2] == ub[2]); assert(ua[3] == ub[3]); assert(x =~= y); },
        _ => {},
    }
}

/// Writing an attribute and reading an attribute of the same format back from those bytes
/// gives the attribute that was written, whatever follows it.
pub proof fn lemma_read_after_write(a: DynamicAttribute, rest: Seq<u8>, r: DynamicAttribute)
    requires
        r.format_of() == a.format_of(),
        r.unsigned_components() == decode_components(
            encode_components(a.unsigned_components(), a.format_of().component_bytes()) + rest,
            a.format_of().component_bytes(),
            a.format_of().component_count(),
        ),
    ensures
        r == a,
{
    a.lemma_components_in_range();
    lemma_decode_encode(a.unsigned_components(), a.format_of().component_bytes(), rest);
    lemma_components_determine(r, a);
}

} // verus!
