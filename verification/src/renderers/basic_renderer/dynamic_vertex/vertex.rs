//! Vertex layouts described at run time: named attributes with formats and byte offsets.

use vstd::prelude::*;
use super::attribute::{lemma_read_after_write, DynamicAttribute};
use super::byte_order::{decode_components, encode_components};
use super::vertex_format::{vertex_format_align_of, VertexFormat};

verus! {

/// A vertex attribute as the GPU pipeline sees it: its shader location, format and byte offset.
#[derive(Debug, Clone, Copy, PartialEq, Eq, Structural)]
pub struct VertexAttribute {
    pub shader_location: u32,
    pub format: VertexFormat,
    pub offset: u64,
}

/// The parts of a vertex buffer layout: the stride between vertices and the attributes.
pub struct VertexBufferLayoutBuilder {
    pub array_stride: u64,
    pub attributes: Vec<VertexAttribute>,
}

/// Describes a single attribute within a vertex layout, including its name, format, and byte offset.
#[derive(Debug)]
pub struct NamedAttributeDescriptor {
    /// The name of the attribute (e.g., "position", "color", "uv").
    pub name: String,
    /// The format of the attribute data.
    pub format: VertexFormat,
    /// The byte offset of this attribute from the start of the vertex.
    pub offset: usize,
}

impl Clone for NamedAttributeDescriptor {
    fn clone(&self) -> (c: Self)
        ensures
            c == *self,
    {
        NamedAttributeDescriptor { name: self.name.clone(), format: self.format, offset: self.offset }
    }
}

/// The names of a list of attributes, in order.
pub open spec fn attribute_names(attributes: Seq<NamedAttributeDescriptor>) -> Seq<Seq<char>> {
    attributes.map_values(|a: NamedAttributeDescriptor| a.name@)
}

/// The position of the first occurrence of `name` in `names`, if any.
pub open spec fn first_index_of(names: Seq<Seq<char>>, name: Seq<char>) -> Option<nat>
    decreases names.len(),
{
    if names.len() == 0 {
        None
    } else if names[0] == name {
        Some(0)
    } else {
        match first_index_of(names.drop_first(), name) {
            Some(i) => Some(i + 1),
            None => None,
        }
    }
}

/// `first_index_of` finds `name` at the first position that holds it.
pub proof fn lemma_first_index_of(names: Seq<Seq<char>>, name: Seq<char>)
    ensures
        first_index_of(names, name) matches Some(i) ==> i < names.len() && names[i as int] == name
            && forall|j: int| 0 <= j < i ==> names[j] != name,
        first_index_of(names, name) is None ==> forall|j: int| 0 <= j < names.len() ==> names[j] != name,
    decreases names.len(),
{
    if names.len() > 0 {
        lemma_first_index_of(names.drop_first(), name);
        assert forall|j: int| 1 <= j < names.len() implies names[j] == names.drop_first()[j - 1] by {}
    }
}

/// Looks up the first name equal to `name` from position `start` on.
fn find_name(attributes: &Vec<NamedAttributeDescriptor>, name: &str) -> (r: Option<usize>)
    ensures
        r matches Some(i) ==> Some(i as nat) == first_index_of(attribute_names(attributes@), name@),
        r is None <==> first_index_of(attribute_names(attributes@), name@) is None,
{
    let key = String::from_str(name);
    let ghost names = attribute_names(attributes@);
    let mut i: usize = 0;
    proof {
        lemma_first_index_of(names, name@);
    }
    while i < attributes.len()
        invariant
            i <= attributes@.len(),
            names == attribute_names(attributes@),
            key@ == name@,
            forall|j: int| 0 <= j < i ==> names[j] != name@,
        decreases attributes@.len() - i,
    {
        if attributes[i].name == key {
            proof {
                lemma_first_index_of(names, name@);
                match first_index_of(names, name@) {
                    Some(k) => {
                        if k < i { assert(names[k as int] != name@); }
                        if k > i { assert(names[i as int] == name@); }
                    },
                    None => { assert(names[i as int] == name@); },
                }
            }
            return Some(i);
        }
        i = i + 1;
    }
    proof {
        lemma_first_index_of(names, name@);
        if first_index_of(names, name@) is Some {
            let k = first_index_of(names, name@)->0;
            assert(names[k as int] != name@);
        }
    }
    None
}

/// A descriptor that defines the layout of a vertex buffer.
///
/// Any attributes can be specified, but three names are special to the generated shader code:
/// `position` (the clip position; missing x, y, z components default to 0.0 and w to 1.0),
/// `color` (the vertex colour, from grey, grey and alpha, RGB or RGBA) and `uv` (texture
/// coordinates; components after the second are discarded).
#[derive(Debug)]
pub struct DynamicVertexDescriptor {
    /// The total size of a single vertex in bytes.
    pub stride: usize,
    /// The required alignment for this vertex structure.
    pub _align: usize,
    /// The list of attributes that make up the vertex.
    pub attributes: Vec<NamedAttributeDescriptor>,
}

/// A copy of `attributes`, attribute by attribute.
fn clone_attributes(attributes: &Vec<NamedAttributeDescriptor>) -> (c: Vec<NamedAttributeDescriptor>)
    ensures
        c@ == attributes@,
{
    let mut c: Vec<NamedAttributeDescriptor> = Vec::new();
    let mut i: usize = 0;
    while i < attributes.len()
        invariant
            i <= attributes@.len(),
            c@ == attributes@.take(i as int),
        decreases attributes@.len() - i,
    {
        c.push(attributes[i].clone());
        assert(c@ =~= attributes@.take(i + 1));
        i = i + 1;
    }
    assert(attributes@.take(attributes@.len() as int) =~= attributes@);
    c
}

impl Clone for DynamicVertexDescriptor {
    fn clone(&self) -> (c: Self)
        ensures
            c.stride == self.stride,
            c._align == self._align,
            c.attributes@ == self.attributes@,
    {
        DynamicVertexDescriptor {
            stride: self.stride,
            _align: self._align,
            attributes: clone_attributes(&self.attributes),
        }
    }
}

impl Default for DynamicVertexDescriptor {
    fn default() -> (d: Self)
        ensures
            d.stride == 0,
            d._align == 0,
            d.attributes@ == Seq::<NamedAttributeDescriptor>::empty(),
    {
        DynamicVertexDescriptor { stride: 0, _align: 0, attributes: Vec::new() }
    }
}

/// The pipeline attribute for attribute `a` at position `i` of a vertex layout.
pub open spec fn layout_attribute(i: int, a: NamedAttributeDescriptor) -> VertexAttribute {
    VertexAttribute { shader_location: i as u32, format: a.format, offset: a.offset as u64 }
}

/// The offset at which `with_attribute` places an attribute of format `format` after
/// `next_offset`: the given offset, or else the next multiple of the format's alignment.
pub open spec fn chosen_offset(offset: Option<usize>, next_offset: usize, format: VertexFormat) -> int {
    match offset {
        Some(o) => o as int,
        None => round_up(next_offset as int, format.alignment() as int),
    }
}

impl DynamicVertexDescriptor {
    /// Finds the index of the first attribute with the given name.
    pub fn index_of(&self, name: &str) -> (r: Option<usize>)
        ensures
            r matches Some(i) ==> Some(i as nat) == first_index_of(attribute_names(self.attributes@), name@),
            r is None <==> first_index_of(attribute_names(self.attributes@), name@) is None,
    {
        find_name(&self.attributes, name)
    }

    /// The stride and the attributes of the vertex buffer layout, each attribute at the shader
    /// location of its position in the list.
    pub fn vertex_buffer_layout_builder(&self) -> (b: VertexBufferLayoutBuilder)
        ensures
            b.array_stride == self.stride as u64,
            b.attributes@.len() == self.attributes@.len(),
            forall|i: int| 0 <= i < b.attributes@.len() ==>
                #[trigger] b.attributes@[i] == layout_attribute(i, self.attributes@[i]),
    {
        let mut attributes: Vec<VertexAttribute> = Vec::new();
        let mut i: usize = 0;
        while i < self.attributes.len()
            invariant
                i <= self.attributes@.len(),
                attributes@.len() == i,
                forall|j: int| 0 <= j < i ==> #[trigger] attributes@[j] == layout_attribute(j, self.attributes@[j]),
            decreases self.attributes@.len() - i,
        {
            attributes.push(VertexAttribute {
                shader_location: i as u32,
                format: self.attributes[i].format,
                offset: self.attributes[i].offset as u64,
            });
            i = i + 1;
        }
        VertexBufferLayoutBuilder { array_stride: self.stride as u64, attributes }
    }
}

/// `n` rounded up to a multiple of `a`.
pub open spec fn round_up(n: int, a: int) -> int {
    (n + a - 1) / a * a
}

/// `round_up(n, a)` is the smallest multiple of `a` that is at least `n`.
pub proof fn lemma_round_up(n: int, a: int)
    requires
        n >= 0,
        a > 0,
    ensures
        round_up(n, a) % a == 0,
        n <= round_up(n, a) < n + a,
{
    let q = (n + (a - 1)) / a;
    let r = (n + a - 1) % a;
    vstd::arithmetic::div_mod::lemma_fundamental_div_mod(n + a - 1, a);
    vstd::arithmetic::div_mod::lemma_mod_multiples_basic(q, a);
    assert(q * a == n + a - 1 - r) by (nonlinear_arith)
        requires n + a - 1 == a * q + r;
    assert(round_up(n, a) == q * a);
}

/// `n` rounded up to a multiple of `a`.
fn round_up_usize(n: usize, a: usize) -> (r: usize)
    requires
        a > 0,
        n + a - 1 <= usize::MAX,
    ensures
        r == round_up(n as int, a as int),
{
    proof {
        lemma_round_up(n as int, a as int);
    }
    let q = (n + (a - 1)) / a;
    assert(q * a == round_up(n as int, a as int));
    q * a
}

/// Whether `x` is a multiple of `a`.
pub open spec fn is_multiple(x: int, a: int) -> bool {
    x % a == 0
}

/// Whether each attribute's offset is a multiple of its format's alignment.
pub open spec fn offsets_aligned(attributes: Seq<NamedAttributeDescriptor>) -> bool {
    forall|i: int| 0 <= i < attributes.len() ==>
        is_multiple((#[trigger] attributes[i]).offset as int, attributes[i].format.alignment() as int)
}

/// Whether each attribute ends before every later attribute starts, and `end` is the end of
/// the last one (0 when there is none).
pub open spec fn in_sequence(attributes: Seq<NamedAttributeDescriptor>, end: int) -> bool {
    &&& forall|i: int, j: int| 0 <= i < j < attributes.len() ==>
        (#[trigger] attributes[i]).offset + attributes[i].format.byte_size() <= (#[trigger] attributes[j]).offset
    &&& attributes.len() == 0 ==> end == 0
    &&& attributes.len() > 0 ==> end == attributes.last().offset + attributes.last().format.byte_size()
}

/// Whether each attribute's offset is a multiple of its format's alignment, the attributes
/// follow each other without overlapping, and `end` is the end of the last one (0 when there
/// is none).
pub open spec fn laid_out(attributes: Seq<NamedAttributeDescriptor>, end: int) -> bool {
    offsets_aligned(attributes) && in_sequence(attributes, end)
}

/// Appending an attribute that starts at or after `end`, at a multiple of its alignment,
/// keeps the attributes laid out, now ending where the new attribute ends.
proof fn lemma_laid_out_push(attributes: Seq<NamedAttributeDescriptor>, end: int, a: NamedAttributeDescriptor)
    requires
        laid_out(attributes, end),
        a.offset >= end,
        is_multiple(a.offset as int, a.format.alignment() as int),
    ensures
        laid_out(attributes.push(a), a.offset + a.format.byte_size()),
{
    let p = attributes.push(a);
    assert forall|i: int, j: int| 0 <= i < j < p.len() implies
        (#[trigger] p[i]).offset + p[i].format.byte_size() <= (#[trigger] p[j]).offset by {
        assert(p[i] == attributes[i]);
        if j < attributes.len() {
            assert(p[j] == attributes[j]);
        } else {
            if i < attributes.len() - 1 {
                assert(attributes[i].offset + attributes[i].format.byte_size() <= attributes[attributes.len() - 1].offset);
            }
        }
    }
    assert forall|i: int| 0 <= i < p.len() implies
        is_multiple((#[trigger] p[i]).offset as int, p[i].format.alignment() as int) by {
        if i < attributes.len() {
            assert(p[i] == attributes[i]);
        }
    }
}

/// A builder for a [`DynamicVertexDescriptor`] that places each attribute at the next offset
/// that suits its alignment, unless an offset is given.
pub struct DynamicVertexDescriptorBuilder {
    stride: Option<usize>,
    align: usize,
    attributes: Vec<NamedAttributeDescriptor>,
    next_offset: usize,
}

impl DynamicVertexDescriptorBuilder {
    #[verifier::type_invariant]
    spec fn inv(self) -> bool {
        &&& self.align > 0
        &&& laid_out(self.attributes@, self.next_offset as int)
        &&& forall|i: int| 0 <= i < self.attributes@.len() ==>
            (#[trigger] self.attributes@[i]).format.alignment() <= self.align
    }

    /// The stride chosen with `with_stride`, if any.
    pub closed spec fn stride_spec(self) -> Option<usize> {
        self.stride
    }

    /// The largest alignment of the attributes added so far (1 when there is none).
    pub closed spec fn align_spec(self) -> usize {
        self.align
    }

    /// The attributes added so far, in order.
    pub closed spec fn attributes_spec(self) -> Seq<NamedAttributeDescriptor> {
        self.attributes@
    }

    /// The first byte after the last attribute added so far.
    pub closed spec fn next_offset_spec(self) -> usize {
        self.next_offset
    }

    /// The first byte after the last attribute added so far.
    pub fn next_offset(&self) -> (n: usize)
        ensures
            n == self.next_offset_spec(),
    {
        self.next_offset
    }

    /// The largest alignment of the attributes added so far (1 when there is none).
    pub fn align(&self) -> (a: usize)
        ensures
            a == self.align_spec(),
    {
        self.align
    }

    /// The number of attributes added so far.
    pub fn attribute_count(&self) -> (n: usize)
        ensures
            n == self.attributes_spec().len(),
    {
        self.attributes.len()
    }

    /// A builder with no attributes and no stride.
    pub fn new() -> (b: Self)
        ensures
            b.stride_spec() is None,
            b.align_spec() == 1,
            b.attributes_spec() == Seq::<NamedAttributeDescriptor>::empty(),
            b.next_offset_spec() == 0,
    {
        Self { stride: None, align: 1, attributes: Vec::new(), next_offset: 0 }
    }

    /// Fixes the stride of the vertex instead of deriving it from the attributes.
    pub fn with_stride(self, stride: usize) -> (b: Self)
        ensures
            b.stride_spec() == Some(stride),
            b.align_spec() == self.align_spec(),
            b.attributes_spec() == self.attributes_spec(),
            b.next_offset_spec() == self.next_offset_spec(),
    {
        proof {
            use_type_invariant(&self);
        }
        let Self { stride: _, align, attributes, next_offset } = self;
        Self { stride: Some(stride), align, attributes, next_offset }
    }

    /// Adds an attribute at `offset`, or, when no offset is given, at the first offset after
    /// the previous attribute that is a multiple of the format's alignment. A given offset may
    /// not lie before the end of the previous attribute and must be a multiple of the format's
    /// alignment.
    pub fn with_attribute(self, name: &str, format: VertexFormat, offset: Option<usize>) -> (b: Self)
        requires
            self.next_offset_spec() + format.alignment() - 1 <= usize::MAX,
            offset matches Some(o) ==> {
                &&& o >= self.next_offset_spec()
                &&& is_multiple(o as int, format.alignment() as int)
            },
            chosen_offset(offset, self.next_offset_spec(), format) + format.byte_size() <= usize::MAX,
        ensures
            b.stride_spec() == self.stride_spec(),
            b.attributes_spec().len() == self.attributes_spec().len() + 1,
            b.attributes_spec().drop_last() == self.attributes_spec(),
            b.attributes_spec().last().name@ == name@,
            b.attributes_spec().last().format == format,
            b.attributes_spec().last().offset == chosen_offset(offset, self.next_offset_spec(), format),
            b.next_offset_spec() == b.attributes_spec().last().offset + format.byte_size(),
            b.align_spec() == if self.align_spec() >= format.alignment() {
                self.align_spec()
            } else {
                format.alignment() as usize
            },
            laid_out(b.attributes_spec(), b.next_offset_spec() as int),
    {
        proof {
            use_type_invariant(&self);
        }
        let Self { stride, align: old_align, mut attributes, next_offset } = self;
        let ghost old_next = next_offset;
        let align = vertex_format_align_of(format);
        proof {
            lemma_round_up(next_offset as int, align as int);
        }
        let align_min_offset = round_up_usize(next_offset, align);
        let offset = match offset {
            Some(o) => o,
            None => align_min_offset,
        };
        assert(offset >= next_offset);
        assert(offset % align == 0);
        let ghost old_attrs = attributes@;
        attributes.push(NamedAttributeDescriptor {
            name: String::from_str(name),
            format,
            offset,
        });
        let next_offset = offset + format.size() as usize;
        let align = if old_align >= align { old_align } else { align };
        proof {
            lemma_laid_out_push(old_attrs, old_next as int, attributes@.last());
            assert(attributes@ == old_attrs.push(attributes@.last()));
            assert forall|i: int| 0 <= i < attributes@.len() implies
                (#[trigger] attributes@[i]).format.alignment() <= align by {
                if i < old_attrs.len() {
                    assert(attributes@[i] == old_attrs[i]);
                }
            }
        }
        Self { stride, align, attributes, next_offset }
    }

    /// The descriptor: the given stride, or else the end of the last attribute rounded up to
    /// the largest alignment. There must be at least one attribute, and a given stride must be
    /// a multiple of the largest alignment.
    pub fn build(self) -> (d: DynamicVertexDescriptor)
        requires
            self.attributes_spec().len() > 0,
            self.stride_spec() matches Some(s) ==> s % self.align_spec() == 0,
            self.stride_spec() is None ==> self.next_offset_spec() + self.align_spec() - 1 <= usize::MAX,
        ensures
            d.stride == (match self.stride_spec() {
                Some(s) => s as int,
                None => round_up(self.next_offset_spec() as int, self.align_spec() as int),
            }),
            d._align == self.align_spec(),
            d.attributes@ == self.attributes_spec(),
            d._align > 0,
            d.stride % d._align == 0,
            self.stride_spec() is None ==> self.next_offset_spec() <= d.stride,
            laid_out(d.attributes@, self.next_offset_spec() as int),
            forall|i: int| 0 <= i < d.attributes@.len() ==> (#[trigger] d.attributes@[i]).format.alignment() <= d._align,
    {
        proof {
            use_type_invariant(&self);
            lemma_round_up(self.next_offset as int, self.align as int);
        }
        let Self { stride, align, attributes, next_offset } = self;
        let stride = match stride {
            Some(s) => s,
            None => round_up_usize(next_offset, align),
        };
        DynamicVertexDescriptor { stride, _align: align, attributes }
    }
}

/// The names of the WGSL attributes of a layout are the names of its attributes.
pub proof fn lemma_wgsl_names(attributes: Seq<NamedAttributeDescriptor>)
    ensures
        super::wgsl::wgsl_vertex::entry_names(super::wgsl::wgsl_vertex::wgsl_entries(attributes))
            == attribute_names(attributes),
{
    assert(super::wgsl::wgsl_vertex::entry_names(super::wgsl::wgsl_vertex::wgsl_entries(attributes))
        =~= attribute_names(attributes));
}


/// Whether `a` is the attribute that descriptor `d` reads from the vertex bytes `bytes`: of
/// `d`'s format, its components decoded from the bytes at `d`'s offset.
pub open spec fn read_from(d: NamedAttributeDescriptor, bytes: Seq<u8>, a: DynamicAttribute) -> bool {
    &&& a.format_of() == d.format
    &&& a.unsigned_components() == decode_components(
        bytes.skip(d.offset as int),
        d.format.component_bytes(),
        d.format.component_count(),
    )
}

/// Whether every attribute of `attributes` lies within the first `len` bytes.
pub open spec fn attributes_within(attributes: Seq<NamedAttributeDescriptor>, len: int) -> bool {
    forall|i: int| 0 <= i < attributes.len() ==>
        (#[trigger] attributes[i]).offset + attributes[i].format.byte_size() <= len
}

/// A single vertex read into memory: one value per attribute of its layout.
pub struct DynamicVertex {
    /// The attribute values.
    pub attributes: Vec<DynamicAttribute>,
}

impl DynamicVertex {
    /// Reads a vertex laid out as `desc` describes from the start of `buffer`, which holds at
    /// least one vertex.
    pub fn read(desc: &DynamicVertexDescriptor, buffer: &[u8]) -> (v: Self)
        requires
            buffer@.len() >= desc.stride,
            attributes_within(desc.attributes@, buffer@.len() as int),
        ensures
            v.attributes@.len() == desc.attributes@.len(),
            forall|i: int| 0 <= i < v.attributes@.len() ==>
                read_from(desc.attributes@[i], buffer@, #[trigger] v.attributes@[i]),
    {
        let mut attributes: Vec<DynamicAttribute> = Vec::new();
        let mut i: usize = 0;
        while i < desc.attributes.len()
            invariant
                i <= desc.attributes@.len(),
                attributes_within(desc.attributes@, buffer@.len() as int),
                attributes@.len() == i,
                forall|j: int| 0 <= j < i ==> read_from(desc.attributes@[j], buffer@, #[trigger] attributes@[j]),
            decreases desc.attributes@.len() - i,
        {
            let attr_desc = &desc.attributes[i];
            assert(attr_desc.offset + attr_desc.format.byte_size() <= buffer@.len());
            let offset = attr_desc.offset;
            let rest = &buffer[offset..buffer.len()];
            assert(rest@ =~= buffer@.skip(offset as int));
            let attr = DynamicAttribute::read(attr_desc.format, rest);
            attributes.push(attr);
            i = i + 1;
        }
        DynamicVertex { attributes }
    }
}

impl DynamicVertexDescriptor {
    /// Reads every whole vertex of `vertex_buffer`, one after the other, `stride` bytes apart;
    /// bytes after the last whole vertex are left out. When the buffer holds a whole vertex,
    /// every attribute must lie within the stride.
    pub fn read_vertices(&self, vertex_buffer: &[u8]) -> (vs: Vec<DynamicVertex>)
        requires
            self.stride > 0,
            self.stride <= vertex_buffer@.len() ==> attributes_within(self.attributes@, self.stride as int),
        ensures
            vs@.len() == vertex_buffer@.len() / (self.stride as nat),
            forall|k: int| 0 <= k < vs@.len() ==> (#[trigger] vs@[k]).attributes@.len() == self.attributes@.len(),
            forall|k: int, i: int| 0 <= k < vs@.len() && 0 <= i < self.attributes@.len() ==>
                read_from(
                    self.attributes@[i],
                    vertex_buffer@.subrange(k * self.stride, (k + 1) * self.stride),
                    #[trigger] vs@[k].attributes@[i],
                ),
    {
        let stride = self.stride;
        let count = vertex_buffer.len() / stride;
        let mut vs: Vec<DynamicVertex> = Vec::new();
        let mut k: usize = 0;
        while k < count
            invariant
                stride == self.stride,
                stride > 0,
                count == vertex_buffer@.len() / (stride as nat),
                stride <= vertex_buffer@.len() ==> attributes_within(self.attributes@, stride as int),
                k <= count,
                vs@.len() == k,
                forall|j: int| 0 <= j < k ==> (#[trigger] vs@[j]).attributes@.len() == self.attributes@.len(),
                forall|j: int, i: int| 0 <= j < k && 0 <= i < self.attributes@.len() ==>
                    read_from(
                        self.attributes@[i],
                        vertex_buffer@.subrange(j * stride, (j + 1) * stride),
                        #[trigger] vs@[j].attributes@[i],
                    ),
            decreases count - k,
        {
            assert((k + 1) * stride <= count * stride) by (nonlinear_arith)
                requires k < count;
            assert(stride <= vertex_buffer@.len()) by (nonlinear_arith)
                requires k < count, count == vertex_buffer@.len() / (stride as nat), stride > 0;
            assert(count * stride <= vertex_buffer@.len()) by (nonlinear_arith)
                requires count == vertex_buffer@.len() / (stride as nat), stride > 0;
            assert((k + 1) * stride == k * stride + stride) by (nonlinear_arith);
            assert(vertex_buffer@.len() == vertex_buffer.len());
            let start = k * stride;
            let chunk = vstd::slice::slice_subrange(vertex_buffer, start, start + stride);
            let v = DynamicVertex::read(self, chunk);
            vs.push(v);
            k = k + 1;
        }
        vs
    }
}


/// A vertex whose bytes hold, at each attribute's offset, the encoding of a value of the
/// attribute's format reads back as exactly those values.
pub proof fn lemma_vertex_read_after_write(
    attributes: Seq<NamedAttributeDescriptor>,
    values: Seq<DynamicAttribute>,
    bytes: Seq<u8>,
    read: Seq<DynamicAttribute>,
)
    requires
        values.len() == attributes.len(),
        read.len() == attributes.len(),
        attributes_within(attributes, bytes.len() as int),
        forall|i: int| 0 <= i < attributes.len() ==> {
            &&& (#[trigger] values[i]).format_of() == attributes[i].format
            &&& bytes.subrange(
                attributes[i].offset as int,
                attributes[i].offset + attributes[i].format.byte_size(),
            ) == encode_components(values[i].unsigned_components(), attributes[i].format.component_bytes())
        },
        forall|i: int| 0 <= i < attributes.len() ==> read_from(attributes[i], bytes, #[trigger] read[i]),
    ensures
        read == values,
{
    assert forall|i: int| 0 <= i < attributes.len() implies read[i] == values[i] by {
        let d = attributes[i];
        let a = values[i];
        let end = d.offset + d.format.byte_size();
        assert(attributes[i].offset + attributes[i].format.byte_size() <= bytes.len());
        let rest = bytes.skip(end);
        assert(bytes.skip(d.offset as int) =~= bytes.subrange(d.offset as int, end) + rest);
        assert(read_from(attributes[i], bytes, read[i]));
        lemma_read_after_write(a, rest, read[i]);
    }
    assert(read =~= values);
}

} // verus!
