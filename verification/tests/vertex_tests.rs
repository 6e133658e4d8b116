use bl_wgpu_util::renderers::basic_renderer::{
    vertex_format_align_of, DynamicAttribute, DynamicVertex, DynamicVertexDescriptor,
    DynamicVertexDescriptorBuilder, VertexAttribute, VertexFormat,
};

fn pos_color() -> DynamicVertexDescriptor {
    DynamicVertexDescriptorBuilder::new()
        .with_attribute("position", VertexFormat::Float32x2, None)
        .with_attribute("color", VertexFormat::Float32x4, None)
        .build()
}

#[test]
fn vertex_format_sizes() {
    assert_eq!(VertexFormat::Uint8.size(), 1);
    assert_eq!(VertexFormat::Snorm16x4.size(), 8);
    assert_eq!(VertexFormat::Float32x3.size(), 12);
    assert_eq!(VertexFormat::Float64x4.size(), 32);
    assert_eq!(VertexFormat::Unorm10_10_10_2.size(), 4);
    assert_eq!(VertexFormat::Unorm8x4Bgra.size(), 4);
}

#[test]
fn vertex_format_alignments() {
    assert_eq!(vertex_format_align_of(VertexFormat::Unorm8x4), 1);
    assert_eq!(vertex_format_align_of(VertexFormat::Float16x2), 2);
    assert_eq!(vertex_format_align_of(VertexFormat::Sint32x3), 4);
    assert_eq!(vertex_format_align_of(VertexFormat::Unorm10_10_10_2), 4);
    assert_eq!(vertex_format_align_of(VertexFormat::Float64x2), std::mem::align_of::<f64>());
}

#[test]
fn builder_places_attributes_one_after_another() {
    let d = pos_color();
    assert_eq!(d.attributes.len(), 2);
    assert_eq!(d.attributes[0].name, "position");
    assert_eq!(d.attributes[0].offset, 0);
    assert_eq!(d.attributes[1].name, "color");
    assert_eq!(d.attributes[1].format, VertexFormat::Float32x4);
    assert_eq!(d.attributes[1].offset, 8);
    assert_eq!(d.stride, 24);
    assert_eq!(d._align, 4);
}

#[test]
fn builder_aligns_offsets_and_stride() {
    let d = DynamicVertexDescriptorBuilder::new()
        .with_attribute("flag", VertexFormat::Uint8, None)
        .with_attribute("weight", VertexFormat::Float32, None)
        .with_attribute("tag", VertexFormat::Uint8, None)
        .build();
    assert_eq!(d.attributes[0].offset, 0);
    assert_eq!(d.attributes[1].offset, 4);
    assert_eq!(d.attributes[2].offset, 8);
    assert_eq!(d.stride, 12);
    assert_eq!(d._align, 4);
}

#[test]
fn builder_keeps_given_offset_and_stride() {
    let d = DynamicVertexDescriptorBuilder::new()
        .with_attribute("position", VertexFormat::Float32x3, Some(4))
        .with_stride(32)
        .build();
    assert_eq!(d.attributes[0].offset, 4);
    assert_eq!(d.stride, 32);
}

#[test]
fn index_of_finds_first_match() {
    let d = DynamicVertexDescriptorBuilder::new()
        .with_attribute("a", VertexFormat::Uint32, None)
        .with_attribute("b", VertexFormat::Uint32, None)
        .with_attribute("a", VertexFormat::Uint32, None)
        .build();
    assert_eq!(d.index_of("a"), Some(0));
    assert_eq!(d.index_of("b"), Some(1));
    assert_eq!(d.index_of("c"), None);
}

#[test]
fn layout_builder_assigns_locations_in_order() {
    let d = pos_color();
    let b = d.vertex_buffer_layout_builder();
    assert_eq!(b.array_stride, 24);
    assert_eq!(
        b.attributes,
        vec![
            VertexAttribute { shader_location: 0, format: VertexFormat::Float32x2, offset: 0 },
            VertexAttribute { shader_location: 1, format: VertexFormat::Float32x4, offset: 8 },
        ]
    );
}

#[test]
fn attribute_reports_format_size_alignment() {
    let a = DynamicAttribute::Float16x4([0, 0, 0, 0]);
    assert_eq!(a.vertex_format(), VertexFormat::Float16x4);
    assert_eq!(a.size(), 8);
    assert_eq!(a.align_of(), 2);
    let b = DynamicAttribute::Unorm8x4Bgra([1, 2, 3, 4]);
    assert_eq!(b.vertex_format(), VertexFormat::Unorm8x4Bgra);
    assert_eq!(b.size(), 4);
    assert_eq!(b.align_of(), 1);
}

#[test]
fn write_puts_native_bytes_and_keeps_the_rest() {
    let mut buf = [0xAAu8; 6];
    DynamicAttribute::Sint16x2([-2, 300]).write(&mut buf);
    let mut expected = Vec::new();
    expected.extend_from_slice(&(-2i16).to_ne_bytes());
    expected.extend_from_slice(&300i16.to_ne_bytes());
    expected.extend_from_slice(&[0xAA, 0xAA]);
    assert_eq!(buf.to_vec(), expected);
}

#[test]
fn read_decodes_native_bytes() {
    let mut bytes = Vec::new();
    bytes.extend_from_slice(&1.5f32.to_ne_bytes());
    bytes.extend_from_slice(&(-2.25f32).to_ne_bytes());
    bytes.push(7);
    match DynamicAttribute::read(VertexFormat::Float32x2, &bytes) {
        DynamicAttribute::Float32x2(v) => {
            assert_eq!(f32::from_bits(v[0]), 1.5);
            assert_eq!(f32::from_bits(v[1]), -2.25);
        }
        other => panic!("unexpected attribute {:?}", other),
    }
    match DynamicAttribute::read(VertexFormat::Sint8, &[0xFF]) {
        DynamicAttribute::Sint8(v) => assert_eq!(v, -1),
        other => panic!("unexpected attribute {:?}", other),
    }
}

#[test]
fn read_after_write_gives_the_value_back() {
    let values = [
        DynamicAttribute::Uint32x3([1, 0xDEADBEEF, 3]),
        DynamicAttribute::Sint8x4([-128, -1, 0, 127]),
        DynamicAttribute::Float64(2.5f64.to_bits()),
        DynamicAttribute::Unorm10_10_10_2(0x1234_5678),
    ];
    for a in values.iter() {
        let mut buf = vec![0x55u8; 40];
        a.write(&mut buf);
        let r = DynamicAttribute::read(a.vertex_format(), &buf);
        assert_eq!(format!("{:?}", r), format!("{:?}", a));
    }
}

#[test]
fn vertex_read_takes_each_attribute_at_its_offset() {
    let d = DynamicVertexDescriptorBuilder::new()
        .with_attribute("position", VertexFormat::Float32x2, None)
        .with_attribute("color", VertexFormat::Unorm8x4, None)
        .build();
    assert_eq!(d.stride, 12);
    let mut bytes = Vec::new();
    bytes.extend_from_slice(&0.5f32.to_ne_bytes());
    bytes.extend_from_slice(&1.0f32.to_ne_bytes());
    bytes.extend_from_slice(&[10, 20, 30, 255]);
    let v = DynamicVertex::read(&d, &bytes);
    assert_eq!(v.attributes.len(), 2);
    match v.attributes[0] {
        DynamicAttribute::Float32x2(p) => assert_eq!(p, [0.5f32.to_bits(), 1.0f32.to_bits()]),
        other => panic!("unexpected attribute {:?}", other),
    }
    match v.attributes[1] {
        DynamicAttribute::Unorm8x4(c) => assert_eq!(c, [10, 20, 30, 255]),
        other => panic!("unexpected attribute {:?}", other),
    }
}

#[test]
fn read_vertices_splits_whole_vertices() {
    let d = DynamicVertexDescriptorBuilder::new()
        .with_attribute("id", VertexFormat::Uint16, None)
        .build();
    assert_eq!(d.stride, 2);
    let mut bytes = Vec::new();
    for id in [7u16, 8, 9] {
        bytes.extend_from_slice(&id.to_ne_bytes());
    }
    bytes.push(1);
    let vs = d.read_vertices(&bytes);
    assert_eq!(vs.len(), 3);
    for (k, id) in [7u16, 8, 9].iter().enumerate() {
        match vs[k].attributes[0] {
            DynamicAttribute::Uint16(v) => assert_eq!(v, *id),
            other => panic!("unexpected attribute {:?}", other),
        }
    }
}

#[test]
fn descriptor_clone_and_default() {
    let d = pos_color();
    let c = d.clone();
    assert_eq!(c.stride, d.stride);
    assert_eq!(c.attributes.len(), 2);
    assert_eq!(c.attributes[1].name, "color");
    let e = DynamicVertexDescriptor::default();
    assert_eq!(e.stride, 0);
    assert!(e.attributes.is_empty());
}

#[test]
fn vertex_reads_back_what_was_written() {
    let d = DynamicVertexDescriptorBuilder::new()
        .with_attribute("position", VertexFormat::Float32x3, None)
        .with_attribute("color", VertexFormat::Unorm8x4, None)
        .with_attribute("id", VertexFormat::Uint16, None)
        .build();
    let values = [
        DynamicAttribute::Float32x3([1.0f32.to_bits(), (-0.5f32).to_bits(), 3.25f32.to_bits()]),
        DynamicAttribute::Unorm8x4([1, 2, 3, 4]),
        DynamicAttribute::Uint16(513),
    ];
    let mut bytes = vec![0u8; d.stride];
    for (a, desc) in values.iter().zip(d.attributes.iter()) {
        a.write(&mut bytes[desc.offset..]);
    }
    let v = DynamicVertex::read(&d, &bytes);
    for (r, a) in v.attributes.iter().zip(values.iter()) {
        assert_eq!(format!("{:?}", r), format!("{:?}", a));
    }
}
