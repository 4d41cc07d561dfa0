use quadbatch::batch::Batch;
use quadbatch::square::Square;
use quadbatch::vertex::Vertex;

#[test]
fn quad_corner_geometry() {
    let s = Square {
        position: [0f32.to_bits(), 0f32.to_bits()],
        colour: [1f32.to_bits(), 0f32.to_bits(), 0f32.to_bits()],
        size: 2f32.to_bits(),
    };
    let right = (0f32 + 2f32).to_bits();
    let bottom = (0f32 - 2f32).to_bits();
    let mut b = Batch::new();
    b.add_square(s, right, bottom);

    let corner = |x: f32, y: f32| -> [u32; 3] { [x.to_bits(), y.to_bits(), 0f32.to_bits()] };
    assert_eq!(b.vertices.len(), 4);
    assert_eq!(b.vertices[0].position, corner(0.0, 0.0));
    assert_eq!(b.vertices[1].position, corner(0.0, -2.0));
    assert_eq!(b.vertices[2].position, corner(2.0, 0.0));
    assert_eq!(b.vertices[3].position, corner(2.0, -2.0));
    for v in &b.vertices {
        assert_eq!(v.colour, [1f32.to_bits(), 0f32.to_bits(), 0f32.to_bits()]);
    }
}

#[test]
fn vertex_blob_is_little_endian_components_in_order() {
    let s = Square {
        position: [1.5f32.to_bits(), (-0.25f32).to_bits()],
        colour: [0.125f32.to_bits(), 1f32.to_bits(), 0.5f32.to_bits()],
        size: 3f32.to_bits(),
    };
    let right = (1.5f32 + 3f32).to_bits();
    let bottom = (-0.25f32 - 3f32).to_bits();
    let mut b = Batch::new();
    b.add_square(s, right, bottom);

    let mut expected: Vec<u8> = Vec::new();
    for v in &b.vertices {
        for c in v.position.iter().chain(v.colour.iter()) {
            expected.extend_from_slice(&c.to_le_bytes());
        }
    }
    assert_eq!(b.vertex_data, expected);
    assert_eq!(b.vertex_data.len(), 4 * 24);
    // One component spelled out: the second colour component of the first
    // vertex is 1.0f32, bit pattern 0x3F80_0000, stored least byte first.
    assert_eq!(&b.vertex_data[16..20], &[0x00, 0x00, 0x80, 0x3F]);
}

#[test]
fn index_blob_is_little_endian_u16() {
    let s = Square {
        position: [0f32.to_bits(), 0f32.to_bits()],
        colour: [1f32.to_bits(), 1f32.to_bits(), 1f32.to_bits()],
        size: 1f32.to_bits(),
    };
    let right = 1f32.to_bits();
    let bottom = (-1f32).to_bits();
    let mut b = Batch::new();
    b.add_square(s, right, bottom);
    b.add_square(s, right, bottom);

    let mut expected: Vec<u8> = Vec::new();
    for idx in [0u16, 1, 2, 3, 2, 1, 4, 5, 6, 7, 6, 5] {
        expected.extend_from_slice(&idx.to_le_bytes());
    }
    assert_eq!(b.index_data, expected);
}

#[test]
fn vertex_layout_matches_shader_contract() {
    let layout = Vertex::describe();
    assert_eq!(layout.array_stride, 24);
    assert_eq!(layout.position_offset, 0);
    assert_eq!(layout.position_shader_location, 0);
    assert_eq!(layout.colour_offset, 12);
    assert_eq!(layout.colour_shader_location, 1);
}
