use framepipe::model::{
    count, index_buffer_contents, indices_in_range, packed_layout, triangle_count, vertex_layout,
    ConversionError, VertexAttribute, VertexFormat, VertexStepMode, INDEX_COUNT, INDEX_SIZE,
    INDICES, INDICES_PER_TRIANGLE, VERTEX_COUNT,
};

#[test]
fn quad_has_four_vertices_and_six_indices() {
    assert_eq!(VERTEX_COUNT, 4);
    assert_eq!(INDEX_COUNT, 6);
    assert_eq!(INDICES.len(), 6);
    assert_eq!(INDICES, [2, 1, 0, 3, 1, 2]);
}

#[test]
fn quad_indices_are_within_the_vertices() {
    assert!(indices_in_range(&INDICES, VERTEX_COUNT));
    for index in INDICES {
        assert!(index < 4);
    }
}

#[test]
fn indices_in_range_rejects_an_index_at_the_count() {
    assert!(!indices_in_range(&INDICES, 3));
    assert!(!indices_in_range(&[0, 1, 4], 4));
    assert!(indices_in_range(&[0, 1, 3], 4));
    assert!(indices_in_range(&[], 0));
    assert!(!indices_in_range(&[0], 0));
}

#[test]
fn quad_draws_two_triangles() {
    assert_eq!(INDICES_PER_TRIANGLE, 3);
    assert_eq!(triangle_count(6), 2);
    assert_eq!(triangle_count(count(INDICES.len()).unwrap()), 2);
}

#[test]
fn triangle_count_drops_a_partial_triangle() {
    assert_eq!(triangle_count(0), 0);
    assert_eq!(triangle_count(2), 0);
    assert_eq!(triangle_count(7), 2);
    assert_eq!(triangle_count(u32::MAX), 1_431_655_765);
}

#[test]
fn count_fits_32_bits() {
    assert_eq!(count(0), Ok(0));
    assert_eq!(count(4), Ok(4));
    assert_eq!(count(u32::MAX as usize), Ok(u32::MAX));
}

#[test]
fn count_above_32_bits_is_an_error() {
    if usize::BITS > 32 {
        let too_many = (u32::MAX as usize) + 1;
        assert_eq!(count(too_many), Err(ConversionError { count: too_many }));
        assert_eq!(count(usize::MAX), Err(ConversionError { count: usize::MAX }));
    }
}

#[test]
fn vertex_formats_have_four_bytes_to_a_float() {
    assert_eq!(VertexFormat::Float32.size(), 4);
    assert_eq!(VertexFormat::Float32x2.size(), 8);
    assert_eq!(VertexFormat::Float32x3.size(), 12);
    assert_eq!(VertexFormat::Float32x4.size(), 16);
}

#[test]
fn vertex_layout_is_position_then_color() {
    let layout = vertex_layout();
    assert_eq!(layout.array_stride, 24);
    assert_eq!(layout.step_mode, VertexStepMode::Vertex);
    assert_eq!(
        layout.attributes,
        vec![
            VertexAttribute { format: VertexFormat::Float32x3, offset: 0, shader_location: 0 },
            VertexAttribute { format: VertexFormat::Float32x3, offset: 12, shader_location: 1 },
        ]
    );
}

#[test]
fn packed_layout_puts_each_attribute_after_the_last() {
    let formats = vec![
        VertexFormat::Float32x2,
        VertexFormat::Float32,
        VertexFormat::Float32x4,
        VertexFormat::Float32x3,
    ];
    let layout = packed_layout(&formats).unwrap();
    assert_eq!(layout.array_stride, 40);
    assert_eq!(layout.step_mode, VertexStepMode::Vertex);
    assert_eq!(
        layout.attributes,
        vec![
            VertexAttribute { format: VertexFormat::Float32x2, offset: 0, shader_location: 0 },
            VertexAttribute { format: VertexFormat::Float32, offset: 8, shader_location: 1 },
            VertexAttribute { format: VertexFormat::Float32x4, offset: 12, shader_location: 2 },
            VertexAttribute { format: VertexFormat::Float32x3, offset: 28, shader_location: 3 },
        ]
    );
}

#[test]
fn packed_layout_of_nothing_is_empty() {
    let layout = packed_layout(&vec![]).unwrap();
    assert_eq!(layout.array_stride, 0);
    assert!(layout.attributes.is_empty());
}

#[test]
fn index_buffer_holds_two_bytes_for_each_index() {
    let bytes = index_buffer_contents();
    assert_eq!(bytes.len() as u64, INDEX_COUNT as u64 * INDEX_SIZE);
    assert_eq!(bytes.len(), 12);
    let mut expected: Vec<u8> = Vec::new();
    for index in INDICES {
        expected.extend_from_slice(&index.to_ne_bytes());
    }
    assert_eq!(bytes, expected);
}

#[test]
fn index_buffer_is_in_one_byte_order_throughout() {
    let bytes = index_buffer_contents();
    let little: Vec<u8> = vec![2, 0, 1, 0, 0, 0, 3, 0, 1, 0, 2, 0];
    let big: Vec<u8> = vec![0, 2, 0, 1, 0, 0, 0, 3, 0, 1, 0, 2];
    assert!(bytes == little || bytes == big);
}
