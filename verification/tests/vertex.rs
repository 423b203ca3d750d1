use render_loop::dpi::PhysicalSize;
use render_loop::state::{Scene, State};
use render_loop::vertex::{
    index_buffer_contents, indices, vertex_buffer_contents, vertex_words, vertices,
    InputStepMode, Vertex, VertexFormat, HALF, VERTEX_STRIDE, VERTEX_WORDS,
};

fn corners() -> [([f32; 3], [f32; 3]); 5] {
    [
        ([-0.0868241, 0.49240386, 0.0], [0.5, 0.0, 0.5]),
        ([-0.49513406, 0.06958647, 0.0], [0.5, 0.0, 0.5]),
        ([-0.21918549, -0.44939706, 0.0], [0.5, 0.0, 0.5]),
        ([0.35966998, -0.3473291, 0.0], [0.5, 0.0, 0.5]),
        ([0.44147372, 0.2347359, 0.0], [0.5, 0.0, 0.5]),
    ]
}

#[test]
fn descriptor_places_position_then_color() {
    let descriptor = Vertex::descriptor();
    assert_eq!(descriptor.stride, 24);
    assert_eq!(descriptor.stride, VERTEX_STRIDE);
    assert_eq!(descriptor.step_mode, InputStepMode::Vertex);
    assert_eq!(descriptor.attributes.len(), 2);
    assert_eq!(descriptor.attributes[0].offset, 0);
    assert_eq!(descriptor.attributes[0].shader_location, 0);
    assert_eq!(descriptor.attributes[0].format, VertexFormat::Float3);
    assert_eq!(descriptor.attributes[1].offset, 12);
    assert_eq!(descriptor.attributes[1].shader_location, 1);
    assert_eq!(descriptor.attributes[1].format, VertexFormat::Float3);
}

#[test]
fn descriptor_attributes_fill_the_stride() {
    let descriptor = Vertex::descriptor();
    let first = descriptor.attributes[0];
    let second = descriptor.attributes[1];
    assert_eq!(first.offset + first.format.size(), second.offset);
    assert_eq!(second.offset + second.format.size(), descriptor.stride);
    assert_eq!(descriptor.stride, 4 * VERTEX_WORDS as u64);
}

#[test]
fn vertex_format_sizes() {
    assert_eq!(VertexFormat::Float.size(), 4);
    assert_eq!(VertexFormat::Float2.size(), 8);
    assert_eq!(VertexFormat::Float3.size(), 12);
    assert_eq!(VertexFormat::Float4.size(), 16);
}

#[test]
fn pentagon_has_five_corners() {
    let vertices = vertices();
    assert_eq!(vertices.len(), 5);
    for (vertex, (position, color)) in vertices.iter().zip(corners().iter()) {
        for k in 0..3 {
            assert_eq!(f32::from_bits(vertex.position[k]), position[k]);
            assert_eq!(f32::from_bits(vertex.color[k]), color[k]);
        }
    }
}

#[test]
fn half_is_one_half() {
    assert_eq!(f32::from_bits(HALF), 0.5);
}

#[test]
fn pentagon_has_nine_indices_in_three_triangles() {
    let indices = indices();
    assert_eq!(indices, vec![0u16, 1, 4, 1, 2, 4, 2, 3, 4]);
    assert_eq!(indices.len() % 3, 0);
    assert_eq!(indices.len() / 3, 3);
    let corners = vertices().len();
    assert!(indices.iter().all(|index| (*index as usize) < corners));
}

#[test]
fn vertex_words_are_position_then_color() {
    let vertex = Vertex::new([1, 2, 3], [4, 5, 6]);
    let other = Vertex::new([7, 8, 9], [10, 11, 12]);
    assert_eq!(vertex_words(&[vertex, other]), vec![1u32, 2, 3, 4, 5, 6, 7, 8, 9, 10, 11, 12]);
    assert_eq!(vertex_words(&[]), Vec::<u32>::new());
}

#[test]
fn vertex_buffer_holds_the_numbers_in_machine_order() {
    let contents = vertex_buffer_contents(&vertices());
    assert_eq!(contents.len(), 120);
    let mut expected: Vec<u8> = Vec::new();
    for (position, color) in corners().iter() {
        for number in position.iter().chain(color.iter()) {
            expected.extend_from_slice(&number.to_ne_bytes());
        }
    }
    assert_eq!(contents, expected);
}

#[test]
fn vertex_buffer_follows_the_descriptor() {
    let descriptor = Vertex::descriptor();
    let contents = vertex_buffer_contents(&vertices());
    let stride = descriptor.stride as usize;
    assert_eq!(contents.len(), stride * 5);
    for (i, (position, color)) in corners().iter().enumerate() {
        for attribute in descriptor.attributes.iter() {
            let expected = if attribute.shader_location == 0 { position } else { color };
            for c in 0..3 {
                let at = i * stride + attribute.offset as usize + 4 * c;
                let mut bytes = [0u8; 4];
                bytes.copy_from_slice(&contents[at..at + 4]);
                assert_eq!(f32::from_ne_bytes(bytes), expected[c]);
            }
        }
    }
}

#[test]
fn vertex_bytes_of_one_known_vertex() {
    let vertex = Vertex::new([0x0403_0201, 0, 0xFFFF_FFFF], [0x3F00_0000, 0, 1]);
    let contents = vertex_buffer_contents(&[vertex]);
    let mut expected: Vec<u8> = Vec::new();
    for word in [0x0403_0201u32, 0, 0xFFFF_FFFF, 0x3F00_0000, 0, 1].iter() {
        expected.extend_from_slice(&word.to_ne_bytes());
    }
    assert_eq!(contents, expected);
    assert_eq!(contents.len(), 24);
    let first = [contents[0], contents[1], contents[2], contents[3]];
    assert!(first == [1, 2, 3, 4] || first == [4, 3, 2, 1]);
}

#[test]
fn index_buffer_holds_the_indices_in_machine_order() {
    let contents = index_buffer_contents(&indices());
    assert_eq!(contents.len(), 18);
    let mut expected: Vec<u8> = Vec::new();
    for index in [0u16, 1, 4, 1, 2, 4, 2, 3, 4].iter() {
        expected.extend_from_slice(&index.to_ne_bytes());
    }
    assert_eq!(contents, expected);
}

#[test]
fn index_bytes_of_known_indices() {
    let contents = index_buffer_contents(&[0x0201, 0xFFFE]);
    assert_eq!(contents.len(), 4);
    assert!(contents == vec![1u8, 2, 0xFE, 0xFF] || contents == vec![2u8, 1, 0xFF, 0xFE]);
    assert_eq!(index_buffer_contents(&[]), Vec::<u8>::new());
}

#[test]
fn pentagon_state_hands_out_both_buffers() {
    let state = State::new(PhysicalSize::new(800, 600), Scene::Pentagon);
    let vertex_bytes = state.vertex_buffer_contents().unwrap();
    let index_bytes = state.index_buffer_contents().unwrap();
    assert_eq!(vertex_bytes, vertex_buffer_contents(&vertices()));
    assert_eq!(index_bytes, index_buffer_contents(&indices()));
    assert_eq!(vertex_bytes.len() as u64, VERTEX_STRIDE * state.num_vertices() as u64);
    assert_eq!(index_bytes.len() as u32, 2 * state.num_indices());
}
