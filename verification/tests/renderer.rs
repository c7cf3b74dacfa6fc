use quad_renderer::quad::{encode_quads, Quad, BUFFER_BYTES, MAX_QUADS, QUAD_BYTES};
use quad_renderer::render::shader_source;
use quad_renderer::surface::clamp_dimension;

fn quad_from_floats(position: [f32; 2], size: [f32; 2], color: [f32; 3]) -> Quad {
    Quad {
        pos_x: position[0].to_bits(),
        pos_y: position[1].to_bits(),
        size_x: size[0].to_bits(),
        size_y: size[1].to_bits(),
        color_r: color[0].to_bits(),
        color_g: color[1].to_bits(),
        color_b: color[2].to_bits(),
    }
}

#[test]
fn clamp_raises_zero_dimension() {
    assert_eq!(clamp_dimension(0), 1);
}

#[test]
fn clamp_keeps_valid_dimensions() {
    assert_eq!(clamp_dimension(1), 1);
    assert_eq!(clamp_dimension(1920), 1920);
    assert_eq!(clamp_dimension(u32::MAX), u32::MAX);
}

#[test]
fn repeated_clamp_is_idempotent() {
    assert_eq!(clamp_dimension(clamp_dimension(0)), clamp_dimension(0));
    assert_eq!(clamp_dimension(clamp_dimension(1)), clamp_dimension(1));
    assert_eq!(clamp_dimension(clamp_dimension(800)), clamp_dimension(800));
}

#[test]
fn quad_bytes_are_little_endian_in_field_order() {
    let q = Quad {
        pos_x: 0x1122_3344,
        pos_y: 0x5566_7788,
        size_x: 0x0000_0001,
        size_y: 0xaabb_ccdd,
        color_r: 0x0000_0000,
        color_g: 0xffff_ffff,
        color_b: 0x0102_0304,
    };
    let expected: Vec<u8> = vec![
        0x44, 0x33, 0x22, 0x11, // pos_x
        0x88, 0x77, 0x66, 0x55, // pos_y
        0x01, 0x00, 0x00, 0x00, // size_x
        0xdd, 0xcc, 0xbb, 0xaa, // size_y
        0x00, 0x00, 0x00, 0x00, // color_r
        0xff, 0xff, 0xff, 0xff, // color_g
        0x04, 0x03, 0x02, 0x01, // color_b
    ];
    assert_eq!(q.to_bytes(), expected);
}

#[test]
fn quad_record_length_is_constant() {
    let q = quad_from_floats([0.2, 0.2], [0.5, 0.5], [1.0, 0.0, 0.0]);
    assert_eq!(q.to_bytes().len(), QUAD_BYTES);
    assert_eq!(QUAD_BYTES, 28);
    assert_eq!(BUFFER_BYTES, MAX_QUADS * QUAD_BYTES);
}

#[test]
fn quad_written_and_read_back_is_unchanged() {
    let q = quad_from_floats([0.2, 0.2], [0.5, 0.5], [1.0, 0.0, 0.0]);
    let bytes = q.to_bytes();
    let back = Quad::from_bytes(&bytes);
    assert_eq!(back, q);
    assert_eq!(f32::from_bits(back.pos_x), 0.2);
    assert_eq!(f32::from_bits(back.size_y), 0.5);
    assert_eq!(f32::from_bits(back.color_r), 1.0);
    assert_eq!(f32::from_bits(back.color_g), 0.0);
}

#[test]
fn zero_quad_encodes_to_zero_bytes() {
    let bytes = Quad::zero().to_bytes();
    assert_eq!(bytes, vec![0u8; QUAD_BYTES]);
}

#[test]
fn empty_scene_encodes_to_no_bytes() {
    let quads: Vec<Quad> = Vec::new();
    assert_eq!(encode_quads(&quads).len(), 0);
}

#[test]
fn scene_at_capacity_is_encoded_whole() {
    let mut quads: Vec<Quad> = Vec::new();
    for i in 0..MAX_QUADS {
        quads.push(Quad {
            pos_x: i as u32,
            pos_y: 0,
            size_x: 0,
            size_y: 0,
            color_r: 0,
            color_g: 0,
            color_b: 0,
        });
    }
    let bytes = encode_quads(&quads);
    assert_eq!(bytes.len(), BUFFER_BYTES);
    // The last record starts at the last 28-byte slot and still carries its
    // own first word.
    assert_eq!(bytes[(MAX_QUADS - 1) * QUAD_BYTES], (MAX_QUADS - 1) as u8);
}

#[test]
fn oversized_scene_is_truncated_to_capacity() {
    let mut quads: Vec<Quad> = Vec::new();
    for i in 0..(MAX_QUADS + 17) {
        quads.push(Quad {
            pos_x: i as u32,
            pos_y: 0,
            size_x: 0,
            size_y: 0,
            color_r: 0,
            color_g: 0,
            color_b: 0,
        });
    }
    let bytes = encode_quads(&quads);
    assert_eq!(bytes.len(), BUFFER_BYTES);
    let capped = encode_quads(&quads[..MAX_QUADS].to_vec());
    assert_eq!(bytes, capped);
}

#[test]
fn records_are_packed_back_to_back() {
    let first = quad_from_floats([0.1, 0.2], [0.3, 0.4], [0.5, 0.6, 0.7]);
    let second = quad_from_floats([0.9, 0.8], [0.7, 0.6], [0.5, 0.4, 0.3]);
    let quads = vec![first, second];
    let bytes = encode_quads(&quads);
    assert_eq!(bytes.len(), 2 * QUAD_BYTES);
    assert_eq!(bytes[..QUAD_BYTES].to_vec(), first.to_bytes());
    assert_eq!(bytes[QUAD_BYTES..].to_vec(), second.to_bytes());
    let back = Quad::from_bytes(&bytes[QUAD_BYTES..].to_vec());
    assert_eq!(back, second);
}

#[test]
fn shader_reads_quads_and_names_both_stages() {
    let source = shader_source();
    assert!(source.contains("vs_main"));
    assert!(source.contains("fs_main"));
    assert!(source.contains("var<storage, read> quads"));
    assert!(source.contains("instance_index"));
}
