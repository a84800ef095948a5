use polloader::container::pol_load_from_bytes;
use polloader::decode::{read_material, read_pol_mesh, read_vertex};
use polloader::format::{calc_vertex_size, clamp_param, PolError, VertexComponent, POSITION, TEX_COORD, UNKNOWN2};
use polloader::reader::{read_name, read_u16, read_u32};

fn u32le(out: &mut Vec<u8>, v: u32) {
    out.extend_from_slice(&v.to_le_bytes());
}

fn f32le(out: &mut Vec<u8>, v: f32) {
    out.extend_from_slice(&v.to_le_bytes());
}

fn header(flag: u32, mesh_count: u32) -> Vec<u8> {
    let mut out = b"POLY".to_vec();
    u32le(&mut out, flag);
    u32le(&mut out, mesh_count);
    out
}

fn name_field(text: &[u8]) -> Vec<u8> {
    let mut f = text.to_vec();
    f.resize(64, 0);
    f
}

fn material(out: &mut Vec<u8>, id: u32, param: f32, names: &[&[u8]]) {
    u32le(out, id);
    out.extend_from_slice(&[7u8; 64]);
    f32le(out, param);
    u32le(out, names.len() as u32);
    for n in names {
        out.extend_from_slice(&name_field(n));
    }
}

/// A mesh with mask 0b10001, one vertex, the given materials and one triangle.
fn simple_mesh(out: &mut Vec<u8>, materials: &[(u32, f32)]) {
    for v in [0.0f32, 1.0, 2.0, 3.0, 4.0, 5.0] {
        f32le(out, v);
    }
    u32le(out, 0b10001);
    u32le(out, 1);
    for v in [1.5f32, 2.5, 3.5, 0.25, 0.75] {
        f32le(out, v);
    }
    u32le(out, materials.len() as u32);
    for (id, p) in materials {
        material(out, *id, *p, &[b"lm0"]);
    }
    u32le(out, 11);
    u32le(out, 12);
    u32le(out, 13);
    u32le(out, 1);
    for i in [0u16, 1, 2] {
        out.extend_from_slice(&i.to_le_bytes());
    }
}

fn one_mesh_file(flag: u32) -> Vec<u8> {
    let mut out = header(flag, 1);
    out.extend_from_slice(&[9u8; 52]);
    simple_mesh(&mut out, &[(5, 200.0)]);
    out
}

#[test]
fn empty_document() {
    let f = pol_load_from_bytes(&header(1, 0)).unwrap();
    assert_eq!(&f.magic, b"POLY");
    assert_eq!(f.some_flag, 1);
    assert_eq!(f.mesh_count, 0);
    assert!(f.geom_node_descs.is_empty());
    assert!(f.unknown_data.is_empty());
    assert!(f.meshes.is_empty());
}

#[test]
fn wrong_signature_is_rejected() {
    let mut d = b"POLX".to_vec();
    u32le(&mut d, 1);
    u32le(&mut d, 0);
    assert_eq!(pol_load_from_bytes(&d).unwrap_err(), PolError::InvalidSignature);
    assert_eq!(pol_load_from_bytes(b"POLX").unwrap_err(), PolError::InvalidSignature);
}

#[test]
fn short_input_is_truncated() {
    assert_eq!(pol_load_from_bytes(b"PO").unwrap_err(), PolError::Truncated);
    assert_eq!(pol_load_from_bytes(b"POLY\x01\x00").unwrap_err(), PolError::Truncated);
}

#[test]
fn position_and_texcoord_vertex_takes_twenty_bytes() {
    let mut d = Vec::new();
    for v in [1.0f32, 2.0, 3.0, 0.5, 0.25] {
        f32le(&mut d, v);
    }
    d.extend_from_slice(&[0xAA; 8]);
    let mut pos = 0usize;
    let v = read_vertex(&d, &mut pos, 0b10001).unwrap();
    assert_eq!(pos, 20);
    assert_eq!(v.position.x, 1.0f32.to_bits());
    assert_eq!(v.position.y, 2.0f32.to_bits());
    assert_eq!(v.position.z, 3.0f32.to_bits());
    assert_eq!(v.tex_coord.u, 0.5f32.to_bits());
    assert_eq!(v.tex_coord.v, 0.25f32.to_bits());
    assert!(v.unknown2.is_none());
    assert!(v.unknown4.is_none());
    assert!(v.unknown8.is_none());
    assert!(v.unknown20.is_none());
    assert!(v.unknown40.is_none());
    assert!(v.unknown80.is_none());
    assert!(v.unknown100.is_none());
}

#[test]
fn optional_blocks_follow_the_mask() {
    let mask = 0x1FF;
    let d: Vec<u8> = (0..80u32).flat_map(|i| i.to_le_bytes()).collect();
    let mut pos = 0usize;
    let v = read_vertex(&d, &mut pos, mask).unwrap();
    assert_eq!(pos, 80);
    assert_eq!(v.unknown2, Some([3, 4, 5]));
    assert_eq!(v.unknown4, Some([6]));
    assert_eq!(v.unknown8, Some([7]));
    assert_eq!((v.tex_coord.u, v.tex_coord.v), (8, 9));
    assert_eq!(v.unknown20, Some([10, 11]));
    assert_eq!(v.unknown40, Some([12, 13]));
    assert_eq!(v.unknown80, Some([14, 15]));
    assert_eq!(v.unknown100, Some([16, 17, 18, 19]));
}

#[test]
fn vertex_truncated_by_one_byte() {
    let d = vec![0u8; 19];
    let mut pos = 0usize;
    assert_eq!(read_vertex(&d, &mut pos, 0b10001).unwrap_err(), PolError::Truncated);
    assert_eq!(pos, 0);
}

#[test]
fn mask_without_mandatory_bits_fails() {
    let d = vec![0u8; 64];
    let mut pos = 0usize;
    assert_eq!(read_vertex(&d, &mut pos, 0b1).unwrap_err(), PolError::MissingMandatoryAttribute);
    assert_eq!(read_vertex(&d, &mut pos, 0b10000).unwrap_err(), PolError::MissingMandatoryAttribute);
}

#[test]
fn mesh_with_vertices_and_bad_mask_fails() {
    let mut d = vec![0u8; 24];
    u32le(&mut d, 0b11);
    u32le(&mut d, 1);
    d.extend_from_slice(&[0u8; 64]);
    let mut pos = 0usize;
    assert_eq!(read_pol_mesh(&d, &mut pos).unwrap_err(), PolError::MissingMandatoryAttribute);
}

#[test]
fn mesh_without_vertices_accepts_any_mask() {
    let mut d = vec![0u8; 24];
    u32le(&mut d, 0);
    u32le(&mut d, 0);
    u32le(&mut d, 0);
    for _ in 0..4 {
        u32le(&mut d, 0);
    }
    let mut pos = 0usize;
    let m = read_pol_mesh(&d, &mut pos).unwrap();
    assert_eq!(pos, d.len());
    assert_eq!(m.vertex_count, 0);
    assert!(m.vertices.is_empty() && m.material_info.is_empty() && m.triangles.is_empty());
}

#[test]
fn full_mesh_document() {
    let d = one_mesh_file(1);
    let f = pol_load_from_bytes(&d).unwrap();
    assert_eq!(f.mesh_count, 1);
    assert_eq!(f.geom_node_descs.len(), 1);
    assert_eq!(f.geom_node_descs[0].unknown, vec![9u8; 52]);
    assert_eq!(f.meshes.len(), 1);
    let m = &f.meshes[0];
    assert_eq!(m.aabb_min, [0.0f32.to_bits(), 1.0f32.to_bits(), 2.0f32.to_bits()]);
    assert_eq!(m.aabb_max, [3.0f32.to_bits(), 4.0f32.to_bits(), 5.0f32.to_bits()]);
    assert_eq!(m.vertex_type, VertexComponent(0b10001));
    assert_eq!(m.vertices.len(), 1);
    assert_eq!(m.vertices[0].position.x, 1.5f32.to_bits());
    assert_eq!(m.material_info_count, 1);
    assert_eq!(m.material_info[0].unknown_dw0, 5);
    assert_eq!(m.material_info[0].unknown_68, vec![7u8; 64]);
    assert_eq!(m.material_info[0].light_map_names, vec!["lm0".to_string()]);
    assert_eq!((m.unknown2, m.unknown3, m.unknown4), (11, 12, 13));
    assert_eq!(m.triangle_count, 1);
    assert_eq!(m.triangles[0].indices, [0, 1, 2]);
}

#[test]
fn stored_200_is_clamped_to_128() {
    let f = pol_load_from_bytes(&one_mesh_file(1)).unwrap();
    assert_eq!(f.meshes[0].material_info[0].unknown_float, 128.0f32.to_bits());
}

#[test]
fn clamp_of_each_range() {
    assert_eq!(clamp_param(200.0f32.to_bits()), 128.0f32.to_bits());
    assert_eq!(clamp_param((-5.0f32).to_bits()), 0.0f32.to_bits());
    assert_eq!(clamp_param(64.5f32.to_bits()), 64.5f32.to_bits());
    assert_eq!(clamp_param(f32::INFINITY.to_bits()), 128.0f32.to_bits());
    assert_eq!(clamp_param(f32::NEG_INFINITY.to_bits()), 0.0f32.to_bits());
    assert_eq!(clamp_param(f32::NAN.to_bits()), 128.0f32.to_bits());
    assert_eq!(clamp_param(128.0f32.to_bits()), 128.0f32.to_bits());
    assert_eq!(clamp_param(0.0f32.to_bits()), 0.0f32.to_bits());
}

#[test]
fn clamped_value_agrees_with_float_clamp() {
    for v in [-1.0e9f32, -0.5, 0.0, 1.0e-30, 3.0, 127.99, 128.0, 128.01, 1.0e30] {
        let expect = v.min(128.0).max(0.0);
        assert_eq!(f32::from_bits(clamp_param(v.to_bits())), expect);
    }
}

#[test]
fn truncated_before_last_index() {
    let d = one_mesh_file(1);
    assert!(pol_load_from_bytes(&d).is_ok());
    let cut = &d[..d.len() - 1];
    assert_eq!(pol_load_from_bytes(cut).unwrap_err(), PolError::Truncated);
}

#[test]
fn every_shorter_prefix_is_truncated() {
    let d = one_mesh_file(101);
    let mut d = d;
    // the flag above 100 needs a transform count: insert zero after the descriptors
    d.splice(64..64, 0u32.to_le_bytes());
    assert!(pol_load_from_bytes(&d).is_ok());
    for k in 4..d.len() {
        assert_eq!(pol_load_from_bytes(&d[..k]).unwrap_err(), PolError::Truncated, "prefix {}", k);
    }
}

#[test]
fn trailing_bytes_are_ignored() {
    let mut d = one_mesh_file(1);
    let f1 = pol_load_from_bytes(&d).unwrap();
    d.extend_from_slice(&[1, 2, 3]);
    let f2 = pol_load_from_bytes(&d).unwrap();
    assert_eq!(format!("{:?}", f1), format!("{:?}", f2));
}

#[test]
fn decoding_twice_gives_the_same_document() {
    let d = one_mesh_file(1);
    let a = pol_load_from_bytes(&d).unwrap();
    let b = pol_load_from_bytes(&d).unwrap();
    assert_eq!(format!("{:?}", a), format!("{:?}", b));
}

fn transform_node(out: &mut Vec<u8>, bytes: &[u8]) {
    out.extend_from_slice(&[3u8; 32]);
    for i in 0..16 {
        f32le(out, i as f32);
    }
    u32le(out, 77);
    u32le(out, bytes.len() as u32);
    out.extend_from_slice(bytes);
}

#[test]
fn transform_nodes_read_when_flag_above_100() {
    let mut d = header(101, 0);
    u32le(&mut d, 2);
    transform_node(&mut d, b"\xff\x00abc");
    transform_node(&mut d, b"");
    let f = pol_load_from_bytes(&d).unwrap();
    assert_eq!(f.unknown_count, 2);
    assert_eq!(f.unknown_data.len(), 2);
    let u = &f.unknown_data[0];
    assert_eq!(u.unknown, vec![3u8; 32]);
    assert_eq!(u.matrix[5], 5.0f32.to_bits());
    assert_eq!(u.matrix[15], 15.0f32.to_bits());
    assert_eq!(u.unknown2, 77);
    assert_eq!(u.str_len, 5);
    assert_eq!(u.ddd_str, b"\xff\x00abc".to_vec());
    assert!(f.unknown_data[1].ddd_str.is_empty());
}

#[test]
fn transform_count_zero_gives_none() {
    let mut d = header(200, 0);
    u32le(&mut d, 0);
    let f = pol_load_from_bytes(&d).unwrap();
    assert_eq!(f.unknown_count, 0);
    assert!(f.unknown_data.is_empty());
}

#[test]
fn flag_of_100_has_no_transform_section() {
    let mut d = header(100, 0);
    u32le(&mut d, 5);
    let f = pol_load_from_bytes(&d).unwrap();
    assert_eq!(f.unknown_count, 0);
    assert!(f.unknown_data.is_empty());
}

#[test]
fn transform_string_longer_than_source_is_truncated() {
    let mut d = header(101, 0);
    u32le(&mut d, 1);
    transform_node(&mut d, b"abcd");
    d.pop();
    assert_eq!(pol_load_from_bytes(&d).unwrap_err(), PolError::Truncated);
}

#[test]
fn light_map_name_stops_at_first_zero() {
    let mut d = Vec::new();
    material(&mut d, 1, 1.0, &[b"abc\0xyz", "h\u{e9}llo".as_bytes()]);
    let mut pos = 0usize;
    let m = read_material(&d, &mut pos).unwrap();
    assert_eq!(pos, d.len());
    assert_eq!(m.light_map_count, 2);
    assert_eq!(m.light_map_names, vec!["abc".to_string(), "h\u{e9}llo".to_string()]);
    assert_eq!(m.unknown_float, 1.0f32.to_bits());
}

#[test]
fn invalid_light_map_name_fails() {
    let mut d = Vec::new();
    material(&mut d, 1, 1.0, &[b"\xff\xfe"]);
    let mut pos = 0usize;
    assert_eq!(read_material(&d, &mut pos).unwrap_err(), PolError::InvalidText);
}

#[test]
fn invalid_name_comes_before_later_truncation() {
    let mut d = Vec::new();
    material(&mut d, 1, 1.0, &[b"\xc3"]);
    let n = d.len();
    d[n - 68..n - 64].copy_from_slice(&2u32.to_le_bytes());
    let mut pos = 0usize;
    assert_eq!(read_material(&d, &mut pos).unwrap_err(), PolError::InvalidText);
}

#[test]
fn name_reader_keeps_full_field_without_zero() {
    let d = vec![b'a'; 64];
    let mut pos = 0usize;
    assert_eq!(read_name(&d, &mut pos).unwrap(), "a".repeat(64));
    assert_eq!(pos, 64);
    let mut pos = 1usize;
    assert_eq!(read_name(&d, &mut pos).unwrap_err(), PolError::Truncated);
    assert_eq!(pos, 1);
}

#[test]
fn little_endian_integers() {
    let d = [1u8, 2, 3, 4, 5];
    let mut pos = 0usize;
    assert_eq!(read_u32(&d, &mut pos).unwrap(), 0x0403_0201);
    assert_eq!(pos, 4);
    assert_eq!(read_u32(&d, &mut pos).unwrap_err(), PolError::Truncated);
    assert_eq!(pos, 4);
    let mut pos = 1usize;
    assert_eq!(read_u16(&d, &mut pos).unwrap(), 0x0302);
    assert_eq!(pos, 3);
}

#[test]
fn vertex_size_of_masks() {
    assert_eq!(calc_vertex_size(0b10001), 20);
    assert_eq!(calc_vertex_size(0x1FF), 80);
    assert_eq!(calc_vertex_size(0), 0);
    assert_eq!(calc_vertex_size(0x8000_0010u32 as i32), 0x10);
    assert_eq!(calc_vertex_size(-1), 0x7FFF_FFFF);
}

#[test]
fn mask_bit_test() {
    let m = VertexComponent(0b10011);
    assert!(m.has(VertexComponent(POSITION)));
    assert!(m.has(VertexComponent(TEX_COORD)));
    assert!(m.has(VertexComponent(UNKNOWN2)));
    assert!(!m.has(VertexComponent(0b100)));
}

#[test]
fn huge_vertex_count_is_truncated() {
    let mut d = header(1, 1);
    d.extend_from_slice(&[0u8; 52]);
    d.extend_from_slice(&[0u8; 24]);
    u32le(&mut d, 0b10001);
    u32le(&mut d, u32::MAX);
    d.extend_from_slice(&[0u8; 40]);
    assert_eq!(pol_load_from_bytes(&d).unwrap_err(), PolError::Truncated);
}

#[test]
fn counts_agree_for_several_meshes() {
    let mut d = header(1, 2);
    d.extend_from_slice(&[1u8; 52]);
    d.extend_from_slice(&[2u8; 52]);
    simple_mesh(&mut d, &[(1, 5.0), (2, -3.0)]);
    simple_mesh(&mut d, &[]);
    let f = pol_load_from_bytes(&d).unwrap();
    assert_eq!(f.mesh_count, 2);
    assert_eq!(f.geom_node_descs.len(), 2);
    assert_eq!(f.meshes.len(), 2);
    assert_eq!(f.geom_node_descs[1].unknown, vec![2u8; 52]);
    let m = &f.meshes[0];
    assert_eq!(m.material_info.len(), 2);
    assert_eq!(m.material_info[0].unknown_float, 5.0f32.to_bits());
    assert_eq!(m.material_info[1].unknown_float, 0.0f32.to_bits());
    assert!(f.meshes[1].material_info.is_empty());
    assert_eq!(f.meshes[1].triangles[0].indices, [0, 1, 2]);
}

#[test]
fn vertex_size_matches_bytes_read_for_valid_masks() {
    for mask in [0b10001u32, 0b10011, 0b11101, 0x1FF, 0x111] {
        let d = vec![0u8; 128];
        let mut pos = 0usize;
        read_vertex(&d, &mut pos, mask).unwrap();
        assert_eq!(calc_vertex_size(mask as i32), pos);
    }
}
