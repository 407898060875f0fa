use extension_host::{
    host_transform, Quat, Transform, Vec3, QUAT_SIZE, TRANSFORM_POS_OFFSET,
    TRANSFORM_ROTATION_OFFSET, TRANSFORM_SIZE, VEC3_SIZE, WORD_SIZE,
};

fn vec3(x: f32, y: f32, z: f32) -> Vec3 {
    Vec3 { x: x.to_bits(), y: y.to_bits(), z: z.to_bits() }
}

fn quat(x: f32, y: f32, z: f32, w: f32) -> Quat {
    Quat { x: x.to_bits(), y: y.to_bits(), z: z.to_bits(), w: w.to_bits() }
}

#[test]
fn sizes_and_offsets_are_packed() {
    assert_eq!(WORD_SIZE, 4);
    assert_eq!(VEC3_SIZE, 12);
    assert_eq!(QUAT_SIZE, 16);
    assert_eq!(TRANSFORM_SIZE, 28);
    assert_eq!(TRANSFORM_POS_OFFSET, 0);
    assert_eq!(TRANSFORM_ROTATION_OFFSET, 12);
}

#[test]
fn vec3_is_three_little_endian_floats() {
    let value = vec3(1.0, 1.8, -0.1);
    let mut expected = Vec::new();
    expected.extend_from_slice(&1.0f32.to_le_bytes());
    expected.extend_from_slice(&1.8f32.to_le_bytes());
    expected.extend_from_slice(&(-0.1f32).to_le_bytes());
    assert_eq!(value.encode(), expected);
    assert_eq!(
        value.encode(),
        vec![0x00, 0x00, 0x80, 0x3f, 0x66, 0x66, 0xe6, 0x3f, 0xcd, 0xcc, 0xcc, 0xbd]
    );
}

#[test]
fn quat_is_four_little_endian_floats() {
    let value = quat(0.0, 0.1, 1.0, 0.3);
    assert_eq!(
        value.encode(),
        vec![
            0x00, 0x00, 0x00, 0x00, 0xcd, 0xcc, 0xcc, 0x3d, 0x00, 0x00, 0x80, 0x3f, 0x9a, 0x99,
            0x99, 0x3e
        ]
    );
}

#[test]
fn transform_is_vector_then_quaternion() {
    let value = Transform { pos: vec3(1.0, 1.8, -0.1), rotation: quat(0.0, 0.1, 1.0, 0.3) };
    let bytes = value.encode();
    assert_eq!(bytes.len(), TRANSFORM_SIZE);
    assert_eq!(bytes[..TRANSFORM_ROTATION_OFFSET], value.pos.encode()[..]);
    assert_eq!(bytes[TRANSFORM_ROTATION_OFFSET..], value.rotation.encode()[..]);
}

#[test]
fn host_transform_holds_the_chosen_floats() {
    let value = host_transform();
    assert_eq!(f32::from_bits(value.pos.x), 1.0);
    assert_eq!(f32::from_bits(value.pos.y), 1.8);
    assert_eq!(f32::from_bits(value.pos.z), -0.1);
    assert_eq!(f32::from_bits(value.rotation.x), 0.0);
    assert_eq!(f32::from_bits(value.rotation.y), 0.1);
    assert_eq!(f32::from_bits(value.rotation.z), 1.0);
    assert_eq!(f32::from_bits(value.rotation.w), 0.3);
}

#[test]
fn decode_gives_back_what_was_encoded() {
    let vectors = [
        vec3(0.0, -0.0, 1.0),
        vec3(f32::MAX, f32::MIN, f32::MIN_POSITIVE),
        vec3(f32::INFINITY, f32::NEG_INFINITY, f32::NAN),
        Vec3 { x: 0, y: u32::MAX, z: 0x0102_0304 },
    ];
    for value in vectors {
        assert_eq!(Vec3::decode(&value.encode()), Some(value));
    }
    let quats = [
        quat(0.0, 0.1, 1.0, 0.3),
        quat(f32::EPSILON, -1.5e-40, 3.25, f32::NAN),
        Quat { x: u32::MAX, y: 0x8000_0000, z: 0x00ff_00ff, w: 1 },
    ];
    for value in quats {
        assert_eq!(Quat::decode(&value.encode()), Some(value));
    }
    for pos in vectors {
        for rotation in quats {
            let value = Transform { pos, rotation };
            assert_eq!(Transform::decode(&value.encode()), Some(value));
        }
    }
}

#[test]
fn encode_gives_back_what_was_decoded() {
    let bytes: Vec<u8> = (0..28u8).map(|i| i.wrapping_mul(37).wrapping_add(200)).collect();
    assert_eq!(Transform::decode(&bytes).unwrap().encode(), bytes);
    assert_eq!(Vec3::decode(&bytes[..12]).unwrap().encode(), bytes[..12]);
    assert_eq!(Quat::decode(&bytes[12..]).unwrap().encode(), bytes[12..]);
}

#[test]
fn decode_reads_fields_in_declaration_order() {
    let bytes: Vec<u8> = (1..=28u8).collect();
    let value = Transform::decode(&bytes).unwrap();
    assert_eq!(value.pos.x, 0x0403_0201);
    assert_eq!(value.pos.y, 0x0807_0605);
    assert_eq!(value.pos.z, 0x0c0b_0a09);
    assert_eq!(value.rotation.x, 0x100f_0e0d);
    assert_eq!(value.rotation.y, 0x1413_1211);
    assert_eq!(value.rotation.z, 0x1817_1615);
    assert_eq!(value.rotation.w, 0x1c1b_1a19);
}

#[test]
fn decode_wants_the_exact_size() {
    assert_eq!(Vec3::decode(&[0; 11]), None);
    assert_eq!(Vec3::decode(&[0; 13]), None);
    assert_eq!(Quat::decode(&[0; 15]), None);
    assert_eq!(Quat::decode(&[0; 17]), None);
    assert_eq!(Transform::decode(&[0; 27]), None);
    assert_eq!(Transform::decode(&[0; 29]), None);
    assert_eq!(Transform::decode(&[]), None);
    assert!(Transform::decode(&[0; 28]).is_some());
}
