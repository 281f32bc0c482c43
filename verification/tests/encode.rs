use kv6view::kv6::encode::encode_kv6;
use kv6view::kv6::kv6data::{load_kv6, KV6Color, KV6Data, KV6Pivot, KV6Size, KV6Voxel};

fn voxel(seed: u8, z: u16, visibility: u8) -> KV6Voxel {
    KV6Voxel {
        color: KV6Color { b: seed, g: seed.wrapping_add(1), r: seed.wrapping_add(2), a: 255 },
        z,
        visibility,
        normal_index: seed.wrapping_mul(3),
    }
}

fn model() -> KV6Data {
    KV6Data {
        size: KV6Size { x: 2, y: 2, z: 4 },
        pivot: KV6Pivot { x: (1.0f32).to_bits(), y: (-2.5f32).to_bits(), z: (0.0f32).to_bits() },
        voxel_count: 4,
        voxels: vec![voxel(1, 0, 63), voxel(2, 1, 0x15), voxel(3, 3, 0), voxel(4, 0x1234, 32)],
        x_entries: vec![1, 0xdead_beef],
        xy_entries: vec![1, 0, 2, 1],
    }
}

#[test]
fn encodes_exact_bytes() {
    let data = KV6Data {
        size: KV6Size { x: 1, y: 1, z: 0x0102_0304 },
        pivot: KV6Pivot { x: 0x3f80_0000, y: 0, z: 0x8000_0000 },
        voxel_count: 1,
        voxels: vec![KV6Voxel {
            color: KV6Color { b: 1, g: 2, r: 3, a: 4 },
            z: 0x0a0b,
            visibility: 5,
            normal_index: 6,
        }],
        x_entries: vec![0x0000_0100],
        xy_entries: vec![1],
    };
    let expected: Vec<u8> = vec![
        0x4b, 0x76, 0x78, 0x6c, // tag
        1, 0, 0, 0, 1, 0, 0, 0, 0x04, 0x03, 0x02, 0x01, // extents
        0, 0, 0x80, 0x3f, 0, 0, 0, 0, 0, 0, 0, 0x80, // pivot
        1, 0, 0, 0, // voxel count
        1, 2, 3, 4, 0x0b, 0x0a, 5, 6, // voxel
        0, 1, 0, 0, // slab counter
        1, 0, // column counter
    ];
    assert_eq!(encode_kv6(&data), Some(expected));
}

#[test]
fn tag_spells_kvxl() {
    let bytes = encode_kv6(&model()).unwrap();
    assert_eq!(&bytes[..4], b"Kvxl");
}

#[test]
fn encoded_length_follows_the_layout() {
    let bytes = encode_kv6(&model()).unwrap();
    assert_eq!(bytes.len(), 32 + 4 * 8 + 2 * 4 + 4 * 2);
}

#[test]
fn decoder_round_trip() {
    let data = model();
    let bytes = encode_kv6(&data).unwrap();
    let back = load_kv6(&bytes).unwrap();
    assert_eq!(back.size, data.size);
    assert_eq!(back.pivot, data.pivot);
    assert_eq!(back.voxel_count, data.voxel_count);
    assert_eq!(back.voxels, data.voxels);
    assert_eq!(back.x_entries, data.x_entries);
    assert_eq!(back.xy_entries, data.xy_entries);
    assert_eq!(back, data);
}

#[test]
fn round_trip_keeps_the_pivot_floats() {
    let bytes = encode_kv6(&model()).unwrap();
    let back = load_kv6(&bytes).unwrap();
    assert_eq!(f32::from_bits(back.pivot.x), 1.0f32);
    assert_eq!(f32::from_bits(back.pivot.y), -2.5f32);
    assert_eq!(f32::from_bits(back.pivot.z), 0.0f32);
}

#[test]
fn round_trip_of_extreme_values() {
    let data = KV6Data {
        size: KV6Size { x: 1, y: 3, z: u32::MAX },
        pivot: KV6Pivot { x: u32::MAX, y: 0x7f80_0000, z: 1 },
        voxel_count: 2,
        voxels: vec![voxel(255, u16::MAX, 255), voxel(0, 0, 0)],
        x_entries: vec![u32::MAX],
        xy_entries: vec![0, 2, 0],
    };
    let bytes = encode_kv6(&data).unwrap();
    assert_eq!(load_kv6(&bytes), Ok(data));
}

#[test]
fn encoding_twice_gives_the_same_stream() {
    assert_eq!(encode_kv6(&model()), encode_kv6(&model()));
}

#[test]
fn reencoding_a_decoded_stream_gives_it_back() {
    let bytes = encode_kv6(&model()).unwrap();
    let back = load_kv6(&bytes).unwrap();
    assert_eq!(encode_kv6(&back), Some(bytes));
}

#[test]
fn encoded_columns_account_for_every_voxel() {
    let bytes = encode_kv6(&model()).unwrap();
    let back = load_kv6(&bytes).unwrap();
    let sum: u64 = back.xy_entries.iter().map(|n| *n as u64).sum();
    assert_eq!(sum, back.voxel_count as u64);
    assert_eq!(back.voxels.len() as u64, sum);
    assert!(back.is_well_formed());
}

#[test]
fn unsound_columns_are_not_encoded() {
    let mut data = model();
    data.xy_entries = vec![1, 0, 2, 2];
    assert_eq!(encode_kv6(&data), None);
}

#[test]
fn zero_extent_is_not_encoded() {
    let mut data = model();
    data.size.z = 0;
    assert_eq!(encode_kv6(&data), None);
}

#[test]
fn wrong_lengths_are_not_encoded() {
    let mut data = model();
    data.voxels.pop();
    assert_eq!(encode_kv6(&data), None);
    let mut data = model();
    data.x_entries.push(1);
    assert_eq!(encode_kv6(&data), None);
    let mut data = model();
    data.xy_entries.push(0);
    assert_eq!(encode_kv6(&data), None);
}

#[test]
fn empty_model_is_not_encoded() {
    let data = KV6Data {
        size: KV6Size { x: 0, y: 0, z: 0 },
        pivot: KV6Pivot { x: 0, y: 0, z: 0 },
        voxel_count: 0,
        voxels: vec![],
        x_entries: vec![],
        xy_entries: vec![],
    };
    assert_eq!(encode_kv6(&data), None);
}

#[test]
fn model_without_voxels_is_encoded() {
    let data = KV6Data {
        size: KV6Size { x: 1, y: 2, z: 1 },
        pivot: KV6Pivot { x: 0, y: 0, z: 0 },
        voxel_count: 0,
        voxels: vec![],
        x_entries: vec![0],
        xy_entries: vec![0, 0],
    };
    let bytes = encode_kv6(&data).unwrap();
    assert_eq!(bytes.len(), 32 + 4 + 4);
    assert_eq!(load_kv6(&bytes), Ok(data));
}
