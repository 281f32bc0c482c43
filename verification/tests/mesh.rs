use kv6view::kv6::kv6data::{KV6Color, KV6Data, KV6Pivot, KV6Size, KV6Voxel};
use kv6view::kv6::kv6mesh::{
    emit_voxel, kv6_gen_vertices, Face, KV6Vertex, Offset, Rgb, BACK_VISIBLE, BOTTOM_VISIBLE,
    FRONT_VISIBLE, LEFT_VISIBLE, NORMAL_TABLE_LEN, RIGHT_VISIBLE, TOP_VISIBLE,
};

const ALL_FACES: [Face; 6] =
    [Face::Front, Face::Back, Face::Top, Face::Bottom, Face::Right, Face::Left];

fn voxel(z: u16, visibility: u8) -> KV6Voxel {
    KV6Voxel { color: KV6Color { b: 10, g: 20, r: 30, a: 40 }, z, visibility, normal_index: 17 }
}

fn single(visibility: u8) -> KV6Data {
    KV6Data {
        size: KV6Size { x: 1, y: 1, z: 1 },
        pivot: KV6Pivot { x: 0, y: 0, z: 0 },
        voxel_count: 1,
        voxels: vec![voxel(0, visibility)],
        x_entries: vec![1],
        xy_entries: vec![1],
    }
}

fn off(x: i8, y: i8, z: i8) -> Offset {
    Offset { x, y, z }
}

fn corners(vs: &[KV6Vertex]) -> Vec<Offset> {
    vs.iter().map(|v| v.corner).collect()
}

#[test]
fn visibility_bits() {
    assert_eq!(LEFT_VISIBLE, 1);
    assert_eq!(RIGHT_VISIBLE, 2);
    assert_eq!(BACK_VISIBLE, 4);
    assert_eq!(FRONT_VISIBLE, 8);
    assert_eq!(TOP_VISIBLE, 16);
    assert_eq!(BOTTOM_VISIBLE, 32);
    assert_eq!(Face::Left.mask(), 1);
    assert_eq!(Face::Right.mask(), 2);
    assert_eq!(Face::Back.mask(), 4);
    assert_eq!(Face::Front.mask(), 8);
    assert_eq!(Face::Top.mask(), 16);
    assert_eq!(Face::Bottom.mask(), 32);
}

#[test]
fn face_normals() {
    assert_eq!(Face::Front.normal(), off(0, 1, 0));
    assert_eq!(Face::Back.normal(), off(0, -1, 0));
    assert_eq!(Face::Top.normal(), off(0, 0, 1));
    assert_eq!(Face::Bottom.normal(), off(0, 0, -1));
    assert_eq!(Face::Right.normal(), off(-1, 0, 0));
    assert_eq!(Face::Left.normal(), off(1, 0, 0));
}

#[test]
fn face_corners() {
    let c = |f: Face| [f.corner(0), f.corner(1), f.corner(2), f.corner(3)];
    assert_eq!(c(Face::Front), [off(-1, 1, -1), off(-1, 1, 1), off(1, 1, 1), off(1, 1, -1)]);
    assert_eq!(c(Face::Back), [off(-1, -1, -1), off(1, -1, -1), off(1, -1, 1), off(-1, -1, 1)]);
    assert_eq!(c(Face::Top), [off(-1, -1, 1), off(1, -1, 1), off(1, 1, 1), off(-1, 1, 1)]);
    assert_eq!(c(Face::Bottom), [off(-1, -1, -1), off(-1, 1, -1), off(1, 1, -1), off(1, -1, -1)]);
    assert_eq!(c(Face::Right), [off(-1, -1, -1), off(-1, -1, 1), off(-1, 1, 1), off(-1, 1, -1)]);
    assert_eq!(c(Face::Left), [off(1, -1, -1), off(1, 1, -1), off(1, 1, 1), off(1, -1, 1)]);
}

#[test]
fn corner_numbers_above_three_give_the_last_corner() {
    for f in ALL_FACES {
        assert_eq!(f.corner(4), f.corner(3));
        assert_eq!(f.corner(255), f.corner(3));
    }
}

#[test]
fn corners_lie_on_the_side_of_the_normal() {
    for f in ALL_FACES {
        let n = f.normal();
        for k in 0..4u8 {
            let c = f.corner(k);
            assert!(c.x.abs() == 1 && c.y.abs() == 1 && c.z.abs() == 1);
            let dot = c.x as i32 * n.x as i32 + c.y as i32 * n.y as i32 + c.z as i32 * n.z as i32;
            assert_eq!(dot, 1);
        }
    }
}

#[test]
fn quads_wind_counter_clockwise_about_their_normal() {
    let sub = |a: Offset, b: Offset| {
        [(b.x - a.x) as i32, (b.y - a.y) as i32, (b.z - a.z) as i32]
    };
    let cross = |a: [i32; 3], b: [i32; 3]| {
        [a[1] * b[2] - a[2] * b[1], a[2] * b[0] - a[0] * b[2], a[0] * b[1] - a[1] * b[0]]
    };
    for f in ALL_FACES {
        let n = f.normal();
        let four_n = [4 * n.x as i32, 4 * n.y as i32, 4 * n.z as i32];
        let c: Vec<Offset> = (0..4u8).map(|k| f.corner(k)).collect();
        assert_eq!(cross(sub(c[0], c[1]), sub(c[0], c[2])), four_n);
        assert_eq!(cross(sub(c[2], c[3]), sub(c[2], c[0])), four_n);
    }
}

#[test]
fn mesh_vertex_count_all_faces() {
    let vertices = kv6_gen_vertices(&single(63));
    assert_eq!(vertices.len(), 36);
    for v in &vertices {
        assert_eq!(v.color, Rgb { r: 30, g: 20, b: 10 });
        assert_eq!(v.normal_index, 17);
        assert_eq!((v.x, v.y, v.z), (0, 0, 0));
    }
    let mut normals: Vec<Offset> = vertices.iter().map(|v| v.face.normal()).collect();
    let axis_units = [
        off(1, 0, 0),
        off(-1, 0, 0),
        off(0, 1, 0),
        off(0, -1, 0),
        off(0, 0, 1),
        off(0, 0, -1),
    ];
    for unit in axis_units {
        assert_eq!(normals.iter().filter(|n| **n == unit).count(), 6);
    }
    normals.dedup();
    assert_eq!(normals.len(), 6);
}

#[test]
fn mesh_vertex_count_no_face() {
    assert_eq!(kv6_gen_vertices(&single(0)).len(), 0);
}

#[test]
fn bits_above_the_sixth_are_ignored() {
    assert_eq!(kv6_gen_vertices(&single(0xc0)).len(), 0);
    assert_eq!(kv6_gen_vertices(&single(0xff)), kv6_gen_vertices(&single(63)));
    let with = kv6_gen_vertices(&single(0x80 | FRONT_VISIBLE));
    assert_eq!(with, kv6_gen_vertices(&single(FRONT_VISIBLE)));
    assert_eq!(with.len(), 6);
}

#[test]
fn one_face_gives_two_triangles_in_winding_order() {
    let vertices = kv6_gen_vertices(&single(FRONT_VISIBLE));
    assert_eq!(
        corners(&vertices),
        vec![
            off(-1, 1, -1),
            off(-1, 1, 1),
            off(1, 1, 1),
            off(1, 1, 1),
            off(1, 1, -1),
            off(-1, 1, -1),
        ]
    );
    for v in &vertices {
        assert_eq!(v.face, Face::Front);
    }
}

#[test]
fn every_face_emits_corners_0_1_2_2_3_0() {
    for f in ALL_FACES {
        let vertices = kv6_gen_vertices(&single(f.mask()));
        let expected: Vec<Offset> = [0u8, 1, 2, 2, 3, 0].iter().map(|k| f.corner(*k)).collect();
        assert_eq!(corners(&vertices), expected);
        assert!(vertices.iter().all(|v| v.face == f));
    }
}

#[test]
fn faces_come_in_a_fixed_order() {
    let vertices = kv6_gen_vertices(&single(63));
    let faces: Vec<Face> = vertices.iter().step_by(6).map(|v| v.face).collect();
    assert_eq!(faces, ALL_FACES.to_vec());
    let vertices = kv6_gen_vertices(&single(LEFT_VISIBLE | FRONT_VISIBLE | BOTTOM_VISIBLE));
    let faces: Vec<Face> = vertices.iter().step_by(6).map(|v| v.face).collect();
    assert_eq!(faces, vec![Face::Front, Face::Bottom, Face::Left]);
}

#[test]
fn vertex_count_is_six_per_set_bit() {
    for visibility in 0..=255u8 {
        let expected = 6 * (visibility & 63).count_ones() as usize;
        assert_eq!(kv6_gen_vertices(&single(visibility)).len(), expected);
    }
}

#[test]
fn columns_are_walked_x_outermost() {
    // Columns (0,0) (0,1) (0,2) (1,0) (1,1) (1,2) hold 1, 0, 2, 0, 1, 1 voxels.
    let data = KV6Data {
        size: KV6Size { x: 2, y: 3, z: 8 },
        pivot: KV6Pivot { x: 0, y: 0, z: 0 },
        voxel_count: 5,
        voxels: vec![
            voxel(0, TOP_VISIBLE),
            voxel(1, TOP_VISIBLE),
            voxel(2, TOP_VISIBLE),
            voxel(3, TOP_VISIBLE),
            voxel(4, TOP_VISIBLE),
        ],
        x_entries: vec![3, 2],
        xy_entries: vec![1, 0, 2, 0, 1, 1],
    };
    let vertices = kv6_gen_vertices(&data);
    assert_eq!(vertices.len(), 30);
    let cells: Vec<(u32, u32, u16)> =
        vertices.iter().step_by(6).map(|v| (v.x, v.y, v.z)).collect();
    assert_eq!(cells, vec![(0, 0, 0), (0, 2, 1), (0, 2, 2), (1, 1, 3), (1, 2, 4)]);
    for quad in vertices.chunks(6) {
        assert!(quad.iter().all(|v| (v.x, v.y, v.z) == (quad[0].x, quad[0].y, quad[0].z)));
    }
}

#[test]
fn total_vertex_count_adds_up_over_voxels() {
    let data = KV6Data {
        size: KV6Size { x: 1, y: 2, z: 4 },
        pivot: KV6Pivot { x: 0, y: 0, z: 0 },
        voxel_count: 3,
        voxels: vec![voxel(0, 1), voxel(1, 3), voxel(2, 0x47)],
        x_entries: vec![3],
        xy_entries: vec![2, 1],
    };
    assert_eq!(kv6_gen_vertices(&data).len(), (1 + 2 + 3) * 6);
}

#[test]
fn each_voxel_keeps_its_own_colour_and_normal() {
    let mut a = voxel(5, FRONT_VISIBLE);
    a.color = KV6Color { b: 1, g: 2, r: 3, a: 0 };
    a.normal_index = 0;
    let mut b = voxel(6, BACK_VISIBLE);
    b.color = KV6Color { b: 0, g: 0, r: 0, a: 9 };
    b.normal_index = 255;
    let data = KV6Data {
        size: KV6Size { x: 1, y: 1, z: 8 },
        pivot: KV6Pivot { x: 0, y: 0, z: 0 },
        voxel_count: 2,
        voxels: vec![a, b],
        x_entries: vec![2],
        xy_entries: vec![2],
    };
    let vertices = kv6_gen_vertices(&data);
    assert_eq!(vertices.len(), 12);
    for v in &vertices[..6] {
        assert_eq!((v.color, v.normal_index, v.z), (Rgb { r: 3, g: 2, b: 1 }, 0, 5));
    }
    for v in &vertices[6..] {
        assert_eq!((v.color, v.normal_index, v.z), (Rgb { r: 0, g: 0, b: 0 }, 255, 6));
    }
}

#[test]
fn voxels_behind_the_columns_are_skipped() {
    let mut data = single(63);
    data.voxels.push(voxel(9, 63));
    assert!(data.is_meshable());
    assert_eq!(kv6_gen_vertices(&data), kv6_gen_vertices(&single(63)));
}

#[test]
fn columns_behind_the_extents_are_skipped() {
    let mut data = single(63);
    data.voxels.push(voxel(9, 63));
    data.xy_entries.push(1);
    assert!(data.is_meshable());
    assert_eq!(kv6_gen_vertices(&data), kv6_gen_vertices(&single(63)));
}

#[test]
fn model_without_columns_has_no_vertices() {
    let mut data = single(63);
    data.size = KV6Size { x: 0, y: 5, z: 1 };
    assert!(data.is_meshable());
    assert!(kv6_gen_vertices(&data).is_empty());
    data.size = KV6Size { x: 5, y: 0, z: 1 };
    assert!(data.is_meshable());
    assert!(kv6_gen_vertices(&data).is_empty());
}

#[test]
fn the_mesh_does_not_depend_on_the_pivot_or_the_slab_counters() {
    let mut data = single(63);
    let plain = kv6_gen_vertices(&data);
    data.pivot = KV6Pivot { x: (3.5f32).to_bits(), y: 1, z: u32::MAX };
    data.x_entries = vec![7, 8, 9];
    assert_eq!(kv6_gen_vertices(&data), plain);
}

#[test]
fn meshing_twice_gives_the_same_list() {
    let data = single(0x2a);
    assert_eq!(kv6_gen_vertices(&data), kv6_gen_vertices(&data));
}

#[test]
fn emit_voxel_appends() {
    let mut out: Vec<KV6Vertex> = Vec::new();
    emit_voxel(&mut out, 3, 4, &voxel(5, TOP_VISIBLE));
    assert_eq!(out.len(), 6);
    let first = out.clone();
    emit_voxel(&mut out, 6, 7, &voxel(8, RIGHT_VISIBLE | LEFT_VISIBLE));
    assert_eq!(out.len(), 18);
    assert_eq!(&out[..6], &first[..]);
    assert_eq!((out[6].x, out[6].y, out[6].z, out[6].face), (6, 7, 8, Face::Right));
    assert_eq!(out[12].face, Face::Left);
    emit_voxel(&mut out, 0, 0, &voxel(0, 0));
    assert_eq!(out.len(), 18);
}

#[test]
fn every_normal_index_has_a_table_entry() {
    assert_eq!(NORMAL_TABLE_LEN, 256);
    for n in [0u8, 1, 254, 255] {
        let mut v = voxel(0, FRONT_VISIBLE);
        v.normal_index = n;
        let mut out: Vec<KV6Vertex> = Vec::new();
        emit_voxel(&mut out, 0, 0, &v);
        assert!((out[0].normal_index as usize) < NORMAL_TABLE_LEN);
        assert_eq!(out[0].normal_index, n);
    }
}

#[test]
fn largest_cell_coordinates_are_kept() {
    let mut out: Vec<KV6Vertex> = Vec::new();
    emit_voxel(&mut out, u32::MAX, u32::MAX - 1, &voxel(u16::MAX, BOTTOM_VISIBLE));
    assert_eq!((out[5].x, out[5].y, out[5].z), (u32::MAX, u32::MAX - 1, u16::MAX));
}
