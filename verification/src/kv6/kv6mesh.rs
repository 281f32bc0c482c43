//! The triangle list of a decoded model.
//!
//! Every exposed face of every voxel becomes a quad of two triangles. A vertex
//! is described exactly: the cell it belongs to, the corner of that cell's
//! unit cube in half cells, the face it lies on, and the voxel's colour and
//! shading-normal index. In render space the cube of cell `(x, y, z)` is
//! centred on `(-x, y, -z)` moved by the pivot, and corner and face normal
//! are added as they are.

use crate::kv6::kv6data::{column_start, lemma_column_start_monotonic, KV6Data, KV6DataView, KV6Voxel};
use vstd::arithmetic::div_mod::lemma_fundamental_div_mod_converse;
use vstd::prelude::*;

verus! {

pub const LEFT_VISIBLE: u8 = 1;

pub const RIGHT_VISIBLE: u8 = 2;

pub const BACK_VISIBLE: u8 = 4;

pub const FRONT_VISIBLE: u8 = 8;

pub const TOP_VISIBLE: u8 = 16;

pub const BOTTOM_VISIBLE: u8 = 32;

/// Entries of the table of shading normals: one for every `normal_index`.
pub const NORMAL_TABLE_LEN: usize = 256;

/// The faces of a cell, in the order in which their quads are emitted.
#[derive(Clone, Copy, Debug, PartialEq, Eq, Structural)]
pub enum Face {
    Front,
    Back,
    Top,
    Bottom,
    Right,
    Left,
}

/// Three small signed steps: a face normal in whole cells, or a cube corner
/// in half cells.
#[derive(Clone, Copy, Debug, PartialEq, Eq, Structural)]
pub struct Offset {
    pub x: i8,
    pub y: i8,
    pub z: i8,
}

/// The colour of a vertex.
#[derive(Clone, Copy, Debug, PartialEq, Eq, Structural)]
pub struct Rgb {
    pub r: u8,
    pub g: u8,
    pub b: u8,
}

/// One vertex of the triangle list.
#[derive(Clone, Copy, Debug, PartialEq, Eq, Structural)]
pub struct KV6Vertex {
    /// The column of the voxel.
    pub x: u32,
    pub y: u32,
    /// The height of the voxel in its column.
    pub z: u16,
    /// The corner of the voxel's cube, each step one half cell.
    pub corner: Offset,
    /// The face the vertex lies on; its normal is the same for the whole quad.
    pub face: Face,
    /// Index of the voxel's shading normal.
    pub normal_index: u8,
    pub color: Rgb,
}

impl Face {
    /// The bit of a visibility mask that exposes this face.
    pub open spec fn spec_mask(self) -> u8 {
        match self {
            Face::Front => FRONT_VISIBLE,
            Face::Back => BACK_VISIBLE,
            Face::Top => TOP_VISIBLE,
            Face::Bottom => BOTTOM_VISIBLE,
            Face::Right => RIGHT_VISIBLE,
            Face::Left => LEFT_VISIBLE,
        }
    }

    /// The outward normal of this face in render space.
    pub open spec fn spec_normal(self) -> Offset {
        match self {
            Face::Front => Offset { x: 0, y: 1, z: 0 },
            Face::Back => Offset { x: 0, y: -1i8, z: 0 },
            Face::Top => Offset { x: 0, y: 0, z: 1 },
            Face::Bottom => Offset { x: 0, y: 0, z: -1i8 },
            Face::Right => Offset { x: -1i8, y: 0, z: 0 },
            Face::Left => Offset { x: 1, y: 0, z: 0 },
        }
    }

    /// Corner `k` of this face's quad, for `k` from 0 to 3, in half cells.
    pub open spec fn spec_corner(self, k: int) -> Offset {
        match self {
            Face::Front => if k == 0 {
                Offset { x: -1i8, y: 1, z: -1i8 }
            } else if k == 1 {
                Offset { x: -1i8, y: 1, z: 1 }
            } else if k == 2 {
                Offset { x: 1, y: 1, z: 1 }
            } else {
                Offset { x: 1, y: 1, z: -1i8 }
            },
            Face::Back => if k == 0 {
                Offset { x: -1i8, y: -1i8, z: -1i8 }
            } else if k == 1 {
                Offset { x: 1, y: -1i8, z: -1i8 }
            } else if k == 2 {
                Offset { x: 1, y: -1i8, z: 1 }
            } else {
                Offset { x: -1i8, y: -1i8, z: 1 }
            },
            Face::Top => if k == 0 {
                Offset { x: -1i8, y: -1i8, z: 1 }
            } else if k == 1 {
                Offset { x: 1, y: -1i8, z: 1 }
            } else if k == 2 {
                Offset { x: 1, y: 1, z: 1 }
            } else {
                Offset { x: -1i8, y: 1, z: 1 }
            },
            Face::Bottom => if k == 0 {
                Offset { x: -1i8, y: -1i8, z: -1i8 }
            } else if k == 1 {
                Offset { x: -1i8, y: 1, z: -1i8 }
            } else if k == 2 {
                Offset { x: 1, y: 1, z: -1i8 }
            } else {
                Offset { x: 1, y: -1i8, z: -1i8 }
            },
            Face::Right => if k == 0 {
                Offset { x: -1i8, y: -1i8, z: -1i8 }
            } else if k == 1 {
                Offset { x: -1i8, y: -1i8, z: 1 }
            } else if k == 2 {
                Offset { x: -1i8, y: 1, z: 1 }
            } else {
                Offset { x: -1i8, y: 1, z: -1i8 }
            },
            Face::Left => if k == 0 {
                Offset { x: 1, y: -1i8, z: -1i8 }
            } else if k == 1 {
                Offset { x: 1, y: 1, z: -1i8 }
            } else if k == 2 {
                Offset { x: 1, y: 1, z: 1 }
            } else {
                Offset { x: 1, y: -1i8, z: 1 }
            },
        }
    }

    /// The bit of a visibility mask that exposes this face.
    #[verifier::when_used_as_spec(spec_mask)]
    pub fn mask(self) -> (m: u8)
        ensures
            m == self.spec_mask(),
    {
        match self {
            Face::Front => FRONT_VISIBLE,
            Face::Back => BACK_VISIBLE,
            Face::Top => TOP_VISIBLE,
            Face::Bottom => BOTTOM_VISIBLE,
            Face::Right => RIGHT_VISIBLE,
            Face::Left => LEFT_VISIBLE,
        }
    }

    /// The outward normal of this face in render space.
    #[verifier::when_used_as_spec(spec_normal)]
    pub fn normal(self) -> (n: Offset)
        ensures
            n == self.spec_normal(),
    {
        match self {
            Face::Front => Offset { x: 0, y: 1, z: 0 },
            Face::Back => Offset { x: 0, y: -1i8, z: 0 },
            Face::Top => Offset { x: 0, y: 0, z: 1 },
            Face::Bottom => Offset { x: 0, y: 0, z: -1i8 },
            Face::Right => Offset { x: -1i8, y: 0, z: 0 },
            Face::Left => Offset { x: 1, y: 0, z: 0 },
        }
    }

    /// Corner `k` of this face's quad, in half cells; any `k` above 3 gives corner 3.
    pub fn corner(self, k: u8) -> (c: Offset)
        ensures
            c == self.spec_corner(k as int),
    {
        let (a, b, c, d) = match self {
            Face::Front => (
                Offset { x: -1i8, y: 1, z: -1i8 },
                Offset { x: -1i8, y: 1, z: 1 },
                Offset { x: 1, y: 1, z: 1 },
                Offset { x: 1, y: 1, z: -1i8 },
            ),
            Face::Back => (
                Offset { x: -1i8, y: -1i8, z: -1i8 },
                Offset { x: 1, y: -1i8, z: -1i8 },
                Offset { x: 1, y: -1i8, z: 1 },
                Offset { x: -1i8, y: -1i8, z: 1 },
            ),
            Face::Top => (
                Offset { x: -1i8, y: -1i8, z: 1 },
                Offset { x: 1, y: -1i8, z: 1 },
                Offset { x: 1, y: 1, z: 1 },
                Offset { x: -1i8, y: 1, z: 1 },
            ),
            Face::Bottom => (
                Offset { x: -1i8, y: -1i8, z: -1i8 },
                Offset { x: -1i8, y: 1, z: -1i8 },
                Offset { x: 1, y: 1, z: -1i8 },
                Offset { x: 1, y: -1i8, z: -1i8 },
            ),
            Face::Right => (
                Offset { x: -1i8, y: -1i8, z: -1i8 },
                Offset { x: -1i8, y: -1i8, z: 1 },
                Offset { x: -1i8, y: 1, z: 1 },
                Offset { x: -1i8, y: 1, z: -1i8 },
            ),
            Face::Left => (
                Offset { x: 1, y: -1i8, z: -1i8 },
                Offset { x: 1, y: 1, z: -1i8 },
                Offset { x: 1, y: 1, z: 1 },
                Offset { x: 1, y: -1i8, z: 1 },
            ),
        };
        if k == 0 {
            a
        } else if k == 1 {
            b
        } else if k == 2 {
            c
        } else {
            d
        }
    }
}

/// Whether the visibility mask of `v` exposes face `f`.
pub open spec fn is_visible(v: KV6Voxel, f: Face) -> bool {
    v.visibility & f.spec_mask() > 0
}

/// The vertex at corner `k` of face `f` of voxel `v` in column `(x, y)`.
pub open spec fn vertex_at(x: u32, y: u32, v: KV6Voxel, f: Face, k: int) -> KV6Vertex {
    KV6Vertex {
        x,
        y,
        z: v.z,
        corner: f.spec_corner(k),
        face: f,
        normal_index: v.normal_index,
        color: Rgb { r: v.color.r, g: v.color.g, b: v.color.b },
    }
}

/// The two triangles of face `f`: corners 0, 1, 2 and corners 2, 3, 0.
pub open spec fn quad(x: u32, y: u32, v: KV6Voxel, f: Face) -> Seq<KV6Vertex> {
    seq![
        vertex_at(x, y, v, f, 0),
        vertex_at(x, y, v, f, 1),
        vertex_at(x, y, v, f, 2),
        vertex_at(x, y, v, f, 2),
        vertex_at(x, y, v, f, 3),
        vertex_at(x, y, v, f, 0),
    ]
}

/// The vertices that face `f` of voxel `v` contributes: its quad if it is exposed.
pub open spec fn face_vertices(x: u32, y: u32, v: KV6Voxel, f: Face) -> Seq<KV6Vertex> {
    if is_visible(v, f) {
        quad(x, y, v, f)
    } else {
        Seq::empty()
    }
}

/// The vertices of one voxel: its exposed faces in the order of [`Face`].
pub open spec fn voxel_vertices(x: u32, y: u32, v: KV6Voxel) -> Seq<KV6Vertex> {
    face_vertices(x, y, v, Face::Front) + face_vertices(x, y, v, Face::Back) + face_vertices(
        x,
        y,
        v,
        Face::Top,
    ) + face_vertices(x, y, v, Face::Bottom) + face_vertices(x, y, v, Face::Right)
        + face_vertices(x, y, v, Face::Left)
}

/// The vertices of the `n` voxels that start at `start`, all in column `(x, y)`.
pub open spec fn run_vertices(vs: Seq<KV6Voxel>, x: u32, y: u32, start: int, n: int) -> Seq<
    KV6Vertex,
>
    decreases n,
{
    if n <= 0 {
        Seq::empty()
    } else {
        run_vertices(vs, x, y, start, n - 1) + voxel_vertices(x, y, vs[start + n - 1])
    }
}

/// The vertices of column number `c`, which is column `(c / size.y, c % size.y)`.
pub open spec fn column_vertices(m: KV6DataView, c: int) -> Seq<KV6Vertex> {
    run_vertices(
        m.voxels,
        (c / (m.size.y as int)) as u32,
        (c % (m.size.y as int)) as u32,
        column_start(m.xy_entries, c),
        m.xy_entries[c] as int,
    )
}

/// The vertices of the first `c` columns.
pub open spec fn mesh_prefix(m: KV6DataView, c: int) -> Seq<KV6Vertex>
    decreases c,
{
    if c <= 0 {
        Seq::empty()
    } else {
        mesh_prefix(m, c - 1) + column_vertices(m, c - 1)
    }
}

/// The triangle list of a model: column after column with x outermost, in
/// each column its voxels in stream order, for each voxel its exposed faces.
pub open spec fn mesh(m: KV6DataView) -> Seq<KV6Vertex> {
    mesh_prefix(m, m.columns())
}

/// Appends the quad of face `f`.
fn emit_face(out: &mut Vec<KV6Vertex>, x: u32, y: u32, v: &KV6Voxel, f: Face)
    ensures
        final(out)@ == old(out)@ + quad(x, y, *v, f),
{
    let color = Rgb { r: v.color.r, g: v.color.g, b: v.color.b };
    let v1 = KV6Vertex { x, y, z: v.z, corner: f.corner(0), face: f, normal_index: v.normal_index, color };
    let v2 = KV6Vertex { x, y, z: v.z, corner: f.corner(1), face: f, normal_index: v.normal_index, color };
    let v3 = KV6Vertex { x, y, z: v.z, corner: f.corner(2), face: f, normal_index: v.normal_index, color };
    let v4 = KV6Vertex { x, y, z: v.z, corner: f.corner(3), face: f, normal_index: v.normal_index, color };
    out.push(v1);
    out.push(v2);
    out.push(v3);
    out.push(v3);
    out.push(v4);
    out.push(v1);
    assert(out@ =~= old(out)@ + quad(x, y, *v, f));
}

/// Appends the quad of face `f` if the voxel exposes it.
fn emit_face_if_visible(out: &mut Vec<KV6Vertex>, x: u32, y: u32, v: &KV6Voxel, f: Face)
    ensures
        final(out)@ == old(out)@ + face_vertices(x, y, *v, f),
{
    if v.visibility & f.mask() > 0 {
        emit_face(out, x, y, v, f);
    } else {
        assert(out@ =~= old(out)@ + face_vertices(x, y, *v, f));
    }
}

/// Appends the vertices of one voxel of column `(x, y)`.
pub fn emit_voxel(out: &mut Vec<KV6Vertex>, x: u32, y: u32, v: &KV6Voxel)
    ensures
        final(out)@ == old(out)@ + voxel_vertices(x, y, *v),
{
    emit_face_if_visible(out, x, y, v, Face::Front);
    emit_face_if_visible(out, x, y, v, Face::Back);
    emit_face_if_visible(out, x, y, v, Face::Top);
    emit_face_if_visible(out, x, y, v, Face::Bottom);
    emit_face_if_visible(out, x, y, v, Face::Right);
    emit_face_if_visible(out, x, y, v, Face::Left);
    assert(out@ =~= old(out)@ + voxel_vertices(x, y, *v));
}

/// Column `(x, y)` of a model with `sx` by `sy` columns has number
/// `x * sy + y`, which is below `sx * sy` and gives `x` and `y` back.
pub proof fn lemma_column_number(x: int, y: int, sx: int, sy: int)
    requires
        0 <= x < sx,
        0 <= y < sy,
    ensures
        0 <= x * sy,
        x * sy + y < sx * sy,
        (x + 1) * sy == x * sy + sy,
        (x * sy + y) / sy == x,
        (x * sy + y) % sy == y,
{
    assert(0 <= x * sy && (x + 1) * sy == x * sy + sy && (x + 1) * sy <= sx * sy)
        by (nonlinear_arith)
        requires
            0 <= x < sx,
            0 < sy,
    ;
    lemma_fundamental_div_mod_converse(x * sy + y, sy, x, y);
}

/// A run grows by the vertices of its next voxel.
proof fn lemma_run_vertices_step(vs: Seq<KV6Voxel>, x: u32, y: u32, start: int, n: int)
    requires
        0 <= n,
    ensures
        run_vertices(vs, x, y, start, n + 1) == run_vertices(vs, x, y, start, n) + voxel_vertices(
            x,
            y,
            vs[start + n],
        ),
{
}

/// Turns a decoded model into its triangle list.
///
/// The model has to be walkable: its columns must lie inside `xy_entries`
/// and must not ask for more voxels than there are.
pub fn kv6_gen_vertices(data: &KV6Data) -> (vertices: Vec<KV6Vertex>)
    requires
        data@.meshable(),
    ensures
        vertices@ == mesh(data@),
{
    let ghost m = data@;
    let sx: u32 = data.size.x;
    let sy: u32 = data.size.y;
    let mut vertices: Vec<KV6Vertex> = Vec::new();
    let mut vox_index: usize = 0;
    let mut x: u32 = 0;
    while x < sx
        invariant
            m == data@,
            m.meshable(),
            sx == m.size.x,
            sy == m.size.y,
            x <= sx,
            vox_index == column_start(m.xy_entries, x * sy),
            vertices@ == mesh_prefix(m, x * sy),
        decreases sx - x,
    {
        let mut y: u32 = 0;
        while y < sy
            invariant
                m == data@,
                m.meshable(),
                sx == m.size.x,
                sy == m.size.y,
                x < sx,
                y <= sy,
                vox_index == column_start(m.xy_entries, x * sy + y),
                vertices@ == mesh_prefix(m, x * sy + y),
            decreases sy - y,
        {
            proof {
                lemma_column_number(x as int, y as int, sx as int, sy as int);
                lemma_column_start_monotonic(m.xy_entries, x * sy + y + 1, m.columns());
                assert(m.xy_entries.len() == data.xy_entries.len() <= usize::MAX);
                assert(m.voxels.len() == data.voxels.len() <= usize::MAX);
            }
            let c: usize = x as usize * sy as usize + y as usize;
            let count: u16 = data.xy_entries[c];
            let ghost start = vox_index as int;
            let mut k: u16 = 0;
            while k < count
                invariant
                    m == data@,
                    k <= count,
                    vox_index == start + k,
                    start + count <= m.voxels.len() <= usize::MAX,
                    0 <= start,
                    vertices@ == mesh_prefix(m, c as int) + run_vertices(
                        m.voxels,
                        x,
                        y,
                        start,
                        k as int,
                    ),
                decreases count - k,
            {
                proof {
                    lemma_run_vertices_step(m.voxels, x, y, start, k as int);
                }
                emit_voxel(&mut vertices, x, y, &data.voxels[vox_index]);
                vox_index += 1;
                k += 1;
            }
            assert(vertices@ == mesh_prefix(m, c as int) + column_vertices(m, c as int));
            y += 1;
        }
        assert((x + 1) * sy == x * sy + sy) by (nonlinear_arith);
        x += 1;
    }
    vertices
}

/// The number of faces that the visibility mask of `v` exposes: the set bits
/// among its six low bits.
pub open spec fn visible_faces(v: KV6Voxel) -> nat {
    let n = |f: Face| -> nat {
        if is_visible(v, f) {
            1nat
        } else {
            0nat
        }
    };
    n(Face::Front) + n(Face::Back) + n(Face::Top) + n(Face::Bottom) + n(Face::Right) + n(
        Face::Left,
    )
}

/// The number of exposed faces among the first `n` voxels.
pub open spec fn visible_faces_in(vs: Seq<KV6Voxel>, n: int) -> nat
    decreases n,
{
    if n <= 0 {
        0
    } else {
        visible_faces_in(vs, n - 1) + visible_faces(vs[n - 1])
    }
}

/// Every exposed face of a voxel gives six vertices, and nothing else gives any.
pub proof fn lemma_voxel_vertex_count(x: u32, y: u32, v: KV6Voxel)
    ensures
        voxel_vertices(x, y, v).len() == 6 * visible_faces(v),
{
}

/// A voxel whose six low visibility bits are all clear gives no vertex.
pub proof fn lemma_hidden_voxel_gives_nothing(x: u32, y: u32, v: KV6Voxel)
    requires
        v.visibility & 63 == 0,
    ensures
        voxel_vertices(x, y, v) == Seq::<KV6Vertex>::empty(),
{
    let b = v.visibility;
    assert(b & 63 == 0 ==> b & 1 == 0 && b & 2 == 0 && b & 4 == 0 && b & 8 == 0 && b & 16 == 0 && b
        & 32 == 0) by (bit_vector);
    assert(voxel_vertices(x, y, v) =~= Seq::<KV6Vertex>::empty());
}

/// A voxel whose six low visibility bits are all set gives 36 vertices: six
/// for each face, in the order of [`Face`].
pub proof fn lemma_exposed_voxel_gives_six_quads(x: u32, y: u32, v: KV6Voxel)
    requires
        v.visibility & 63 == 63,
    ensures
        voxel_vertices(x, y, v) == quad(x, y, v, Face::Front) + quad(x, y, v, Face::Back) + quad(
            x,
            y,
            v,
            Face::Top,
        ) + quad(x, y, v, Face::Bottom) + quad(x, y, v, Face::Right) + quad(x, y, v, Face::Left),
        voxel_vertices(x, y, v).len() == 36,
{
    let b = v.visibility;
    assert(b & 63 == 63 ==> b & 1 > 0 && b & 2 > 0 && b & 4 > 0 && b & 8 > 0 && b & 16 > 0 && b & 32
        > 0) by (bit_vector);
}

/// The vertices of a run are six for every exposed face of its voxels.
proof fn lemma_run_vertex_count(vs: Seq<KV6Voxel>, x: u32, y: u32, start: int, n: int)
    requires
        0 <= start,
        0 <= n,
    ensures
        run_vertices(vs, x, y, start, n).len() + 6 * visible_faces_in(vs, start) == 6
            * visible_faces_in(vs, start + n),
    decreases n,
{
    if n > 0 {
        lemma_run_vertex_count(vs, x, y, start, n - 1);
        lemma_voxel_vertex_count(x, y, vs[start + n - 1]);
    }
}

/// The vertices of the first `c` columns are six for every exposed face of their voxels.
proof fn lemma_mesh_prefix_vertex_count(m: KV6DataView, c: int)
    requires
        0 <= c <= m.xy_entries.len(),
    ensures
        mesh_prefix(m, c).len() == 6 * visible_faces_in(m.voxels, column_start(m.xy_entries, c)),
    decreases c,
{
    if c > 0 {
        lemma_mesh_prefix_vertex_count(m, c - 1);
        lemma_column_start_monotonic(m.xy_entries, 0, c - 1);
        lemma_run_vertex_count(
            m.voxels,
            ((c - 1) / (m.size.y as int)) as u32,
            ((c - 1) % (m.size.y as int)) as u32,
            column_start(m.xy_entries, c - 1),
            m.xy_entries[c - 1] as int,
        );
    }
}

/// The triangle list has six vertices for every exposed face of every voxel
/// that the columns account for: of every voxel, where they account for all.
pub proof fn lemma_mesh_vertex_count(m: KV6DataView)
    requires
        m.columns() <= m.xy_entries.len(),
    ensures
        mesh(m).len() == 6 * visible_faces_in(m.voxels, m.column_total()),
        m.column_total() == m.voxels.len() ==> mesh(m).len() == 6 * visible_faces_in(
            m.voxels,
            m.voxels.len() as int,
        ),
{
    assert(0 <= m.size.x * m.size.y) by (nonlinear_arith);
    lemma_mesh_prefix_vertex_count(m, m.columns());
}

/// The number of set bits among the six low bits of `b`.
pub open spec fn low_six_bit_count(b: u8) -> nat {
    ((b & 1) + ((b >> 1) & 1) + ((b >> 2) & 1) + ((b >> 3) & 1) + ((b >> 4) & 1) + ((b >> 5)
        & 1)) as nat
}

/// A voxel exposes as many faces as its visibility mask has bits set among the six low ones.
pub proof fn lemma_visible_faces_is_bit_count(v: KV6Voxel)
    ensures
        visible_faces(v) == low_six_bit_count(v.visibility),
{
    let b = v.visibility;
    assert(((b & 1 > 0) ==> (b & 1) == 1) && (!(b & 1 > 0) ==> (b & 1) == 0)) by (bit_vector);
    assert(((b & 2 > 0) ==> (b >> 1) & 1 == 1) && (!(b & 2 > 0) ==> (b >> 1) & 1 == 0))
        by (bit_vector);
    assert(((b & 4 > 0) ==> (b >> 2) & 1 == 1) && (!(b & 4 > 0) ==> (b >> 2) & 1 == 0))
        by (bit_vector);
    assert(((b & 8 > 0) ==> (b >> 3) & 1 == 1) && (!(b & 8 > 0) ==> (b >> 3) & 1 == 0))
        by (bit_vector);
    assert(((b & 16 > 0) ==> (b >> 4) & 1 == 1) && (!(b & 16 > 0) ==> (b >> 4) & 1 == 0))
        by (bit_vector);
    assert(((b & 32 > 0) ==> (b >> 5) & 1 == 1) && (!(b & 32 > 0) ==> (b >> 5) & 1 == 0))
        by (bit_vector);
}

/// The triangle list of a model of one column that holds one voxel is what
/// that voxel gives in column `(0, 0)`.
pub proof fn lemma_single_voxel_mesh(m: KV6DataView)
    requires
        m.size.x == 1,
        m.size.y == 1,
        m.xy_entries.len() >= 1,
        m.xy_entries[0] == 1,
    ensures
        mesh(m) == voxel_vertices(0, 0, m.voxels[0]),
{
    assert(m.columns() == 1);
    assert(mesh_prefix(m, 1) == mesh_prefix(m, 0) + column_vertices(m, 0));
    assert(column_start(m.xy_entries, 0) == 0);
    assert(run_vertices(m.voxels, 0, 0, 0, 1) == run_vertices(m.voxels, 0, 0, 0, 0)
        + voxel_vertices(0, 0, m.voxels[0]));
    assert(mesh(m) =~= voxel_vertices(0, 0, m.voxels[0]));
}

/// How many vertices of `s` lie on face `f`.
pub open spec fn count_on_face(s: Seq<KV6Vertex>, f: Face) -> nat
    decreases s.len(),
{
    if s.len() == 0 {
        0
    } else {
        count_on_face(s.drop_last(), f) + if s.last().face == f {
            1nat
        } else {
            0nat
        }
    }
}

/// Counting over two lists one behind the other adds up.
pub proof fn lemma_count_on_face_add(a: Seq<KV6Vertex>, b: Seq<KV6Vertex>, f: Face)
    ensures
        count_on_face(a + b, f) == count_on_face(a, f) + count_on_face(b, f),
    decreases b.len(),
{
    if b.len() == 0 {
        assert(a + b =~= a);
    } else {
        assert((a + b).drop_last() =~= a + b.drop_last());
        lemma_count_on_face_add(a, b.drop_last(), f);
    }
}

/// All six vertices of a quad lie on its own face.
pub proof fn lemma_count_on_face_quad(x: u32, y: u32, v: KV6Voxel, g: Face, f: Face)
    ensures
        count_on_face(quad(x, y, v, g), f) == if g == f {
            6nat
        } else {
            0nat
        },
{
    let q = quad(x, y, v, g);
    let q5 = q.drop_last();
    let q4 = q5.drop_last();
    let q3 = q4.drop_last();
    let q2 = q3.drop_last();
    let q1 = q2.drop_last();
    let q0 = q1.drop_last();
    assert(q0.len() == 0);
    assert(count_on_face(q0, f) == 0);
    assert(count_on_face(q1, f) == count_on_face(q0, f) + if q1.last().face == f {
        1nat
    } else {
        0nat
    });
    assert(count_on_face(q2, f) == count_on_face(q1, f) + if q2.last().face == f {
        1nat
    } else {
        0nat
    });
    assert(count_on_face(q3, f) == count_on_face(q2, f) + if q3.last().face == f {
        1nat
    } else {
        0nat
    });
    assert(count_on_face(q4, f) == count_on_face(q3, f) + if q4.last().face == f {
        1nat
    } else {
        0nat
    });
    assert(count_on_face(q5, f) == count_on_face(q4, f) + if q5.last().face == f {
        1nat
    } else {
        0nat
    });
}

/// Of the vertices of a voxel, six lie on each face that it exposes and none
/// on any other.
pub proof fn lemma_voxel_vertices_per_face(x: u32, y: u32, v: KV6Voxel, f: Face)
    ensures
        count_on_face(voxel_vertices(x, y, v), f) == if is_visible(v, f) {
            6nat
        } else {
            0nat
        },
{
    let part = |g: Face| face_vertices(x, y, v, g);
    let a1 = part(Face::Front);
    let a2 = a1 + part(Face::Back);
    let a3 = a2 + part(Face::Top);
    let a4 = a3 + part(Face::Bottom);
    let a5 = a4 + part(Face::Right);
    lemma_count_on_face_add(a1, part(Face::Back), f);
    lemma_count_on_face_add(a2, part(Face::Top), f);
    lemma_count_on_face_add(a3, part(Face::Bottom), f);
    lemma_count_on_face_add(a4, part(Face::Right), f);
    lemma_count_on_face_add(a5, part(Face::Left), f);
    lemma_count_on_face_quad(x, y, v, Face::Front, f);
    lemma_count_on_face_quad(x, y, v, Face::Back, f);
    lemma_count_on_face_quad(x, y, v, Face::Top, f);
    lemma_count_on_face_quad(x, y, v, Face::Bottom, f);
    lemma_count_on_face_quad(x, y, v, Face::Right, f);
    lemma_count_on_face_quad(x, y, v, Face::Left, f);
}

/// Every vertex of a voxel carries the voxel's cell, colour and shading
/// normal, and lies on a face that the voxel exposes.
pub proof fn lemma_voxel_vertices_carry_voxel(x: u32, y: u32, v: KV6Voxel, i: int)
    requires
        0 <= i < voxel_vertices(x, y, v).len(),
    ensures
        ({
            let p = voxel_vertices(x, y, v)[i];
            &&& p.x == x
            &&& p.y == y
            &&& p.z == v.z
            &&& p.color == Rgb { r: v.color.r, g: v.color.g, b: v.color.b }
            &&& p.normal_index == v.normal_index
            &&& p.normal_index < NORMAL_TABLE_LEN
            &&& is_visible(v, p.face)
            &&& exists|k: int| 0 <= k < 4 && p.corner == #[trigger] p.face.spec_corner(k)
        }),
{
    let p = voxel_vertices(x, y, v)[i];
    let f = p.face;
    assert(p.corner == f.spec_corner(0) || p.corner == f.spec_corner(1) || p.corner
        == f.spec_corner(2) || p.corner == f.spec_corner(3));
}

/// Whether `o` is one of the six unit vectors along an axis.
pub open spec fn is_axis_unit(o: Offset) -> bool {
    ||| (o.x == 1 || o.x == -1) && o.y == 0 && o.z == 0
    ||| o.x == 0 && (o.y == 1 || o.y == -1) && o.z == 0
    ||| o.x == 0 && o.y == 0 && (o.z == 1 || o.z == -1)
}

/// The face normals are exactly the six unit vectors along the axes, one face each.
pub proof fn lemma_face_normals_are_the_axis_units()
    ensures
        forall|f: Face| is_axis_unit(#[trigger] f.spec_normal()),
        forall|f: Face, g: Face| #[trigger]
            f.spec_normal() == #[trigger] g.spec_normal() ==> f == g,
        forall|o: Offset| is_axis_unit(o) ==> exists|f: Face| #[trigger] f.spec_normal() == o,
{
    assert forall|o: Offset| is_axis_unit(o) implies exists|f: Face| #[trigger]
        f.spec_normal() == o by {
        let f = if o.y == 1 {
            Face::Front
        } else if o.y == -1 {
            Face::Back
        } else if o.z == 1 {
            Face::Top
        } else if o.z == -1 {
            Face::Bottom
        } else if o.x == -1 {
            Face::Right
        } else {
            Face::Left
        };
        assert(f.spec_normal() == o);
    }
}

/// The step from corner `a` to corner `b`.
pub open spec fn edge(a: Offset, b: Offset) -> (int, int, int) {
    (b.x - a.x, b.y - a.y, b.z - a.z)
}

/// The cross product of two steps.
pub open spec fn cross(a: (int, int, int), b: (int, int, int)) -> (int, int, int) {
    (a.1 * b.2 - a.2 * b.1, a.2 * b.0 - a.0 * b.2, a.0 * b.1 - a.1 * b.0)
}

/// The four corners of a face are four different corners of the unit cube,
/// all on the side that the normal points to, and both triangles of the quad
/// wind counter-clockwise when seen from that side.
pub proof fn lemma_quad_geometry(f: Face)
    ensures
        forall|k: int|
            0 <= k < 4 ==> {
                let c = #[trigger] f.spec_corner(k);
                let n = f.spec_normal();
                &&& (c.x == 1 || c.x == -1)
                &&& (c.y == 1 || c.y == -1)
                &&& (c.z == 1 || c.z == -1)
                &&& (n.x != 0 ==> c.x == n.x)
                &&& (n.y != 0 ==> c.y == n.y)
                &&& (n.z != 0 ==> c.z == n.z)
            },
        forall|j: int, k: int|
            0 <= j < k < 4 ==> #[trigger] f.spec_corner(j) != #[trigger] f.spec_corner(k),
        cross(
            edge(f.spec_corner(0), f.spec_corner(1)),
            edge(f.spec_corner(0), f.spec_corner(2)),
        ) == (4 * f.spec_normal().x, 4 * f.spec_normal().y, 4 * f.spec_normal().z),
        cross(
            edge(f.spec_corner(2), f.spec_corner(3)),
            edge(f.spec_corner(2), f.spec_corner(0)),
        ) == (4 * f.spec_normal().x, 4 * f.spec_normal().y, 4 * f.spec_normal().z),
{
    let n = f.spec_normal();
    let c0 = f.spec_corner(0);
    let c1 = f.spec_corner(1);
    let c2 = f.spec_corner(2);
    let c3 = f.spec_corner(3);
    match f {
        Face::Front => {
            assert(edge(c0, c1) == (0int, 0int, 2int) && edge(c0, c2) == (2int, 0int, 2int));
            assert(edge(c2, c3) == (0int, 0int, -2int) && edge(c2, c0) == (-2int, 0int, -2int));
            assert(cross((0int, 0int, 2int), (2int, 0int, 2int)) == (0int, 4int, 0int)) by (nonlinear_arith);
            assert(cross((0int, 0int, -2int), (-2int, 0int, -2int)) == (0int, 4int, 0int)) by (nonlinear_arith);
        },
        Face::Back => {
            assert(edge(c0, c1) == (2int, 0int, 0int) && edge(c0, c2) == (2int, 0int, 2int));
            assert(edge(c2, c3) == (-2int, 0int, 0int) && edge(c2, c0) == (-2int, 0int, -2int));
            assert(cross((2int, 0int, 0int), (2int, 0int, 2int)) == (0int, -4int, 0int)) by (nonlinear_arith);
            assert(cross((-2int, 0int, 0int), (-2int, 0int, -2int)) == (0int, -4int, 0int)) by (nonlinear_arith);
        },
        Face::Top => {
            assert(edge(c0, c1) == (2int, 0int, 0int) && edge(c0, c2) == (2int, 2int, 0int));
            assert(edge(c2, c3) == (-2int, 0int, 0int) && edge(c2, c0) == (-2int, -2int, 0int));
            assert(cross((2int, 0int, 0int), (2int, 2int, 0int)) == (0int, 0int, 4int)) by (nonlinear_arith);
            assert(cross((-2int, 0int, 0int), (-2int, -2int, 0int)) == (0int, 0int, 4int)) by (nonlinear_arith);
        },
        Face::Bottom => {
            assert(edge(c0, c1) == (0int, 2int, 0int) && edge(c0, c2) == (2int, 2int, 0int));
            assert(edge(c2, c3) == (0int, -2int, 0int) && edge(c2, c0) == (-2int, -2int, 0int));
            assert(cross((0int, 2int, 0int), (2int, 2int, 0int)) == (0int, 0int, -4int)) by (nonlinear_arith);
            assert(cross((0int, -2int, 0int), (-2int, -2int, 0int)) == (0int, 0int, -4int)) by (nonlinear_arith);
        },
        Face::Right => {
            assert(edge(c0, c1) == (0int, 0int, 2int) && edge(c0, c2) == (0int, 2int, 2int));
            assert(edge(c2, c3) == (0int, 0int, -2int) && edge(c2, c0) == (0int, -2int, -2int));
            assert(cross((0int, 0int, 2int), (0int, 2int, 2int)) == (-4int, 0int, 0int)) by (nonlinear_arith);
            assert(cross((0int, 0int, -2int), (0int, -2int, -2int)) == (-4int, 0int, 0int)) by (nonlinear_arith);
        },
        Face::Left => {
            assert(edge(c0, c1) == (0int, 2int, 0int) && edge(c0, c2) == (0int, 2int, 2int));
            assert(edge(c2, c3) == (0int, -2int, 0int) && edge(c2, c0) == (0int, -2int, -2int));
            assert(cross((0int, 2int, 0int), (0int, 2int, 2int)) == (4int, 0int, 0int)) by (nonlinear_arith);
            assert(cross((0int, -2int, 0int), (0int, -2int, -2int)) == (4int, 0int, 0int)) by (nonlinear_arith);
        },
    }
}

} // verus!
