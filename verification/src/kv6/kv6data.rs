//! The decoded KV6 model and the byte layout it is read from.
//!
//! A KV6 stream is little-endian and unpadded: a four-byte tag, the three
//! extents, the three pivot coordinates, the voxel count, the voxel records,
//! one 32-bit counter per x-slab and one 16-bit counter per (x, y) column.

use crate::kv6::endian::{le_u16, le_u32, read_u16_at, read_u32_at};
use vstd::prelude::*;

verus! {

/// Bytes before the first voxel record: tag, extents, pivot, voxel count.
pub const HEADER_LEN: usize = 32;

/// Bytes of one voxel record.
pub const VOXEL_LEN: usize = 8;

/// The colour of a voxel, in the order in which the stream stores it.
#[derive(Clone, Copy, Debug, PartialEq, Eq, Structural)]
pub struct KV6Color {
    pub b: u8,
    pub g: u8,
    pub r: u8,
    pub a: u8,
}

/// One solid cell of a column.
#[derive(Clone, Copy, Debug, PartialEq, Eq, Structural)]
pub struct KV6Voxel {
    pub color: KV6Color,
    /// Height within the column.
    pub z: u16,
    /// Which of the six faces are exposed; bits above the sixth mean nothing.
    pub visibility: u8,
    /// Index into the table of shading normals.
    pub normal_index: u8,
}

/// The extents of a model, in cells.
#[derive(Clone, Copy, Debug, PartialEq, Eq, Structural)]
pub struct KV6Size {
    pub x: u32,
    pub y: u32,
    pub z: u32,
}

/// The pivot of a model. Each coordinate is the bit pattern of an IEEE 754
/// single-precision number, exactly as the stream holds it.
#[derive(Clone, Copy, Debug, PartialEq, Eq, Structural)]
pub struct KV6Pivot {
    pub x: u32,
    pub y: u32,
    pub z: u32,
}

/// A decoded model.
#[derive(Clone, Debug, PartialEq, Eq)]
pub struct KV6Data {
    pub size: KV6Size,
    pub pivot: KV6Pivot,
    pub voxel_count: u32,
    /// The voxels column by column: x ascending, then y, then stream order.
    pub voxels: Vec<KV6Voxel>,
    /// One counter per x-slab.
    pub x_entries: Vec<u32>,
    /// The number of voxels of each column, at `x * size.y + y`.
    pub xy_entries: Vec<u16>,
}

/// The mathematical content of a [`KV6Data`].
pub struct KV6DataView {
    pub size: KV6Size,
    pub pivot: KV6Pivot,
    pub voxel_count: u32,
    pub voxels: Seq<KV6Voxel>,
    pub x_entries: Seq<u32>,
    pub xy_entries: Seq<u16>,
}

impl View for KV6Data {
    type V = KV6DataView;

    open spec fn view(&self) -> KV6DataView {
        KV6DataView {
            size: self.size,
            pivot: self.pivot,
            voxel_count: self.voxel_count,
            voxels: self.voxels@,
            x_entries: self.x_entries@,
            xy_entries: self.xy_entries@,
        }
    }
}

/// Where a stream ended too early.
#[derive(Clone, Copy, Debug, PartialEq, Eq, Structural)]
pub enum DecodeError {
    /// Inside the first 32 bytes.
    TruncatedHeader,
    /// Inside the voxel records.
    TruncatedVoxels,
    /// Inside the per-slab counters.
    TruncatedXEntries,
    /// Inside the per-column counters.
    TruncatedXyEntries,
}

/// The voxel record that starts at byte `at`.
pub open spec fn voxel_at(b: Seq<u8>, at: int) -> KV6Voxel {
    KV6Voxel {
        color: KV6Color { b: b[at], g: b[at + 1], r: b[at + 2], a: b[at + 3] },
        z: le_u16(b, at + 4),
        visibility: b[at + 6],
        normal_index: b[at + 7],
    }
}

/// The extents announced by the header.
pub open spec fn header_size(b: Seq<u8>) -> KV6Size {
    KV6Size { x: le_u32(b, 4), y: le_u32(b, 8), z: le_u32(b, 12) }
}

/// The pivot announced by the header.
pub open spec fn header_pivot(b: Seq<u8>) -> KV6Pivot {
    KV6Pivot { x: le_u32(b, 16), y: le_u32(b, 20), z: le_u32(b, 24) }
}

/// The number of voxel records announced by the header.
pub open spec fn header_voxel_count(b: Seq<u8>) -> u32 {
    le_u32(b, 28)
}

/// The number of columns announced by the header.
pub open spec fn header_columns(b: Seq<u8>) -> int {
    header_size(b).x * header_size(b).y
}

/// The offset just behind the voxel records.
pub open spec fn voxels_end(b: Seq<u8>) -> int {
    32 + 8 * header_voxel_count(b)
}

/// The offset just behind the per-slab counters.
pub open spec fn x_entries_end(b: Seq<u8>) -> int {
    voxels_end(b) + 4 * header_size(b).x
}

/// The offset just behind the per-column counters: the length the header asks for.
pub open spec fn xy_entries_end(b: Seq<u8>) -> int {
    x_entries_end(b) + 2 * header_columns(b)
}

/// What a byte stream decodes to. The tag is not looked at, and neither is
/// anything behind the last counter.
pub open spec fn decode(b: Seq<u8>) -> Result<KV6DataView, DecodeError> {
    if b.len() < 32 {
        Err(DecodeError::TruncatedHeader)
    } else if b.len() < voxels_end(b) {
        Err(DecodeError::TruncatedVoxels)
    } else if b.len() < x_entries_end(b) {
        Err(DecodeError::TruncatedXEntries)
    } else if b.len() < xy_entries_end(b) {
        Err(DecodeError::TruncatedXyEntries)
    } else {
        Ok(
            KV6DataView {
                size: header_size(b),
                pivot: header_pivot(b),
                voxel_count: header_voxel_count(b),
                voxels: Seq::new(header_voxel_count(b) as nat, |i: int| voxel_at(b, 32 + 8 * i)),
                x_entries: Seq::new(
                    header_size(b).x as nat,
                    |i: int| le_u32(b, voxels_end(b) + 4 * i),
                ),
                xy_entries: Seq::new(
                    header_columns(b) as nat,
                    |i: int| le_u16(b, x_entries_end(b) + 2 * i),
                ),
            },
        )
    }
}

/// The mathematical content of a decoder's answer.
pub open spec fn decoded(r: Result<KV6Data, DecodeError>) -> Result<KV6DataView, DecodeError> {
    match r {
        Ok(d) => Ok(d@),
        Err(e) => Err(e),
    }
}

/// Reads the voxel record that starts at byte `at`.
fn read_voxel_at(bytes: &[u8], at: usize) -> (v: KV6Voxel)
    requires
        at + 8 <= bytes@.len(),
    ensures
        v == voxel_at(bytes@, at as int),
{
    let len: usize = bytes.len();
    assert(at + 8 <= len);
    KV6Voxel {
        color: KV6Color { b: bytes[at], g: bytes[at + 1], r: bytes[at + 2], a: bytes[at + 3] },
        z: read_u16_at(bytes, at + 4),
        visibility: bytes[at + 6],
        normal_index: bytes[at + 7],
    }
}

/// Decodes a KV6 stream held in memory.
///
/// Fails exactly when the stream is shorter than its own header asks for, and
/// says in which part it ended.
pub fn load_kv6(bytes: &[u8]) -> (r: Result<KV6Data, DecodeError>)
    ensures
        decoded(r) == decode(bytes@),
{
    let len: usize = bytes.len();
    if len < HEADER_LEN {
        return Err(DecodeError::TruncatedHeader);
    }
    let size = KV6Size {
        x: read_u32_at(bytes, 4),
        y: read_u32_at(bytes, 8),
        z: read_u32_at(bytes, 12),
    };
    let pivot = KV6Pivot {
        x: read_u32_at(bytes, 16),
        y: read_u32_at(bytes, 20),
        z: read_u32_at(bytes, 24),
    };
    let voxel_count: u32 = read_u32_at(bytes, 28);

    let after_header: usize = len - HEADER_LEN;
    if (after_header as u64) / 8 < voxel_count as u64 {
        return Err(DecodeError::TruncatedVoxels);
    }
    let n_voxels: usize = voxel_count as usize;
    let voxels_end: usize = HEADER_LEN + VOXEL_LEN * n_voxels;

    let after_voxels: usize = len - voxels_end;
    if (after_voxels as u64) / 4 < size.x as u64 {
        return Err(DecodeError::TruncatedXEntries);
    }
    let n_slabs: usize = size.x as usize;
    let x_entries_end: usize = voxels_end + 4 * n_slabs;

    let after_x_entries: usize = len - x_entries_end;
    assert(size.x * size.y <= 0xffff_ffff * 0xffff_ffff) by (nonlinear_arith)
        requires
            size.x <= 0xffff_ffff,
            size.y <= 0xffff_ffff,
    ;
    let columns: u64 = size.x as u64 * size.y as u64;
    if (after_x_entries as u64) / 2 < columns {
        return Err(DecodeError::TruncatedXyEntries);
    }
    let n_columns: usize = columns as usize;

    let mut voxels: Vec<KV6Voxel> = Vec::new();
    let mut i: usize = 0;
    while i < n_voxels
        invariant
            i <= n_voxels,
            32 + 8 * n_voxels <= bytes@.len() == len,
            voxels@.len() == i,
            forall|k: int| 0 <= k < i ==> voxels@[k] == voxel_at(bytes@, 32 + 8 * k),
        decreases n_voxels - i,
    {
        let v = read_voxel_at(bytes, HEADER_LEN + VOXEL_LEN * i);
        voxels.push(v);
        i += 1;
    }

    let mut x_entries: Vec<u32> = Vec::new();
    let mut i: usize = 0;
    while i < n_slabs
        invariant
            i <= n_slabs,
            voxels_end + 4 * n_slabs <= bytes@.len() == len,
            x_entries@.len() == i,
            forall|k: int| 0 <= k < i ==> x_entries@[k] == le_u32(bytes@, voxels_end + 4 * k),
        decreases n_slabs - i,
    {
        let n: u32 = read_u32_at(bytes, voxels_end + 4 * i);
        x_entries.push(n);
        i += 1;
    }

    let mut xy_entries: Vec<u16> = Vec::new();
    let mut i: usize = 0;
    while i < n_columns
        invariant
            i <= n_columns,
            x_entries_end + 2 * n_columns <= bytes@.len() == len,
            xy_entries@.len() == i,
            forall|k: int| 0 <= k < i ==> xy_entries@[k] == le_u16(bytes@, x_entries_end + 2 * k),
        decreases n_columns - i,
    {
        let n: u16 = read_u16_at(bytes, x_entries_end + 2 * i);
        xy_entries.push(n);
        i += 1;
    }

    let data = KV6Data { size, pivot, voxel_count, voxels, x_entries, xy_entries };
    proof {
        let m = decode(bytes@)->Ok_0;
        assert(data@.voxels =~= m.voxels);
        assert(data@.x_entries =~= m.x_entries);
        assert(data@.xy_entries =~= m.xy_entries);
    }
    Ok(data)
}

/// The number of voxels that the first `c` columns hold.
pub open spec fn column_start(xy: Seq<u16>, c: int) -> int
    decreases c,
{
    if c <= 0 {
        0
    } else {
        column_start(xy, c - 1) + xy[c - 1]
    }
}

/// Columns only ever add voxels.
pub proof fn lemma_column_start_monotonic(xy: Seq<u16>, c: int, d: int)
    requires
        c <= d,
    ensures
        0 <= column_start(xy, c) <= column_start(xy, d),
    decreases d,
{
    if d > 0 && c < d {
        lemma_column_start_monotonic(xy, c, d - 1);
    } else if c > 0 {
        lemma_column_start_monotonic(xy, c - 1, c - 1);
    }
}

impl KV6DataView {
    /// The number of (x, y) columns.
    pub open spec fn columns(self) -> int {
        self.size.x * self.size.y
    }

    /// The number of voxels that the columns account for.
    pub open spec fn column_total(self) -> int {
        column_start(self.xy_entries, self.columns())
    }

    /// The three sequences have the lengths that the header fields announce.
    pub open spec fn framed(self) -> bool {
        &&& self.voxels.len() == self.voxel_count
        &&& self.x_entries.len() == self.size.x
        &&& self.xy_entries.len() == self.columns()
    }

    /// The invariant of a sound model: no extent is zero, the lengths agree
    /// with the header fields, and the columns account for every voxel.
    pub open spec fn well_formed(self) -> bool {
        &&& self.size.x > 0
        &&& self.size.y > 0
        &&& self.size.z > 0
        &&& self.framed()
        &&& self.column_total() == self.voxel_count
    }

    /// A walk over the columns stays inside `xy_entries` and `voxels`.
    pub open spec fn meshable(self) -> bool {
        &&& self.columns() <= self.xy_entries.len()
        &&& self.column_total() <= self.voxels.len()
    }
}

/// A sound model can be walked column by column.
pub proof fn lemma_well_formed_is_meshable(m: KV6DataView)
    requires
        m.well_formed(),
    ensures
        m.meshable(),
{
}

/// Whatever the decoder accepts has the lengths that its header announces.
pub proof fn lemma_decode_framed(b: Seq<u8>)
    ensures
        decode(b) matches Ok(m) ==> m.framed(),
{
}

/// Adds up the first `columns` counters, giving up as soon as the sum passes `limit`.
fn sum_columns(xy: &Vec<u16>, columns: usize, limit: u64) -> (r: Option<u64>)
    requires
        columns <= xy@.len(),
    ensures
        match r {
            Some(total) => total == column_start(xy@, columns as int) && total <= limit,
            None => column_start(xy@, columns as int) > limit,
        },
{
    let mut total: u64 = 0;
    let mut c: usize = 0;
    while c < columns
        invariant
            c <= columns <= xy@.len(),
            total == column_start(xy@, c as int),
            total <= limit,
        decreases columns - c,
    {
        let n: u64 = xy[c] as u64;
        if n > limit - total {
            proof {
                lemma_column_start_monotonic(xy@, c + 1, columns as int);
            }
            return None;
        }
        total += n;
        c += 1;
    }
    Some(total)
}

impl KV6Data {
    /// Whether a walk over the columns stays inside `xy_entries` and `voxels`.
    pub fn is_meshable(&self) -> (ok: bool)
        ensures
            ok == self@.meshable(),
    {
        assert(self.size.x * self.size.y <= 0xffff_ffff * 0xffff_ffff) by (nonlinear_arith)
            requires
                self.size.x <= 0xffff_ffff,
                self.size.y <= 0xffff_ffff,
        ;
        let columns: u64 = self.size.x as u64 * self.size.y as u64;
        if columns > self.xy_entries.len() as u64 {
            return false;
        }
        sum_columns(&self.xy_entries, columns as usize, self.voxels.len() as u64).is_some()
    }

    /// Whether this is a sound model: no extent is zero, the lengths agree
    /// with the header fields, and the columns account for every voxel.
    pub fn is_well_formed(&self) -> (ok: bool)
        ensures
            ok == self@.well_formed(),
    {
        assert(self.size.x * self.size.y <= 0xffff_ffff * 0xffff_ffff) by (nonlinear_arith)
            requires
                self.size.x <= 0xffff_ffff,
                self.size.y <= 0xffff_ffff,
        ;
        let columns: u64 = self.size.x as u64 * self.size.y as u64;
        if self.size.x == 0 || self.size.y == 0 || self.size.z == 0 {
            return false;
        }
        if self.voxels.len() as u64 != self.voxel_count as u64
            || self.x_entries.len() as u64 != self.size.x as u64
            || self.xy_entries.len() as u64 != columns {
            return false;
        }
        match sum_columns(&self.xy_entries, columns as usize, self.voxel_count as u64) {
            Some(total) => total == self.voxel_count as u64,
            None => false,
        }
    }
}

} // verus!
