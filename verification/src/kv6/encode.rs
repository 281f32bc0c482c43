//! Writing a model as a KV6 stream, and what reading it back gives.

use crate::kv6::endian::{
    lemma_le_u16_of_bytes, lemma_le_u32_of_bytes, push_u16, push_u32, u16_le_bytes, u32_le_bytes,
};
use crate::kv6::kv6data::{
    decode, header_pivot, header_size, header_voxel_count, voxel_at, voxels_end, x_entries_end,
    xy_entries_end, DecodeError, KV6Data, KV6DataView, KV6Voxel,
};
use vstd::prelude::*;

verus! {

/// The eight bytes of a voxel record.
pub open spec fn voxel_bytes(v: KV6Voxel) -> Seq<u8> {
    seq![v.color.b, v.color.g, v.color.r, v.color.a] + u16_le_bytes(v.z) + seq![
        v.visibility,
        v.normal_index,
    ]
}

/// The voxel records one after the other.
pub open spec fn voxels_bytes(vs: Seq<KV6Voxel>) -> Seq<u8>
    decreases vs.len(),
{
    if vs.len() == 0 {
        Seq::empty()
    } else {
        voxels_bytes(vs.drop_last()) + voxel_bytes(vs.last())
    }
}

/// The 32-bit counters one after the other.
pub open spec fn u32s_bytes(ns: Seq<u32>) -> Seq<u8>
    decreases ns.len(),
{
    if ns.len() == 0 {
        Seq::empty()
    } else {
        u32s_bytes(ns.drop_last()) + u32_le_bytes(ns.last())
    }
}

/// The 16-bit counters one after the other.
pub open spec fn u16s_bytes(ns: Seq<u16>) -> Seq<u8>
    decreases ns.len(),
{
    if ns.len() == 0 {
        Seq::empty()
    } else {
        u16s_bytes(ns.drop_last()) + u16_le_bytes(ns.last())
    }
}

/// The 32 bytes in front of the voxel records; the tag spells `Kvxl`.
pub open spec fn header_bytes(m: KV6DataView) -> Seq<u8> {
    seq![0x4bu8, 0x76u8, 0x78u8, 0x6cu8] + u32_le_bytes(m.size.x) + u32_le_bytes(m.size.y)
        + u32_le_bytes(m.size.z) + u32_le_bytes(m.pivot.x) + u32_le_bytes(m.pivot.y)
        + u32_le_bytes(m.pivot.z) + u32_le_bytes(m.voxel_count)
}

/// The stream that holds `m` and nothing else.
pub open spec fn model_bytes(m: KV6DataView) -> Seq<u8> {
    header_bytes(m) + voxels_bytes(m.voxels) + u32s_bytes(m.x_entries) + u16s_bytes(m.xy_entries)
}

/// What a model encodes to: only a sound model has a stream.
pub open spec fn encode(m: KV6DataView) -> Option<Seq<u8>> {
    if m.well_formed() {
        Some(model_bytes(m))
    } else {
        None
    }
}

/// Record `k` of the concatenation lies at byte `8 * k`.
pub proof fn lemma_voxels_bytes(vs: Seq<KV6Voxel>)
    ensures
        voxels_bytes(vs).len() == 8 * vs.len(),
        forall|k: int|
            0 <= k < vs.len() ==> voxels_bytes(vs).subrange(8 * k, 8 * k + 8) == voxel_bytes(
                #[trigger] vs[k],
            ),
    decreases vs.len(),
{
    if vs.len() > 0 {
        let front = vs.drop_last();
        let all = voxels_bytes(vs);
        lemma_voxels_bytes(front);
        assert forall|k: int| 0 <= k < vs.len() implies all.subrange(8 * k, 8 * k + 8)
            == voxel_bytes(#[trigger] vs[k]) by {
            if k < front.len() {
                assert(front[k] == vs[k]);
                assert(all.subrange(8 * k, 8 * k + 8) =~= voxels_bytes(front).subrange(
                    8 * k,
                    8 * k + 8,
                ));
            } else {
                assert(all.subrange(8 * k, 8 * k + 8) =~= voxel_bytes(vs.last()));
            }
        }
    }
}

/// Counter `k` of the concatenation lies at byte `4 * k`.
pub proof fn lemma_u32s_bytes(ns: Seq<u32>)
    ensures
        u32s_bytes(ns).len() == 4 * ns.len(),
        forall|k: int|
            0 <= k < ns.len() ==> u32s_bytes(ns).subrange(4 * k, 4 * k + 4) == u32_le_bytes(
                #[trigger] ns[k],
            ),
    decreases ns.len(),
{
    if ns.len() > 0 {
        let front = ns.drop_last();
        let all = u32s_bytes(ns);
        lemma_u32s_bytes(front);
        assert forall|k: int| 0 <= k < ns.len() implies all.subrange(4 * k, 4 * k + 4)
            == u32_le_bytes(#[trigger] ns[k]) by {
            if k < front.len() {
                assert(front[k] == ns[k]);
                assert(all.subrange(4 * k, 4 * k + 4) =~= u32s_bytes(front).subrange(
                    4 * k,
                    4 * k + 4,
                ));
            } else {
                assert(all.subrange(4 * k, 4 * k + 4) =~= u32_le_bytes(ns.last()));
            }
        }
    }
}

/// Counter `k` of the concatenation lies at byte `2 * k`.
pub proof fn lemma_u16s_bytes(ns: Seq<u16>)
    ensures
        u16s_bytes(ns).len() == 2 * ns.len(),
        forall|k: int|
            0 <= k < ns.len() ==> u16s_bytes(ns).subrange(2 * k, 2 * k + 2) == u16_le_bytes(
                #[trigger] ns[k],
            ),
    decreases ns.len(),
{
    if ns.len() > 0 {
        let front = ns.drop_last();
        let all = u16s_bytes(ns);
        lemma_u16s_bytes(front);
        assert forall|k: int| 0 <= k < ns.len() implies all.subrange(2 * k, 2 * k + 2)
            == u16_le_bytes(#[trigger] ns[k]) by {
            if k < front.len() {
                assert(front[k] == ns[k]);
                assert(all.subrange(2 * k, 2 * k + 2) =~= u16s_bytes(front).subrange(
                    2 * k,
                    2 * k + 2,
                ));
            } else {
                assert(all.subrange(2 * k, 2 * k + 2) =~= u16_le_bytes(ns.last()));
            }
        }
    }
}

/// The four parts of a stream lie one behind the other.
pub proof fn lemma_model_bytes_parts(m: KV6DataView)
    ensures
        ({
            let b = model_bytes(m);
            let v: int = 32 + 8 * (m.voxels.len() as int);
            let x: int = v + 4 * (m.x_entries.len() as int);
            let y: int = x + 2 * (m.xy_entries.len() as int);
            &&& b.len() == y
            &&& b.subrange(0, 32) == header_bytes(m)
            &&& b.subrange(32, v) == voxels_bytes(m.voxels)
            &&& b.subrange(v, x) == u32s_bytes(m.x_entries)
            &&& b.subrange(x, y) == u16s_bytes(m.xy_entries)
        }),
{
    let b = model_bytes(m);
    let v: int = 32 + 8 * (m.voxels.len() as int);
    let x: int = v + 4 * (m.x_entries.len() as int);
    let y: int = x + 2 * (m.xy_entries.len() as int);
    lemma_voxels_bytes(m.voxels);
    lemma_u32s_bytes(m.x_entries);
    lemma_u16s_bytes(m.xy_entries);
    assert(header_bytes(m).len() == 32);
    assert(b.subrange(0, 32) =~= header_bytes(m));
    assert(b.subrange(32, v) =~= voxels_bytes(m.voxels));
    assert(b.subrange(v, x) =~= u32s_bytes(m.x_entries));
    assert(b.subrange(x, y) =~= u16s_bytes(m.xy_entries));
}

/// A stream that starts with the header of `m` announces the fields of `m`.
pub proof fn lemma_header_fields(b: Seq<u8>, m: KV6DataView)
    requires
        b.len() >= 32,
        b.subrange(0, 32) == header_bytes(m),
    ensures
        header_size(b) == m.size,
        header_pivot(b) == m.pivot,
        header_voxel_count(b) == m.voxel_count,
{
    let h = header_bytes(m);
    assert forall|i: int| 0 <= i < 32 implies b[i] == h[i] by {
        assert(b.subrange(0, 32)[i] == b[i]);
    }
    assert(b.subrange(4, 8) =~= u32_le_bytes(m.size.x));
    assert(b.subrange(8, 12) =~= u32_le_bytes(m.size.y));
    assert(b.subrange(12, 16) =~= u32_le_bytes(m.size.z));
    assert(b.subrange(16, 20) =~= u32_le_bytes(m.pivot.x));
    assert(b.subrange(20, 24) =~= u32_le_bytes(m.pivot.y));
    assert(b.subrange(24, 28) =~= u32_le_bytes(m.pivot.z));
    assert(b.subrange(28, 32) =~= u32_le_bytes(m.voxel_count));
    lemma_le_u32_of_bytes(b, 4, m.size.x);
    lemma_le_u32_of_bytes(b, 8, m.size.y);
    lemma_le_u32_of_bytes(b, 12, m.size.z);
    lemma_le_u32_of_bytes(b, 16, m.pivot.x);
    lemma_le_u32_of_bytes(b, 20, m.pivot.y);
    lemma_le_u32_of_bytes(b, 24, m.pivot.z);
    lemma_le_u32_of_bytes(b, 28, m.voxel_count);
}

/// Reading back the record written for `v` gives `v`, wherever it lies in a stream.
pub proof fn lemma_voxel_at_of_bytes(b: Seq<u8>, at: int, v: KV6Voxel)
    requires
        0 <= at,
        at + 8 <= b.len(),
        b.subrange(at, at + 8) == voxel_bytes(v),
    ensures
        voxel_at(b, at) == v,
{
    let w = b.subrange(at, at + 8);
    assert(b[at] == w[0]);
    assert(b[at + 1] == w[1]);
    assert(b[at + 2] == w[2]);
    assert(b[at + 3] == w[3]);
    assert(b[at + 4] == w[4]);
    assert(b[at + 5] == w[5]);
    assert(b[at + 6] == w[6]);
    assert(b[at + 7] == w[7]);
    assert(b.subrange(at + 4, at + 6) =~= u16_le_bytes(v.z));
    lemma_le_u16_of_bytes(b, at + 4, v.z);
}

/// Decoding the stream of a model gives the model back, field for field,
/// as soon as its lengths agree with its header fields.
pub proof fn lemma_decode_model_bytes(m: KV6DataView)
    requires
        m.framed(),
    ensures
        decode(model_bytes(m)) == Ok::<KV6DataView, DecodeError>(m),
{
    let b = model_bytes(m);
    let v: int = 32 + 8 * (m.voxels.len() as int);
    let x: int = v + 4 * (m.x_entries.len() as int);
    let y: int = x + 2 * (m.xy_entries.len() as int);
    lemma_model_bytes_parts(m);
    lemma_header_fields(b, m);
    lemma_voxels_bytes(m.voxels);
    lemma_u32s_bytes(m.x_entries);
    lemma_u16s_bytes(m.xy_entries);
    assert(voxels_end(b) == v);
    assert(x_entries_end(b) == x);
    assert(xy_entries_end(b) == y);
    let d = decode(b)->Ok_0;
    assert forall|i: int| 0 <= i < m.voxels.len() implies d.voxels[i] == m.voxels[i] by {
        let part = b.subrange(32, v);
        assert(part.subrange(8 * i, 8 * i + 8) == voxel_bytes(m.voxels[i]));
        assert(b.subrange(32 + 8 * i, 32 + 8 * i + 8) =~= part.subrange(8 * i, 8 * i + 8));
        lemma_voxel_at_of_bytes(b, 32 + 8 * i, m.voxels[i]);
    }
    assert(d.voxels =~= m.voxels);
    assert forall|i: int| 0 <= i < m.x_entries.len() implies d.x_entries[i] == m.x_entries[i] by {
        let part = b.subrange(v, x);
        assert(part.subrange(4 * i, 4 * i + 4) == u32_le_bytes(m.x_entries[i]));
        assert(b.subrange(v + 4 * i, v + 4 * i + 4) =~= part.subrange(4 * i, 4 * i + 4));
        lemma_le_u32_of_bytes(b, v + 4 * i, m.x_entries[i]);
    }
    assert(d.x_entries =~= m.x_entries);
    assert forall|i: int| 0 <= i < m.xy_entries.len() implies d.xy_entries[i]
        == m.xy_entries[i] by {
        let part = b.subrange(x, y);
        assert(part.subrange(2 * i, 2 * i + 2) == u16_le_bytes(m.xy_entries[i]));
        assert(b.subrange(x + 2 * i, x + 2 * i + 2) =~= part.subrange(2 * i, 2 * i + 2));
        lemma_le_u16_of_bytes(b, x + 2 * i, m.xy_entries[i]);
    }
    assert(d.xy_entries =~= m.xy_entries);
}

/// Encoding a model and decoding the stream gives the model back, field for field.
pub proof fn lemma_encode_then_decode(m: KV6DataView)
    ensures
        encode(m) matches Some(b) ==> decode(b) == Ok::<KV6DataView, DecodeError>(m),
{
    if m.well_formed() {
        lemma_decode_model_bytes(m);
    }
}

/// In whatever decodes from an encoded model, the columns account for every
/// voxel: the counters add up to the voxel count, which is the number of records.
pub proof fn lemma_encoded_columns_account_for_voxels(m: KV6DataView)
    ensures
        encode(m) matches Some(b) ==> (decode(b) matches Ok(d) && d.column_total() == d.voxel_count
            == d.voxels.len()),
{
    lemma_encode_then_decode(m);
}

/// Appends the eight bytes of a voxel record to `out`.
fn push_voxel(out: &mut Vec<u8>, v: &KV6Voxel)
    ensures
        final(out)@ == old(out)@ + voxel_bytes(*v),
{
    out.push(v.color.b);
    out.push(v.color.g);
    out.push(v.color.r);
    out.push(v.color.a);
    push_u16(out, v.z);
    out.push(v.visibility);
    out.push(v.normal_index);
    assert(out@ =~= old(out)@ + voxel_bytes(*v));
}

/// Encodes a model as a KV6 stream.
///
/// Only a sound model is encoded; for any other the answer is `None`.
pub fn encode_kv6(data: &KV6Data) -> (r: Option<Vec<u8>>)
    ensures
        match r {
            Some(bytes) => encode(data@) == Some(bytes@),
            None => encode(data@).is_none(),
        },
{
    if !data.is_well_formed() {
        return None;
    }
    let ghost m = data@;
    let mut out: Vec<u8> = Vec::new();
    out.push(0x4b);
    out.push(0x76);
    out.push(0x78);
    out.push(0x6c);
    push_u32(&mut out, data.size.x);
    push_u32(&mut out, data.size.y);
    push_u32(&mut out, data.size.z);
    push_u32(&mut out, data.pivot.x);
    push_u32(&mut out, data.pivot.y);
    push_u32(&mut out, data.pivot.z);
    push_u32(&mut out, data.voxel_count);
    assert(out@ =~= header_bytes(m));

    let mut i: usize = 0;
    while i < data.voxels.len()
        invariant
            i <= data.voxels@.len(),
            m == data@,
            out@ == header_bytes(m) + voxels_bytes(m.voxels.take(i as int)),
        decreases data.voxels@.len() - i,
    {
        assert(m.voxels.take(i + 1).drop_last() =~= m.voxels.take(i as int));
        push_voxel(&mut out, &data.voxels[i]);
        i += 1;
    }
    assert(m.voxels.take(i as int) =~= m.voxels);

    let mut i: usize = 0;
    while i < data.x_entries.len()
        invariant
            i <= data.x_entries@.len(),
            m == data@,
            out@ == header_bytes(m) + voxels_bytes(m.voxels) + u32s_bytes(
                m.x_entries.take(i as int),
            ),
        decreases data.x_entries@.len() - i,
    {
        assert(m.x_entries.take(i + 1).drop_last() =~= m.x_entries.take(i as int));
        push_u32(&mut out, data.x_entries[i]);
        i += 1;
    }
    assert(m.x_entries.take(i as int) =~= m.x_entries);

    let mut i: usize = 0;
    while i < data.xy_entries.len()
        invariant
            i <= data.xy_entries@.len(),
            m == data@,
            out@ == header_bytes(m) + voxels_bytes(m.voxels) + u32s_bytes(m.x_entries)
                + u16s_bytes(m.xy_entries.take(i as int)),
        decreases data.xy_entries@.len() - i,
    {
        assert(m.xy_entries.take(i + 1).drop_last() =~= m.xy_entries.take(i as int));
        push_u16(&mut out, data.xy_entries[i]);
        i += 1;
    }
    assert(m.xy_entries.take(i as int) =~= m.xy_entries);
    Some(out)
}

} // verus!
