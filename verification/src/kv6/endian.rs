//! Little-endian integers as they lie in a KV6 byte stream.

use byteorder::{ByteOrder, LittleEndian};
use vstd::prelude::*;
use vstd::slice::slice_subrange;

verus! {

/// The unsigned 16-bit integer whose two bytes start at `at`, least significant first.
pub open spec fn le_u16(b: Seq<u8>, at: int) -> u16 {
    (b[at] as int + 256 * (b[at + 1] as int)) as u16
}

/// The unsigned 32-bit integer whose four bytes start at `at`, least significant first.
pub open spec fn le_u32(b: Seq<u8>, at: int) -> u32 {
    (b[at] as int + 256 * (b[at + 1] as int) + 65536 * (b[at + 2] as int) + 16777216 * (b[at + 3] as int)) as u32
}

/// The two bytes of `n`, least significant first.
pub open spec fn u16_le_bytes(n: u16) -> Seq<u8> {
    seq![(n % 256) as u8, (n / 256) as u8]
}

/// The four bytes of `n`, least significant first.
pub open spec fn u32_le_bytes(n: u32) -> Seq<u8> {
    seq![(n % 256) as u8, (n / 256 % 256) as u8, (n / 65536 % 256) as u8, (n / 16777216) as u8]
}

/// Reading back the bytes written for `n` gives `n`, wherever they lie in a stream.
pub proof fn lemma_le_u16_of_bytes(b: Seq<u8>, at: int, n: u16)
    requires
        0 <= at,
        at + 2 <= b.len(),
        b.subrange(at, at + 2) == u16_le_bytes(n),
    ensures
        le_u16(b, at) == n,
{
    let w = b.subrange(at, at + 2);
    assert(b[at] == w[0]);
    assert(b[at + 1] == w[1]);
}

/// Reading back the bytes written for `n` gives `n`, wherever they lie in a stream.
pub proof fn lemma_le_u32_of_bytes(b: Seq<u8>, at: int, n: u32)
    requires
        0 <= at,
        at + 4 <= b.len(),
        b.subrange(at, at + 4) == u32_le_bytes(n),
    ensures
        le_u32(b, at) == n,
{
    let w = b.subrange(at, at + 4);
    assert(b[at] == w[0]);
    assert(b[at + 1] == w[1]);
    assert(b[at + 2] == w[2]);
    assert(b[at + 3] == w[3]);
}

/// `byteorder::LittleEndian::read_u16`. It panics on fewer than two bytes and
/// otherwise returns `u16::from_le_bytes` of the first two: the first byte
/// plus 256 times the second.
#[verifier::external_body]
fn le_read_u16(buf: &[u8]) -> (n: u16)
    requires
        buf@.len() >= 2,
    ensures
        n == le_u16(buf@, 0),
{
    LittleEndian::read_u16(buf)
}

/// `byteorder::LittleEndian::read_u32`. It panics on fewer than four bytes and
/// otherwise returns `u32::from_le_bytes` of the first four: byte `k` weighs
/// 256 to the power `k`.
#[verifier::external_body]
fn le_read_u32(buf: &[u8]) -> (n: u32)
    requires
        buf@.len() >= 4,
    ensures
        n == le_u32(buf@, 0),
{
    LittleEndian::read_u32(buf)
}

/// `byteorder::LittleEndian::write_u16` into a buffer of exactly two bytes,
/// which it fills with `n.to_le_bytes()`: the low byte, then the high byte.
#[verifier::external_body]
fn le_write_u16(n: u16) -> (b: [u8; 2])
    ensures
        b@ == u16_le_bytes(n),
{
    let mut b = [0u8; 2];
    LittleEndian::write_u16(&mut b, n);
    b
}

/// `byteorder::LittleEndian::write_u32` into a buffer of exactly four bytes,
/// which it fills with `n.to_le_bytes()`: the lowest byte first.
#[verifier::external_body]
fn le_write_u32(n: u32) -> (b: [u8; 4])
    ensures
        b@ == u32_le_bytes(n),
{
    let mut b = [0u8; 4];
    LittleEndian::write_u32(&mut b, n);
    b
}

/// Reads the 16-bit field that starts at byte `at`.
pub(crate) fn read_u16_at(bytes: &[u8], at: usize) -> (n: u16)
    requires
        at + 2 <= bytes@.len(),
    ensures
        n == le_u16(bytes@, at as int),
{
    let len = bytes.len();
    assert(at + 2 <= len);
    let field = slice_subrange(bytes, at, at + 2);
    assert(field@[0] == bytes@[at as int]);
    assert(field@[1] == bytes@[at + 1]);
    le_read_u16(field)
}

/// Reads the 32-bit field that starts at byte `at`.
pub(crate) fn read_u32_at(bytes: &[u8], at: usize) -> (n: u32)
    requires
        at + 4 <= bytes@.len(),
    ensures
        n == le_u32(bytes@, at as int),
{
    let len = bytes.len();
    assert(at + 4 <= len);
    let field = slice_subrange(bytes, at, at + 4);
    assert(field@[0] == bytes@[at as int]);
    assert(field@[1] == bytes@[at + 1]);
    assert(field@[2] == bytes@[at + 2]);
    assert(field@[3] == bytes@[at + 3]);
    le_read_u32(field)
}

/// Appends the two bytes of `n` to `out`.
pub(crate) fn push_u16(out: &mut Vec<u8>, n: u16)
    ensures
        final(out)@ == old(out)@ + u16_le_bytes(n),
{
    let b = le_write_u16(n);
    out.push(b[0]);
    out.push(b[1]);
    assert(out@ =~= old(out)@ + u16_le_bytes(n));
}

/// Appends the four bytes of `n` to `out`.
pub(crate) fn push_u32(out: &mut Vec<u8>, n: u32)
    ensures
        final(out)@ == old(out)@ + u32_le_bytes(n),
{
    let b = le_write_u32(n);
    out.push(b[0]);
    out.push(b[1]);
    out.push(b[2]);
    out.push(b[3]);
    assert(out@ =~= old(out)@ + u32_le_bytes(n));
}

} // verus!
