//! Fixed-width integers read from byte buffers, in both byte orders.
use byteorder::{BigEndian, ByteOrder, LittleEndian};
use vstd::prelude::*;

use crate::error::DecodeError;

verus! {

/// Whether `b` holds `n` bytes starting at `p`.
pub open spec fn has_bytes(b: Seq<u8>, p: int, n: int) -> bool {
    0 <= p && 0 <= n && p + n <= b.len()
}

/// The unsigned 32-bit integer stored little-endian at `b[i..i + 4]`.
pub open spec fn le_u32_at(b: Seq<u8>, i: int) -> u32 {
    (b[i] as int + b[i + 1] as int * 0x100 + b[i + 2] as int * 0x1_0000 + b[i + 3] as int
        * 0x100_0000) as u32
}

/// The unsigned 32-bit integer stored big-endian at `b[i..i + 4]`.
pub open spec fn be_u32_at(b: Seq<u8>, i: int) -> u32 {
    (b[i + 3] as int + b[i + 2] as int * 0x100 + b[i + 1] as int * 0x1_0000 + b[i] as int
        * 0x100_0000) as u32
}

/// The two's-complement 32-bit integer stored little-endian at `b[i..i + 4]`.
pub open spec fn le_i32_at(b: Seq<u8>, i: int) -> i32 {
    le_u32_at(b, i) as i32
}

/// The two's-complement 32-bit integer stored big-endian at `b[i..i + 4]`.
pub open spec fn be_i32_at(b: Seq<u8>, i: int) -> i32 {
    be_u32_at(b, i) as i32
}

/// The unsigned 64-bit integer stored little-endian at `b[i..i + 8]`; for a double, its bit
/// pattern.
pub open spec fn le_u64_at(b: Seq<u8>, i: int) -> u64 {
    (le_u32_at(b, i) as int + le_u32_at(b, i + 4) as int * 0x1_0000_0000) as u64
}

/// The length of a slice fits in `usize`.
pub proof fn lemma_slice_len_fits(data: &[u8])
    ensures
        data@.len() <= usize::MAX,
{
    broadcast use vstd::slice::axiom_spec_len;

    assert(data@.len() == data.len());
}

/// Relies on byteorder's `LittleEndian::read_i32`: the first four bytes of the slice,
/// least significant first, as a two's-complement integer.
#[verifier::external_body]
pub(crate) fn le_i32(buf: &[u8], pos: usize) -> (r: i32)
    requires
        has_bytes(buf@, pos as int, 4),
    ensures
        r == le_i32_at(buf@, pos as int),
{
    LittleEndian::read_i32(&buf[pos..])
}

/// Relies on byteorder's `BigEndian::read_i32`: the first four bytes of the slice,
/// most significant first, as a two's-complement integer.
#[verifier::external_body]
pub(crate) fn be_i32(buf: &[u8], pos: usize) -> (r: i32)
    requires
        has_bytes(buf@, pos as int, 4),
    ensures
        r == be_i32_at(buf@, pos as int),
{
    BigEndian::read_i32(&buf[pos..])
}

/// Relies on byteorder's `LittleEndian::read_u64`: the first eight bytes of the slice,
/// least significant first.
#[verifier::external_body]
pub(crate) fn le_u64(buf: &[u8], pos: usize) -> (r: u64)
    requires
        has_bytes(buf@, pos as int, 8),
    ensures
        r == le_u64_at(buf@, pos as int),
{
    LittleEndian::read_u64(&buf[pos..])
}

/// Reads the little-endian `i32` at `pos`, or reports that the buffer ends first.
pub fn read_i32_le(data: &[u8], pos: usize) -> (r: Result<i32, DecodeError>)
    ensures
        r == (if has_bytes(data@, pos as int, 4) {
            Ok(le_i32_at(data@, pos as int))
        } else {
            Err(DecodeError::Truncated)
        }),
{
    if pos <= data.len() && data.len() - pos >= 4 {
        Ok(le_i32(data, pos))
    } else {
        Err(DecodeError::Truncated)
    }
}

/// Reads the big-endian `i32` at `pos`, or reports that the buffer ends first.
pub fn read_i32_be(data: &[u8], pos: usize) -> (r: Result<i32, DecodeError>)
    ensures
        r == (if has_bytes(data@, pos as int, 4) {
            Ok(be_i32_at(data@, pos as int))
        } else {
            Err(DecodeError::Truncated)
        }),
{
    if pos <= data.len() && data.len() - pos >= 4 {
        Ok(be_i32(data, pos))
    } else {
        Err(DecodeError::Truncated)
    }
}

} // verus!
