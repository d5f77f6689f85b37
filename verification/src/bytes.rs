//! Little-endian integers at an offset of a byte buffer.
use byteorder::{ByteOrder, LittleEndian};
use vstd::prelude::*;

verus! {

/// The 16-bit value whose little-endian encoding is `s[at]`, `s[at + 1]`.
pub open spec fn le16(s: Seq<u8>, at: int) -> u16 {
    (s[at] as int + 0x100 * (s[at + 1] as int)) as u16
}

/// The 32-bit value whose little-endian encoding starts at `s[at]`.
pub open spec fn le32(s: Seq<u8>, at: int) -> u32 {
    (le16(s, at) as int + 0x1_0000 * (le16(s, at + 2) as int)) as u32
}

/// The 64-bit value whose little-endian encoding starts at `s[at]`.
pub open spec fn le64(s: Seq<u8>, at: int) -> u64 {
    (le32(s, at) as int + 0x1_0000_0000 * (le32(s, at + 4) as int)) as u64
}

/// Whether `n` bytes starting at `at` lie inside a buffer of `len` bytes.
pub open spec fn in_bounds(len: nat, at: int, n: int) -> bool {
    0 <= at && 0 <= n && at + n <= len
}

/// Calls `byteorder::LittleEndian::read_u16` on the buffer from `at` on.
/// Trusted: the result is the little-endian value of the two bytes at `at`.
/// The outside function panics on fewer than two bytes, which `requires`
/// rules out.
#[verifier::external_body]
pub(crate) fn read_u16_le(buf: &[u8], at: usize) -> (v: u16)
    requires
        at + 2 <= buf@.len(),
    ensures
        v == le16(buf@, at as int),
{
    LittleEndian::read_u16(&buf[at..])
}

/// Calls `byteorder::LittleEndian::read_u32` on the buffer from `at` on.
/// Trusted: the result is the little-endian value of the four bytes at `at`.
/// The outside function panics on fewer than four bytes, which `requires`
/// rules out.
#[verifier::external_body]
pub(crate) fn read_u32_le(buf: &[u8], at: usize) -> (v: u32)
    requires
        at + 4 <= buf@.len(),
    ensures
        v == le32(buf@, at as int),
{
    LittleEndian::read_u32(&buf[at..])
}

/// Calls `byteorder::LittleEndian::read_u64` on the buffer from `at` on.
/// Trusted: the result is the little-endian value of the eight bytes at `at`.
/// The outside function panics on fewer than eight bytes, which `requires`
/// rules out.
#[verifier::external_body]
pub(crate) fn read_u64_le(buf: &[u8], at: usize) -> (v: u64)
    requires
        at + 8 <= buf@.len(),
    ensures
        v == le64(buf@, at as int),
{
    LittleEndian::read_u64(&buf[at..])
}

/// The 16-bit little-endian value at `at`, or `None` where the buffer ends
/// before its second byte.
pub fn get_u16(buf: &[u8], at: usize) -> (r: Option<u16>)
    ensures
        r == (if in_bounds(buf@.len(), at as int, 2) {
            Some(le16(buf@, at as int))
        } else {
            None
        }),
{
    if buf.len() >= 2 && at <= buf.len() - 2 {
        Some(read_u16_le(buf, at))
    } else {
        None
    }
}

/// The 32-bit little-endian value at `at`, or `None` where the buffer ends
/// before its fourth byte.
pub fn get_u32(buf: &[u8], at: usize) -> (r: Option<u32>)
    ensures
        r == (if in_bounds(buf@.len(), at as int, 4) {
            Some(le32(buf@, at as int))
        } else {
            None
        }),
{
    if buf.len() >= 4 && at <= buf.len() - 4 {
        Some(read_u32_le(buf, at))
    } else {
        None
    }
}

/// A copy of the `n` bytes that start at `at`, or `None` where the buffer
/// does not hold that many.
pub fn get_bytes(buf: &[u8], at: usize, n: usize) -> (r: Option<Vec<u8>>)
    ensures
        in_bounds(buf@.len(), at as int, n as int) <==> r.is_some(),
        r.is_some() ==> r.unwrap()@ == buf@.subrange(at as int, at + n),
{
    if at > buf.len() || n > buf.len() - at {
        return None;
    }
    let mut out: Vec<u8> = Vec::new();
    let mut i: usize = 0;
    while i < n
        invariant
            i <= n,
            at + n <= buf@.len() <= usize::MAX,
            out@ == buf@.subrange(at as int, at + i),
        decreases n - i,
    {
        out.push(buf[at + i]);
        i = i + 1;
        assert(out@ =~= buf@.subrange(at as int, at + i));
    }
    Some(out)
}

} // verus!
