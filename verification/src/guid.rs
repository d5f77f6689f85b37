//! Globally unique identifiers as they lie in a shell link.
use crate::bytes::{le16, le32, le64, read_u16_le, read_u32_le, read_u64_le};
use vstd::prelude::*;

verus! {

/// A 128-bit identifier: three little-endian integers and eight bytes.
#[derive(Debug, Clone, Copy, PartialEq, Eq, Structural)]
pub struct Guid {
    /// The first four bytes, as a little-endian integer.
    pub data1: u32,
    /// The next two bytes, as a little-endian integer.
    pub data2: u16,
    /// The next two bytes, as a little-endian integer.
    pub data3: u16,
    /// The last eight bytes, packed little-endian: the first of them is the
    /// lowest byte.
    pub data4: u64,
}

/// The number of bytes that an identifier takes.
pub const GUID_LEN: usize = 16;

/// The identifier whose sixteen bytes start at `at`.
pub open spec fn guid_at(s: Seq<u8>, at: int) -> Guid {
    Guid { data1: le32(s, at), data2: le16(s, at + 4), data3: le16(s, at + 6), data4: le64(s, at + 8) }
}

/// Reads the identifier whose sixteen bytes start at `at`.
pub(crate) fn read_guid(buf: &[u8], at: usize) -> (r: Guid)
    requires
        at + GUID_LEN <= buf@.len(),
    ensures
        r == guid_at(buf@, at as int),
{
    let _total: usize = buf.len();
    Guid {
        data1: read_u32_le(buf, at),
        data2: read_u16_le(buf, at + 4),
        data3: read_u16_le(buf, at + 6),
        data4: read_u64_le(buf, at + 8),
    }
}

} // verus!
