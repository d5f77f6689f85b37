//! The display strings of a link: a count of characters, then the
//! characters.
use crate::bytes::{get_u16, le16};
use crate::error::{view_result, LnkError};
use crate::text::{decode_utf16_lossy, decode_utf8_lossy, read_units, units_le, utf16_lossy, utf8_lossy};
use vstd::prelude::*;
use vstd::slice::slice_subrange;

verus! {

/// A string field: the number of characters it declares, and its text.
#[derive(Debug, Clone, PartialEq, Eq)]
pub struct StringData {
    /// The declared number of characters: bytes in an 8-bit string, 16-bit
    /// units in a UTF-16 string.
    pub size: u16,
    /// The text, with ill-formed input replaced by U+FFFD.
    pub string: String,
}

/// What a [`StringData`] holds, with its text as a character sequence.
pub struct StringDataView {
    pub size: u16,
    pub string: Seq<char>,
}

impl View for StringData {
    type V = StringDataView;

    open spec fn view(&self) -> StringDataView {
        StringDataView { size: self.size, string: self.string@ }
    }
}

/// The number of bytes that a string field of `size` characters takes, its
/// two-byte count included.
pub open spec fn string_data_len(size: u16, unicode: bool) -> int {
    if unicode {
        2 + 2 * size
    } else {
        2 + size
    }
}

/// The string field at the start of `s`, UTF-16 where `unicode` and 8-bit
/// otherwise.
///
/// Decoding fails only where `s` ends before the declared characters do. The
/// characters are decoded leniently and taken as they are: nothing is cut
/// at a zero, and nothing is normalised.
pub open spec fn spec_string_data(s: Seq<u8>, unicode: bool) -> Result<StringDataView, LnkError> {
    if s.len() < 2 {
        Err(LnkError::TruncatedDataError)
    } else if string_data_len(le16(s, 0), unicode) > s.len() {
        Err(LnkError::TruncatedDataError)
    } else if unicode {
        Ok(
            StringDataView {
                size: le16(s, 0),
                string: utf16_lossy(units_le(s, 2, le16(s, 0) as nat)),
            },
        )
    } else {
        Ok(
            StringDataView {
                size: le16(s, 0),
                string: utf8_lossy(s.subrange(2, 2 + le16(s, 0))),
            },
        )
    }
}

impl StringData {
    /// Decodes the string field at the start of `buf`.
    pub fn from_buffer(buf: &[u8], unicode: bool) -> (r: Result<StringData, LnkError>)
        ensures
            view_result(r) == spec_string_data(buf@, unicode),
    {
        let size: u16 = match get_u16(buf, 0) {
            Some(v) => v,
            None => {
                return Err(LnkError::TruncatedDataError);
            },
        };
        let count: usize = size as usize;
        if unicode {
            if buf.len() - 2 < 2 * count {
                return Err(LnkError::TruncatedDataError);
            }
            let units = read_units(buf, 2, count);
            Ok(StringData { size, string: decode_utf16_lossy(units.as_slice()) })
        } else {
            if buf.len() - 2 < count {
                return Err(LnkError::TruncatedDataError);
            }
            let bytes = slice_subrange(buf, 2, 2 + count);
            Ok(StringData { size, string: decode_utf8_lossy(bytes) })
        }
    }

    /// The number of bytes that the field takes in its encoding.
    pub fn encoded_len(&self, unicode: bool) -> (n: usize)
        ensures
            n == string_data_len(self.size, unicode),
    {
        if unicode {
            2 + 2 * (self.size as usize)
        } else {
            2 + self.size as usize
        }
    }
}

} // verus!
