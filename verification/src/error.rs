//! The ways in which decoding a shell link fails.
use vstd::prelude::*;

verus! {

/// Why a byte sequence was not decoded.
///
/// Only the header and the structures that a header flag announces can fail
/// a decode. What is merely located by an offset, or follows the announced
/// structures, is left out of the record when it cannot be read.
#[derive(Clone, Copy, Debug, PartialEq, Eq, Structural)]
pub enum LnkError {
    /// The header is shorter than its fixed length, or its signature or
    /// class identifier is not that of a shell link.
    FormatError,
    /// A structure that must be present declares more bytes than there are.
    TruncatedDataError,
}

impl LnkError {
    /// A short description of the failure.
    pub fn message(&self) -> (s: &'static str)
        ensures
            s@ == (match *self {
                LnkError::FormatError => "not a shell link header"@,
                LnkError::TruncatedDataError => "declared length exceeds the available bytes"@,
            }),
    {
        match self {
            LnkError::FormatError => "not a shell link header",
            LnkError::TruncatedDataError => "declared length exceeds the available bytes",
        }
    }
}

/// The view of a decoding result: the view of what was decoded, or the error.
pub open spec fn view_result<T: View>(r: Result<T, LnkError>) -> Result<T::V, LnkError> {
    match r {
        Ok(v) => Ok(v@),
        Err(e) => Err(e),
    }
}

/// The view of an optional member.
pub open spec fn opt_view<T: View>(o: Option<T>) -> Option<T::V> {
    match o {
        Some(v) => Some(v@),
        None => None,
    }
}

/// The view of an optional text.
pub open spec fn opt_text(o: Option<String>) -> Option<Seq<char>> {
    match o {
        Some(s) => Some(s@),
        None => None,
    }
}

} // verus!
