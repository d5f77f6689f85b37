//! The list of shell items that leads from a namespace root to the target.
use crate::bytes::{get_bytes, get_u16, le16};
use crate::error::{opt_text, view_result, LnkError};
use crate::text::{label16, label8, read_label16, read_label8};
use vstd::prelude::*;
use vstd::slice::slice_subrange;

verus! {

/// The target identifier list: its declared size and its items in order.
#[derive(Debug, Clone, PartialEq, Eq)]
pub struct LinkTargetIDList {
    /// The declared size in bytes of the item list, its terminator included.
    pub size: u16,
    /// The items, first the one nearest the root. Each is held as the bytes
    /// that follow its two-byte length.
    pub items: Vec<Vec<u8>>,
}

/// What a [`LinkTargetIDList`] holds, with its items as byte sequences.
pub struct LinkTargetIDListView {
    pub size: u16,
    pub items: Seq<Seq<u8>>,
}

/// The byte sequences that `items` hold.
pub open spec fn items_view(items: Seq<Vec<u8>>) -> Seq<Seq<u8>> {
    Seq::new(items.len(), |i: int| items[i]@)
}

impl View for LinkTargetIDList {
    type V = LinkTargetIDListView;

    open spec fn view(&self) -> LinkTargetIDListView {
        LinkTargetIDListView { size: self.size, items: items_view(self.items@) }
    }
}

/// The items framed in `region` from offset `at` on.
///
/// Each item starts with its length in two bytes, which counts those two
/// bytes too; a length of zero ends the list and is no item. There are no
/// items to speak of where the region ends before a terminator, or where an
/// item's length is too small to hold itself or reaches past the region.
pub open spec fn items_of(region: Seq<u8>, at: int) -> Option<Seq<Seq<u8>>>
    decreases region.len() - at,
{
    if at < 0 || at + 2 > region.len() {
        None
    } else if le16(region, at) == 0 {
        Some(Seq::empty())
    } else if le16(region, at) < 2 || at + le16(region, at) > region.len() {
        None
    } else {
        match items_of(region, at + le16(region, at)) {
            Some(rest) => Some(seq![region.subrange(at + 2, at + le16(region, at))] + rest),
            None => None,
        }
    }
}

/// The number of bytes that a list of declared size `size` takes, its
/// two-byte size included.
pub open spec fn id_list_len(size: u16) -> int {
    2 + size
}

/// The target identifier list at the start of `s`.
///
/// Decoding fails where `s` ends before the declared size does, and where
/// the declared bytes do not frame a terminated list of items.
pub open spec fn spec_id_list(s: Seq<u8>) -> Result<LinkTargetIDListView, LnkError> {
    if s.len() < 2 {
        Err(LnkError::TruncatedDataError)
    } else if id_list_len(le16(s, 0)) > s.len() {
        Err(LnkError::TruncatedDataError)
    } else {
        match items_of(s.subrange(2, id_list_len(le16(s, 0))), 0) {
            Some(items) => Ok(LinkTargetIDListView { size: le16(s, 0), items }),
            None => Err(LnkError::TruncatedDataError),
        }
    }
}

/// The offset of the name within a file-entry item.
pub const FILE_ENTRY_NAME_OFFSET: usize = 12;

/// The path fragment that one item yields: the short name of a file entry.
///
/// An item is a file entry where the type bits of its first byte say so. Its
/// name follows the fixed fields, as UTF-16 where the first byte has the
/// Unicode bit and as 8-bit text otherwise. An item of another type, one too
/// short for the fixed fields, and one whose name is empty or unreadable
/// yield nothing.
pub open spec fn item_fragment(item: Seq<u8>) -> Option<Seq<char>> {
    if item.len() >= FILE_ENTRY_NAME_OFFSET && item[0] & 0x70 == 0x30 {
        if item[0] & 0x04 != 0 {
            label16(item, FILE_ENTRY_NAME_OFFSET as int)
        } else {
            label8(item, FILE_ENTRY_NAME_OFFSET as int)
        }
    } else {
        None
    }
}

/// The fragment of the first item, from index `from` on, that yields one.
pub open spec fn first_fragment(items: Seq<Seq<u8>>, from: int) -> Option<Seq<char>>
    decreases items.len() - from,
{
    if from < 0 || from >= items.len() {
        None
    } else {
        match item_fragment(items[from]) {
            Some(fragment) => Some(fragment),
            None => first_fragment(items, from + 1),
        }
    }
}

/// The path fragment that one item yields.
pub fn item_path_fragment(item: &[u8]) -> (r: Option<String>)
    ensures
        opt_text(r) == item_fragment(item@),
{
    if item.len() >= FILE_ENTRY_NAME_OFFSET && item[0] & 0x70 == 0x30 {
        if item[0] & 0x04 != 0 {
            read_label16(item, FILE_ENTRY_NAME_OFFSET)
        } else {
            read_label8(item, FILE_ENTRY_NAME_OFFSET)
        }
    } else {
        None
    }
}

impl LinkTargetIDList {
    /// Decodes the target identifier list at the start of `buf`.
    pub fn from_buffer(buf: &[u8]) -> (r: Result<LinkTargetIDList, LnkError>)
        ensures
            view_result(r) == spec_id_list(buf@),
    {
        let size: u16 = match get_u16(buf, 0) {
            Some(v) => v,
            None => {
                return Err(LnkError::TruncatedDataError);
            },
        };
        if buf.len() - 2 < size as usize {
            return Err(LnkError::TruncatedDataError);
        }
        let region = slice_subrange(buf, 2, 2 + size as usize);
        let mut items: Vec<Vec<u8>> = Vec::new();
        let mut at: usize = 0;
        loop
            invariant
                at <= region@.len() <= u16::MAX,
                buf@.len() >= id_list_len(size),
                size == le16(buf@, 0),
                region@ == buf@.subrange(2, id_list_len(size)),
                items_of(region@, 0) == (match items_of(region@, at as int) {
                    Some(rest) => Some(items_view(items@) + rest),
                    None => None,
                }),
            decreases region@.len() - at,
        {
            let n: u16 = match get_u16(region, at) {
                Some(v) => v,
                None => {
                    return Err(LnkError::TruncatedDataError);
                },
            };
            if n == 0 {
                assert(items_view(items@) + Seq::<Seq<u8>>::empty() =~= items_view(items@));
                return Ok(LinkTargetIDList { size, items });
            }
            if n < 2 || region.len() - at < n as usize {
                return Err(LnkError::TruncatedDataError);
            }
            let item = match get_bytes(region, at + 2, n as usize - 2) {
                Some(bytes) => bytes,
                None => {
                    return Err(LnkError::TruncatedDataError);
                },
            };
            let ghost before = items_view(items@);
            items.push(item);
            proof {
                assert(items_view(items@) =~= before.push(item@));
                match items_of(region@, at + n) {
                    Some(rest) => {
                        assert(before + (seq![item@] + rest) =~= items_view(items@) + rest);
                    },
                    None => {},
                }
            }
            at = at + n as usize;
        }
    }

    /// The number of bytes that the list takes in its encoding.
    pub fn encoded_len(&self) -> (n: usize)
        ensures
            n == id_list_len(self.size),
    {
        2 + self.size as usize
    }

    /// The path fragment that the list yields: that of its first item that
    /// has one. `None` where no item has one.
    pub fn path(&self) -> (r: Option<String>)
        ensures
            opt_text(r) == first_fragment(self@.items, 0),
    {
        let mut i: usize = 0;
        while i < self.items.len()
            invariant
                i <= self.items@.len(),
                first_fragment(self@.items, 0) == first_fragment(self@.items, i as int),
            decreases self.items@.len() - i,
        {
            match item_path_fragment(self.items[i].as_slice()) {
                Some(fragment) => {
                    return Some(fragment);
                },
                None => {},
            }
            i = i + 1;
        }
        None
    }
}

} // verus!
