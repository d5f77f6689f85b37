//! The blocks of extra data at the end of a link.
use crate::bytes::{get_u32, le32, read_u32_le};
use crate::error::{view_result, LnkError};
use crate::guid::{guid_at, read_guid, Guid};
use crate::text::{decode_utf8_lossy, find_nul, find_terminator, lemma_find_nul_bounds, utf8_lossy};
use vstd::prelude::*;
use vstd::slice::slice_subrange;

verus! {

/// The signature of a tracker block.
pub const TRACKER_SIGNATURE: u32 = 0xA000_0003;

/// The length in bytes of a whole tracker block.
pub const TRACKER_BLOCK_LEN: usize = 96;

/// The smallest size that a block can declare; a smaller one ends the list.
pub const MIN_BLOCK_SIZE: u32 = 4;

/// The length in bytes of a block's size and signature.
pub const BLOCK_HEADER_LEN: u32 = 8;

/// What the link-tracking service recorded of the target.
#[derive(Debug, Clone, PartialEq, Eq)]
pub struct Tracker {
    /// The declared size of the block.
    pub size: u32,
    /// The declared length of the tracker data.
    pub length: u32,
    /// The version of the tracker data.
    pub version: u32,
    /// The name of the machine that the target was last known to be on.
    pub machine_id: String,
    /// The volume part of the droid.
    pub droid_volume: Guid,
    /// The file part of the droid.
    pub droid_file: Guid,
    /// The volume part of the birth droid.
    pub birth_droid_volume: Guid,
    /// The file part of the birth droid.
    pub birth_droid_file: Guid,
}

/// What a [`Tracker`] holds, with its text as a character sequence.
pub struct TrackerView {
    pub size: u32,
    pub length: u32,
    pub version: u32,
    pub machine_id: Seq<char>,
    pub droid_volume: Guid,
    pub droid_file: Guid,
    pub birth_droid_volume: Guid,
    pub birth_droid_file: Guid,
}

impl View for Tracker {
    type V = TrackerView;

    open spec fn view(&self) -> TrackerView {
        TrackerView {
            size: self.size,
            length: self.length,
            version: self.version,
            machine_id: self.machine_id@,
            droid_volume: self.droid_volume,
            droid_file: self.droid_file,
            birth_droid_volume: self.birth_droid_volume,
            birth_droid_file: self.birth_droid_file,
        }
    }
}

/// A block that is kept as it was found: its signature and the bytes after
/// it.
#[derive(Debug, Clone, PartialEq, Eq)]
pub struct OtherBlock {
    /// The signature of the block.
    pub signature: u32,
    /// The bytes that follow the signature, to the end of the block.
    pub data: Vec<u8>,
}

/// What an [`OtherBlock`] holds, with its bytes as a sequence.
pub struct OtherBlockView {
    pub signature: u32,
    pub data: Seq<u8>,
}

impl View for OtherBlock {
    type V = OtherBlockView;

    open spec fn view(&self) -> OtherBlockView {
        OtherBlockView { signature: self.signature, data: self.data@ }
    }
}

/// One block of extra data.
#[derive(Debug, Clone, PartialEq, Eq)]
pub enum ExtraDataTypes {
    /// A tracker block.
    Tracker(Tracker),
    /// A block of any other type.
    Other(OtherBlock),
}

/// What an [`ExtraDataTypes`] holds.
pub enum ExtraDataTypesView {
    Tracker(TrackerView),
    Other(OtherBlockView),
}

impl View for ExtraDataTypes {
    type V = ExtraDataTypesView;

    open spec fn view(&self) -> ExtraDataTypesView {
        match *self {
            ExtraDataTypes::Tracker(t) => ExtraDataTypesView::Tracker(t@),
            ExtraDataTypes::Other(o) => ExtraDataTypesView::Other(o@),
        }
    }
}

/// The blocks of extra data, in the order in which they lie in the link.
#[derive(Debug, Clone, PartialEq, Eq)]
pub struct ExtraData {
    /// The blocks.
    pub extra_data_blocks: Vec<ExtraDataTypes>,
}

/// What an [`ExtraData`] holds.
pub struct ExtraDataView {
    pub extra_data_blocks: Seq<ExtraDataTypesView>,
}

/// The views of `blocks`.
pub open spec fn blocks_view(blocks: Seq<ExtraDataTypes>) -> Seq<ExtraDataTypesView> {
    Seq::new(blocks.len(), |i: int| blocks[i]@)
}

impl View for ExtraData {
    type V = ExtraDataView;

    open spec fn view(&self) -> ExtraDataView {
        ExtraDataView { extra_data_blocks: blocks_view(self.extra_data_blocks@) }
    }
}

/// The machine name in the sixteen bytes of `field`: the text before the
/// first zero byte, or of the whole field where it has none.
pub open spec fn machine_id_text(field: Seq<u8>) -> Seq<char> {
    match find_nul(field, 0) {
        Some(end) => utf8_lossy(field.subrange(0, end)),
        None => utf8_lossy(field),
    }
}

/// What the bytes of one whole block, size and signature included, decode
/// to.
///
/// A block with the tracker signature that is long enough for the tracker
/// fields is a tracker block. Every other block, a short one with the
/// tracker signature too, is kept as its signature and the bytes after it.
pub open spec fn block_of(block: Seq<u8>) -> ExtraDataTypesView {
    if le32(block, 4) == TRACKER_SIGNATURE && block.len() >= TRACKER_BLOCK_LEN {
        ExtraDataTypesView::Tracker(
            TrackerView {
                size: le32(block, 0),
                length: le32(block, 8),
                version: le32(block, 12),
                machine_id: machine_id_text(block.subrange(16, 32)),
                droid_volume: guid_at(block, 32),
                droid_file: guid_at(block, 48),
                birth_droid_volume: guid_at(block, 64),
                birth_droid_file: guid_at(block, 80),
            },
        )
    } else {
        ExtraDataTypesView::Other(
            OtherBlockView {
                signature: le32(block, 4),
                data: block.subrange(BLOCK_HEADER_LEN as int, block.len() as int),
            },
        )
    }
}

/// The blocks that lie in `s` from offset `at` on.
///
/// The list ends, without fault, where fewer than four bytes are left and
/// where a block declares a size below the minimum. It cannot be read where
/// a block declares a size that leaves no room for its signature, or more
/// bytes than are left.
pub open spec fn blocks_of(s: Seq<u8>, at: int) -> Option<Seq<ExtraDataTypesView>>
    decreases s.len() - at,
{
    if at < 0 || at + 4 > s.len() {
        Some(Seq::empty())
    } else if le32(s, at) < MIN_BLOCK_SIZE {
        Some(Seq::empty())
    } else if le32(s, at) < BLOCK_HEADER_LEN || at + le32(s, at) > s.len() {
        None
    } else {
        match blocks_of(s, at + le32(s, at)) {
            Some(rest) => Some(seq![block_of(s.subrange(at, at + le32(s, at)))] + rest),
            None => None,
        }
    }
}

/// The extra data that the bytes `s`, all that follow the other structures
/// of a link, decode to. There is none where no byte is left at all, and
/// none where a block cannot be read.
pub open spec fn spec_extra_data(s: Seq<u8>) -> Result<ExtraDataView, LnkError> {
    if s.len() == 0 {
        Err(LnkError::TruncatedDataError)
    } else {
        match blocks_of(s, 0) {
            Some(blocks) => Ok(ExtraDataView { extra_data_blocks: blocks }),
            None => Err(LnkError::TruncatedDataError),
        }
    }
}

/// The machine name of the first tracker block among `blocks` from index
/// `from` on.
pub open spec fn first_tracker_machine(blocks: Seq<ExtraDataTypesView>, from: int) -> Option<
    Seq<char>,
>
    decreases blocks.len() - from,
{
    if from < 0 || from >= blocks.len() {
        None
    } else {
        match blocks[from] {
            ExtraDataTypesView::Tracker(t) => Some(t.machine_id),
            ExtraDataTypesView::Other(_) => first_tracker_machine(blocks, from + 1),
        }
    }
}

/// A whole block with fewer than four bytes after it is all the extra data
/// there is: what follows it is too short to be a block, and no fault.
pub proof fn lemma_short_tail_after_block(block: Seq<u8>, tail: Seq<u8>)
    requires
        block.len() >= BLOCK_HEADER_LEN,
        le32(block, 0) == block.len(),
        tail.len() < 4,
    ensures
        spec_extra_data(block + tail) == Ok::<_, LnkError>(
            ExtraDataView { extra_data_blocks: seq![block_of(block)] },
        ),
{
    let s = block + tail;
    let n = block.len() as int;
    assert(le32(s, 0) == le32(block, 0));
    assert(s.subrange(0, n) =~= block);
    assert(blocks_of(s, n) == Some(Seq::<ExtraDataTypesView>::empty()));
    assert(seq![block_of(block)] + Seq::<ExtraDataTypesView>::empty() =~= seq![block_of(block)]);
}

/// Decodes one whole block.
fn decode_block(block: &[u8]) -> (r: ExtraDataTypes)
    requires
        block@.len() >= BLOCK_HEADER_LEN,
    ensures
        r@ == block_of(block@),
{
    let signature: u32 = read_u32_le(block, 4);
    if signature == TRACKER_SIGNATURE && block.len() >= TRACKER_BLOCK_LEN {
        let field = slice_subrange(block, 16, 32);
        let end: usize = match find_terminator(field, 0) {
            Some(e) => e,
            None => 16,
        };
        proof {
            lemma_find_nul_bounds(field@, 0);
            assert(field@.subrange(0, 16) =~= field@);
        }
        let machine_id = decode_utf8_lossy(slice_subrange(field, 0, end));
        ExtraDataTypes::Tracker(
            Tracker {
                size: read_u32_le(block, 0),
                length: read_u32_le(block, 8),
                version: read_u32_le(block, 12),
                machine_id,
                droid_volume: read_guid(block, 32),
                droid_file: read_guid(block, 48),
                birth_droid_volume: read_guid(block, 64),
                birth_droid_file: read_guid(block, 80),
            },
        )
    } else {
        let data = vstd::slice::slice_to_vec(slice_subrange(block, 8, block.len()));
        ExtraDataTypes::Other(OtherBlock { signature, data })
    }
}

impl ExtraData {
    /// Decodes the extra data in `buf`, the bytes that follow the other
    /// structures of a link.
    pub fn from_buffer(buf: &[u8]) -> (r: Result<ExtraData, LnkError>)
        ensures
            view_result(r) == spec_extra_data(buf@),
    {
        if buf.len() == 0 {
            return Err(LnkError::TruncatedDataError);
        }
        let mut blocks: Vec<ExtraDataTypes> = Vec::new();
        let mut at: usize = 0;
        loop
            invariant
                at <= buf@.len(),
                buf@.len() > 0,
                blocks_of(buf@, 0) == (match blocks_of(buf@, at as int) {
                    Some(rest) => Some(blocks_view(blocks@) + rest),
                    None => None,
                }),
            decreases buf@.len() - at,
        {
            let size: u32 = match get_u32(buf, at) {
                Some(v) => v,
                None => {
                    assert(blocks_view(blocks@) + Seq::<ExtraDataTypesView>::empty()
                        =~= blocks_view(blocks@));
                    return Ok(ExtraData { extra_data_blocks: blocks });
                },
            };
            if size < MIN_BLOCK_SIZE {
                assert(blocks_view(blocks@) + Seq::<ExtraDataTypesView>::empty() =~= blocks_view(
                    blocks@,
                ));
                return Ok(ExtraData { extra_data_blocks: blocks });
            }
            if size < BLOCK_HEADER_LEN || buf.len() - at < size as usize {
                return Err(LnkError::TruncatedDataError);
            }
            let block = decode_block(slice_subrange(buf, at, at + size as usize));
            let ghost before = blocks_view(blocks@);
            blocks.push(block);
            proof {
                assert(blocks_view(blocks@) =~= before.push(block@));
                match blocks_of(buf@, at + size) {
                    Some(rest) => {
                        assert(before + (seq![block@] + rest) =~= blocks_view(blocks@) + rest);
                    },
                    None => {},
                }
            }
            at = at + size as usize;
        }
    }

    /// The machine name that the first tracker block holds. `None` where
    /// there is no tracker block.
    pub fn tracker_machine_id(&self) -> (r: Option<&String>)
        ensures
            (match r {
                Some(name) => Some(name@),
                None => None,
            }) == first_tracker_machine(self@.extra_data_blocks, 0),
    {
        let mut i: usize = 0;
        while i < self.extra_data_blocks.len()
            invariant
                i <= self.extra_data_blocks@.len(),
                first_tracker_machine(self@.extra_data_blocks, 0) == first_tracker_machine(
                    self@.extra_data_blocks,
                    i as int,
                ),
            decreases self.extra_data_blocks@.len() - i,
        {
            match &self.extra_data_blocks[i] {
                ExtraDataTypes::Tracker(t) => {
                    return Some(&t.machine_id);
                },
                ExtraDataTypes::Other(_) => {},
            }
            i = i + 1;
        }
        None
    }
}

} // verus!
