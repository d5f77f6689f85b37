//! The link-location descriptor and the structures inside it.
//!
//! The descriptor declares its own size, and everything in it is found by an
//! offset from its start. It is decoded from its declared bytes alone: what
//! an offset reaches beyond them is never read.
pub mod common_network_relative_link;
pub mod volume_id;

use crate::bytes::{get_u32, le32, read_u32_le};
use crate::error::{opt_text, view_result, LnkError};
use crate::text::{join, join_path, lossy_c_string, lossy_c_string16, read_c_string, read_c_string16};
use common_network_relative_link::{spec_network_link, CommonNetworkRelativeLink, CommonNetworkRelativeLinkView};
use volume_id::{spec_volume_id, VolumeID, VolumeIDView};
use vstd::prelude::*;
use vstd::slice::slice_subrange;

verus! {

/// The header size from which on the descriptor carries the two offsets of
/// its UTF-16 strings.
pub const EXTENDED_HEADER_SIZE: u32 = 0x24;

/// The length of the fields of a descriptor without UTF-16 offsets.
pub const LEGACY_FIXED_LEN: u32 = 28;

/// The length of the fields of a descriptor with UTF-16 offsets.
pub const EXTENDED_FIXED_LEN: u32 = 36;

/// What a link-location descriptor holds.
#[derive(Debug, Clone, Copy, PartialEq, Eq, Structural)]
pub struct LinkInfoFlags {
    /// The flags field as read.
    pub bits: u32,
    /// The volume structure and the local base path are present.
    pub volume_id_and_local_base_path: bool,
    /// The network structure and the path suffix are present.
    pub common_network_relative_link_and_path_suffix: bool,
}

/// The flags that the field value `bits` stands for.
pub open spec fn link_info_flags_of(bits: u32) -> LinkInfoFlags {
    LinkInfoFlags {
        bits,
        volume_id_and_local_base_path: bits & 0x01 != 0,
        common_network_relative_link_and_path_suffix: bits & 0x02 != 0,
    }
}

impl LinkInfoFlags {
    /// The flags that the field value `bits` stands for.
    pub fn from_bits(bits: u32) -> (r: LinkInfoFlags)
        ensures
            r == link_info_flags_of(bits),
    {
        LinkInfoFlags {
            bits,
            volume_id_and_local_base_path: bits & 0x01 != 0,
            common_network_relative_link_and_path_suffix: bits & 0x02 != 0,
        }
    }
}

/// Where a link target is: on which volume or share, and under which path.
#[derive(Debug, Clone, PartialEq, Eq)]
pub struct LinkInfo {
    /// The declared size of the descriptor in bytes.
    pub size: u32,
    /// The declared size of its fixed fields.
    pub header_size: u32,
    /// Which structures it holds.
    pub flags: LinkInfoFlags,
    /// Where the volume structure starts.
    pub volume_id_offset: u32,
    /// Where the local base path starts.
    pub local_base_path_offset: u32,
    /// Where the network structure starts.
    pub common_network_relative_link_offset: u32,
    /// Where the path suffix starts.
    pub common_path_suffix_offset: u32,
    /// Where the UTF-16 local base path starts; only in an extended header.
    pub local_base_path_offset_unicode: Option<u32>,
    /// Where the UTF-16 path suffix starts; only in an extended header.
    pub common_path_suffix_offset_unicode: Option<u32>,
    /// The volume of the target.
    pub volume_id: Option<VolumeID>,
    /// The path of the target on its volume, up to the suffix.
    pub local_base_path: Option<String>,
    /// The share of the target.
    pub common_network_relative_link: Option<CommonNetworkRelativeLink>,
    /// What continues the base path or the share name.
    pub common_path_suffix: Option<String>,
    /// The local base path from its UTF-16 form.
    pub local_base_path_unicode: Option<String>,
    /// The path suffix from its UTF-16 form.
    pub common_path_suffix_unicode: Option<String>,
}

/// What a [`LinkInfo`] holds, with its texts as character sequences.
pub struct LinkInfoView {
    pub size: u32,
    pub header_size: u32,
    pub flags: LinkInfoFlags,
    pub volume_id_offset: u32,
    pub local_base_path_offset: u32,
    pub common_network_relative_link_offset: u32,
    pub common_path_suffix_offset: u32,
    pub local_base_path_offset_unicode: Option<u32>,
    pub common_path_suffix_offset_unicode: Option<u32>,
    pub volume_id: Option<VolumeIDView>,
    pub local_base_path: Option<Seq<char>>,
    pub common_network_relative_link: Option<CommonNetworkRelativeLinkView>,
    pub common_path_suffix: Option<Seq<char>>,
    pub local_base_path_unicode: Option<Seq<char>>,
    pub common_path_suffix_unicode: Option<Seq<char>>,
}

impl View for LinkInfo {
    type V = LinkInfoView;

    open spec fn view(&self) -> LinkInfoView {
        LinkInfoView {
            size: self.size,
            header_size: self.header_size,
            flags: self.flags,
            volume_id_offset: self.volume_id_offset,
            local_base_path_offset: self.local_base_path_offset,
            common_network_relative_link_offset: self.common_network_relative_link_offset,
            common_path_suffix_offset: self.common_path_suffix_offset,
            local_base_path_offset_unicode: self.local_base_path_offset_unicode,
            common_path_suffix_offset_unicode: self.common_path_suffix_offset_unicode,
            volume_id: match self.volume_id {
                Some(v) => Some(v@),
                None => None,
            },
            local_base_path: opt_text(self.local_base_path),
            common_network_relative_link: match self.common_network_relative_link {
                Some(n) => Some(n@),
                None => None,
            },
            common_path_suffix: opt_text(self.common_path_suffix),
            local_base_path_unicode: opt_text(self.local_base_path_unicode),
            common_path_suffix_unicode: opt_text(self.common_path_suffix_unicode),
        }
    }
}

/// What a flag-gated member of a structure is: nothing without the flag,
/// and with it the value, which must then be readable.
pub open spec fn gated<T>(present: bool, value: Option<T>) -> Result<Option<T>, LnkError> {
    if !present {
        Ok(None)
    } else {
        match value {
            Some(v) => Ok(Some(v)),
            None => Err(LnkError::TruncatedDataError),
        }
    }
}

/// The length of the fixed fields of a descriptor whose header size is
/// `header_size`.
pub open spec fn fixed_len(header_size: u32) -> u32 {
    if header_size >= EXTENDED_HEADER_SIZE {
        EXTENDED_FIXED_LEN
    } else {
        LEGACY_FIXED_LEN
    }
}

/// The UTF-16 offset at `at`, which only an extended header has.
pub open spec fn unicode_offset(s: Seq<u8>, at: int) -> Option<u32> {
    if le32(s, 4) >= EXTENDED_HEADER_SIZE {
        Some(le32(s, at))
    } else {
        None
    }
}

/// Whether a UTF-16 offset names a string: it is there and not zero.
pub open spec fn names_string(offset: Option<u32>) -> bool {
    offset matches Some(at) && at != 0
}

/// The volume structure at `offset` of the descriptor, where it can be read.
pub open spec fn volume_at(region: Seq<u8>, offset: u32) -> Option<VolumeIDView> {
    if offset <= region.len() {
        match spec_volume_id(region.skip(offset as int)) {
            Ok(v) => Some(v),
            Err(_) => None,
        }
    } else {
        None
    }
}

/// The network structure at `offset` of the descriptor, where it can be
/// read.
pub open spec fn network_link_at(region: Seq<u8>, offset: u32) -> Option<
    CommonNetworkRelativeLinkView,
> {
    if offset <= region.len() {
        match spec_network_link(region.skip(offset as int)) {
            Ok(n) => Some(n),
            Err(_) => None,
        }
    } else {
        None
    }
}

/// The UTF-16 string that an optional offset names, where it can be read.
pub open spec fn unicode_string_at(region: Seq<u8>, offset: Option<u32>) -> Option<Seq<char>> {
    match offset {
        Some(at) => lossy_c_string16(region, at as int),
        None => None,
    }
}

/// The link-location descriptor at the start of `s`.
///
/// Decoding fails where `s` is shorter than the declared size, where the
/// declared size is too small for the fixed fields, and where a member that
/// a flag announces cannot be read from the declared bytes. The first flag
/// announces the volume structure and the local base path, the second the
/// network structure and the path suffix; each UTF-16 string belongs to the
/// flag of its 8-bit form and is there where its offset is not zero.
pub open spec fn spec_link_info(s: Seq<u8>) -> Result<LinkInfoView, LnkError> {
    if s.len() < 8 {
        Err(LnkError::TruncatedDataError)
    } else if le32(s, 0) > s.len() || le32(s, 0) < fixed_len(le32(s, 4)) {
        Err(LnkError::TruncatedDataError)
    } else {
        let region = s.subrange(0, le32(s, 0) as int);
        let flags = link_info_flags_of(le32(s, 8));
        let local = flags.volume_id_and_local_base_path;
        let network = flags.common_network_relative_link_and_path_suffix;
        let base_unicode = unicode_offset(s, 28);
        let suffix_unicode = unicode_offset(s, 32);
        match (
            gated(local, volume_at(region, le32(s, 12))),
            gated(local, lossy_c_string(region, le32(s, 16) as int)),
            gated(local && names_string(base_unicode), unicode_string_at(region, base_unicode)),
            gated(network, network_link_at(region, le32(s, 20))),
            gated(network, lossy_c_string(region, le32(s, 24) as int)),
            gated(
                network && names_string(suffix_unicode),
                unicode_string_at(region, suffix_unicode),
            ),
        ) {
            (
                Ok(volume_id),
                Ok(local_base_path),
                Ok(local_base_path_unicode),
                Ok(common_network_relative_link),
                Ok(common_path_suffix),
                Ok(common_path_suffix_unicode),
            ) => Ok(
                LinkInfoView {
                    size: le32(s, 0),
                    header_size: le32(s, 4),
                    flags,
                    volume_id_offset: le32(s, 12),
                    local_base_path_offset: le32(s, 16),
                    common_network_relative_link_offset: le32(s, 20),
                    common_path_suffix_offset: le32(s, 24),
                    local_base_path_offset_unicode: base_unicode,
                    common_path_suffix_offset_unicode: suffix_unicode,
                    volume_id,
                    local_base_path,
                    common_network_relative_link,
                    common_path_suffix,
                    local_base_path_unicode,
                    common_path_suffix_unicode,
                },
            ),
            _ => Err(LnkError::TruncatedDataError),
        }
    }
}

/// The path that a descriptor resolves to.
///
/// The local base path continued by the path suffix, where both are there.
/// Failing that, the share name continued by the path suffix, where both are
/// there. Failing that, nothing. A local path thus comes before a network
/// path.
pub open spec fn link_info_path(v: LinkInfoView) -> Option<Seq<char>> {
    match (v.local_base_path, v.common_network_relative_link, v.common_path_suffix) {
        (Some(base), _, Some(suffix)) => Some(join_path(base, suffix)),
        (None, Some(share), Some(suffix)) => match share.net_name {
            Some(name) => Some(join_path(name, suffix)),
            None => None,
        },
        _ => None,
    }
}

impl LinkInfo {
    /// Decodes the link-location descriptor at the start of `buf`.
    pub fn from_buffer(buf: &[u8]) -> (r: Result<LinkInfo, LnkError>)
        ensures
            view_result(r) == spec_link_info(buf@),
    {
        if buf.len() < 8 {
            return Err(LnkError::TruncatedDataError);
        }
        let size: u32 = read_u32_le(buf, 0);
        let header_size: u32 = read_u32_le(buf, 4);
        let extended: bool = header_size >= EXTENDED_HEADER_SIZE;
        let fixed: u32 = if extended {
            EXTENDED_FIXED_LEN
        } else {
            LEGACY_FIXED_LEN
        };
        if size as usize > buf.len() || size < fixed {
            return Err(LnkError::TruncatedDataError);
        }
        let region = slice_subrange(buf, 0, size as usize);
        let flags = LinkInfoFlags::from_bits(read_u32_le(buf, 8));
        let volume_id_offset: u32 = read_u32_le(buf, 12);
        let local_base_path_offset: u32 = read_u32_le(buf, 16);
        let common_network_relative_link_offset: u32 = read_u32_le(buf, 20);
        let common_path_suffix_offset: u32 = read_u32_le(buf, 24);
        let mut local_base_path_offset_unicode: Option<u32> = None;
        let mut common_path_suffix_offset_unicode: Option<u32> = None;
        if extended {
            local_base_path_offset_unicode = Some(read_u32_le(buf, 28));
            common_path_suffix_offset_unicode = Some(read_u32_le(buf, 32));
        }
        let mut volume_id: Option<VolumeID> = None;
        let mut local_base_path: Option<String> = None;
        let mut local_base_path_unicode: Option<String> = None;
        if flags.volume_id_and_local_base_path {
            if volume_id_offset > size {
                return Err(LnkError::TruncatedDataError);
            }
            let tail = slice_subrange(region, volume_id_offset as usize, size as usize);
            match VolumeID::from_buffer(tail) {
                Ok(v) => {
                    volume_id = Some(v);
                },
                Err(_) => {
                    return Err(LnkError::TruncatedDataError);
                },
            }
            match read_c_string(region, local_base_path_offset as usize) {
                Some(text) => {
                    local_base_path = Some(text);
                },
                None => {
                    return Err(LnkError::TruncatedDataError);
                },
            }
            match local_base_path_offset_unicode {
                Some(at) => {
                    if at != 0 {
                        match read_c_string16(region, at as usize) {
                            Some(text) => {
                                local_base_path_unicode = Some(text);
                            },
                            None => {
                                return Err(LnkError::TruncatedDataError);
                            },
                        }
                    }
                },
                None => {},
            }
        }
        let mut common_network_relative_link: Option<CommonNetworkRelativeLink> = None;
        let mut common_path_suffix: Option<String> = None;
        let mut common_path_suffix_unicode: Option<String> = None;
        if flags.common_network_relative_link_and_path_suffix {
            if common_network_relative_link_offset > size {
                return Err(LnkError::TruncatedDataError);
            }
            let tail = slice_subrange(
                region,
                common_network_relative_link_offset as usize,
                size as usize,
            );
            match CommonNetworkRelativeLink::from_buffer(tail) {
                Ok(n) => {
                    common_network_relative_link = Some(n);
                },
                Err(_) => {
                    return Err(LnkError::TruncatedDataError);
                },
            }
            match read_c_string(region, common_path_suffix_offset as usize) {
                Some(text) => {
                    common_path_suffix = Some(text);
                },
                None => {
                    return Err(LnkError::TruncatedDataError);
                },
            }
            match common_path_suffix_offset_unicode {
                Some(at) => {
                    if at != 0 {
                        match read_c_string16(region, at as usize) {
                            Some(text) => {
                                common_path_suffix_unicode = Some(text);
                            },
                            None => {
                                return Err(LnkError::TruncatedDataError);
                            },
                        }
                    }
                },
                None => {},
            }
        }
        Ok(
            LinkInfo {
                size,
                header_size,
                flags,
                volume_id_offset,
                local_base_path_offset,
                common_network_relative_link_offset,
                common_path_suffix_offset,
                local_base_path_offset_unicode,
                common_path_suffix_offset_unicode,
                volume_id,
                local_base_path,
                common_network_relative_link,
                common_path_suffix,
                local_base_path_unicode,
                common_path_suffix_unicode,
            },
        )
    }

    /// The number of bytes that the descriptor takes in its encoding.
    pub fn encoded_len(&self) -> (n: usize)
        ensures
            n == self.size,
    {
        self.size as usize
    }

    /// The path that the descriptor resolves to, a local one before a
    /// network one. `None` where it holds neither.
    pub fn path(&self) -> (r: Option<String>)
        ensures
            opt_text(r) == link_info_path(self@),
    {
        match &self.common_path_suffix {
            Some(suffix) => match &self.local_base_path {
                Some(base) => Some(join(base.as_str(), suffix.as_str())),
                None => match &self.common_network_relative_link {
                    Some(share) => match &share.net_name {
                        Some(name) => Some(join(name.as_str(), suffix.as_str())),
                        None => None,
                    },
                    None => None,
                },
            },
            None => None,
        }
    }
}

} // verus!
