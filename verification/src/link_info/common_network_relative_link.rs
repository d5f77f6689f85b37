//! The network share that a link target is on.
use crate::bytes::{get_u32, le32, read_u32_le};
use crate::error::{opt_text, view_result, LnkError};
use crate::text::{label8, read_label8};
use vstd::prelude::*;
use vstd::slice::slice_subrange;

verus! {

/// The flag that says that the device name is valid.
pub const VALID_DEVICE: u32 = 0x01;

/// The flag that says that the network provider type is valid.
pub const VALID_NET_TYPE: u32 = 0x02;

/// The length of the fields that every network structure has: its size, the
/// flags, the two name offsets and the provider type.
pub const NETWORK_LINK_FIXED_LEN: u32 = 20;

/// Where on the network a link target is.
#[derive(Debug, Clone, PartialEq, Eq)]
pub struct CommonNetworkRelativeLink {
    /// The declared size of the structure in bytes, its own four included.
    pub size: u32,
    /// Which of the device name and the provider type are valid.
    pub flags: u32,
    /// Where the share name starts, counted from the start of the structure.
    pub net_name_offset: u32,
    /// Where the device name starts, counted from the start of the structure.
    pub device_name_offset: u32,
    /// The type of the network provider, where the flags call it valid.
    pub network_provider_type: Option<u32>,
    /// The name of the share, where it is readable.
    pub net_name: Option<String>,
    /// The name of the device, where the flags call it valid and it is
    /// readable.
    pub device_name: Option<String>,
}

/// What a [`CommonNetworkRelativeLink`] holds, with its texts as character
/// sequences.
pub struct CommonNetworkRelativeLinkView {
    pub size: u32,
    pub flags: u32,
    pub net_name_offset: u32,
    pub device_name_offset: u32,
    pub network_provider_type: Option<u32>,
    pub net_name: Option<Seq<char>>,
    pub device_name: Option<Seq<char>>,
}

impl View for CommonNetworkRelativeLink {
    type V = CommonNetworkRelativeLinkView;

    open spec fn view(&self) -> CommonNetworkRelativeLinkView {
        CommonNetworkRelativeLinkView {
            size: self.size,
            flags: self.flags,
            net_name_offset: self.net_name_offset,
            device_name_offset: self.device_name_offset,
            network_provider_type: self.network_provider_type,
            net_name: opt_text(self.net_name),
            device_name: opt_text(self.device_name),
        }
    }
}

/// The network structure at the start of `s`.
///
/// Decoding fails where `s` is shorter than the declared size, or the
/// declared size is too small for the fixed fields. The names are labels: one
/// that cannot be read is absent and fails nothing. The device name and the
/// provider type are taken only where the flags call them valid.
pub open spec fn spec_network_link(s: Seq<u8>) -> Result<CommonNetworkRelativeLinkView, LnkError> {
    if s.len() < 4 {
        Err(LnkError::TruncatedDataError)
    } else if le32(s, 0) < NETWORK_LINK_FIXED_LEN || le32(s, 0) > s.len() {
        Err(LnkError::TruncatedDataError)
    } else {
        Ok(
            CommonNetworkRelativeLinkView {
                size: le32(s, 0),
                flags: le32(s, 4),
                net_name_offset: le32(s, 8),
                device_name_offset: le32(s, 12),
                network_provider_type: if le32(s, 4) & VALID_NET_TYPE != 0 {
                    Some(le32(s, 16))
                } else {
                    None
                },
                net_name: label8(s.subrange(0, le32(s, 0) as int), le32(s, 8) as int),
                device_name: if le32(s, 4) & VALID_DEVICE != 0 {
                    label8(s.subrange(0, le32(s, 0) as int), le32(s, 12) as int)
                } else {
                    None
                },
            },
        )
    }
}

impl CommonNetworkRelativeLink {
    /// Decodes the network structure at the start of `buf`.
    pub fn from_buffer(buf: &[u8]) -> (r: Result<CommonNetworkRelativeLink, LnkError>)
        ensures
            view_result(r) == spec_network_link(buf@),
    {
        let size: u32 = match get_u32(buf, 0) {
            Some(v) => v,
            None => {
                return Err(LnkError::TruncatedDataError);
            },
        };
        if size < NETWORK_LINK_FIXED_LEN || size as usize > buf.len() {
            return Err(LnkError::TruncatedDataError);
        }
        let flags: u32 = read_u32_le(buf, 4);
        let net_name_offset: u32 = read_u32_le(buf, 8);
        let device_name_offset: u32 = read_u32_le(buf, 12);
        let network_provider_type: Option<u32> = if flags & VALID_NET_TYPE != 0 {
            Some(read_u32_le(buf, 16))
        } else {
            None
        };
        let region = slice_subrange(buf, 0, size as usize);
        let net_name = read_label8(region, net_name_offset as usize);
        let device_name = if flags & VALID_DEVICE != 0 {
            read_label8(region, device_name_offset as usize)
        } else {
            None
        };
        Ok(
            CommonNetworkRelativeLink {
                size,
                flags,
                net_name_offset,
                device_name_offset,
                network_provider_type,
                net_name,
                device_name,
            },
        )
    }
}

} // verus!
