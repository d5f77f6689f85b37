//! The volume that a link target was on when the link was made.
use crate::bytes::{get_u32, le32, read_u32_le};
use crate::error::{opt_text, view_result, LnkError};
use crate::format::{format_serial, serial_text};
use crate::text::{label16, label8, read_label16, read_label8};
use vstd::prelude::*;
use vstd::slice::slice_subrange;
use vstd::std_specs::convert::FromSpecImpl;

verus! {

/// The kind of drive that a volume is on.
#[derive(Debug, Clone, Copy, PartialEq, Eq, Structural)]
pub enum VolumeIDDriveType {
    /// The drive type cannot be determined.
    DRIVE_UNKNOWN,
    /// The root path is invalid: no volume is mounted at the path.
    DRIVE_NO_ROOT_DIR,
    /// The drive has removable media.
    DRIVE_REMOVABLE,
    /// The drive has fixed media.
    DRIVE_FIXED,
    /// The drive is a remote (network) drive.
    DRIVE_REMOTE,
    /// The drive is a CD-ROM drive.
    DRIVE_CDROM,
    /// The drive is a RAM disk.
    DRIVE_RAMDISK,
}

/// The drive type that the code `num` stands for. Codes that name no drive
/// type stand for the unknown one.
pub open spec fn drive_type_of(num: u32) -> VolumeIDDriveType {
    if num == 1 {
        VolumeIDDriveType::DRIVE_NO_ROOT_DIR
    } else if num == 2 {
        VolumeIDDriveType::DRIVE_REMOVABLE
    } else if num == 3 {
        VolumeIDDriveType::DRIVE_FIXED
    } else if num == 4 {
        VolumeIDDriveType::DRIVE_REMOTE
    } else if num == 5 {
        VolumeIDDriveType::DRIVE_CDROM
    } else if num == 6 {
        VolumeIDDriveType::DRIVE_RAMDISK
    } else {
        VolumeIDDriveType::DRIVE_UNKNOWN
    }
}

impl From<u32> for VolumeIDDriveType {
    fn from(num: u32) -> (r: Self) {
        match num {
            1 => VolumeIDDriveType::DRIVE_NO_ROOT_DIR,
            2 => VolumeIDDriveType::DRIVE_REMOVABLE,
            3 => VolumeIDDriveType::DRIVE_FIXED,
            4 => VolumeIDDriveType::DRIVE_REMOTE,
            5 => VolumeIDDriveType::DRIVE_CDROM,
            6 => VolumeIDDriveType::DRIVE_RAMDISK,
            _ => VolumeIDDriveType::DRIVE_UNKNOWN,
        }
    }
}

impl FromSpecImpl<u32> for VolumeIDDriveType {
    open spec fn obeys_from_spec() -> bool {
        true
    }

    open spec fn from_spec(num: u32) -> Self {
        drive_type_of(num)
    }
}

/// Every code from one to six has a drive type of its own, and every other
/// code, zero and all above six, has the unknown one.
pub proof fn lemma_drive_type_codes(num: u32)
    ensures
        (drive_type_of(num) == VolumeIDDriveType::DRIVE_UNKNOWN) <==> (num == 0 || num > 6),
        (drive_type_of(num) == VolumeIDDriveType::DRIVE_NO_ROOT_DIR) <==> num == 1,
        (drive_type_of(num) == VolumeIDDriveType::DRIVE_REMOVABLE) <==> num == 2,
        (drive_type_of(num) == VolumeIDDriveType::DRIVE_FIXED) <==> num == 3,
        (drive_type_of(num) == VolumeIDDriveType::DRIVE_REMOTE) <==> num == 4,
        (drive_type_of(num) == VolumeIDDriveType::DRIVE_CDROM) <==> num == 5,
        (drive_type_of(num) == VolumeIDDriveType::DRIVE_RAMDISK) <==> num == 6,
{
}

/// The label offset that announces a further offset field, which then
/// locates a UTF-16 label.
pub const UNICODE_LABEL_SENTINEL: u32 = 0x14;

/// The length of the fields that every volume structure has: its size, the
/// drive type, the serial number and the label offset.
pub const VOLUME_ID_FIXED_LEN: u32 = 16;

/// Information about the volume that a link target was on when the link was
/// created.
#[derive(Debug, Clone, PartialEq, Eq)]
pub struct VolumeID {
    /// The declared size of the structure in bytes, its own four included.
    pub size: u32,
    /// The kind of drive.
    pub drive_type: VolumeIDDriveType,
    /// The serial number of the volume, as `XXXX-XXXX`.
    pub serial_number: String,
    /// Where the 8-bit label starts, counted from the start of the structure.
    pub volume_lable_offset: u32,
    /// Where the UTF-16 label starts; present only with the sentinel offset.
    pub volume_lable_offset_unicode: Option<u32>,
    /// The label of the volume, where it has a readable one.
    pub volume_lable: Option<String>,
}

/// What a [`VolumeID`] holds, with its texts as character sequences.
pub struct VolumeIDView {
    pub size: u32,
    pub drive_type: VolumeIDDriveType,
    pub serial_number: Seq<char>,
    pub volume_lable_offset: u32,
    pub volume_lable_offset_unicode: Option<u32>,
    pub volume_lable: Option<Seq<char>>,
}

impl View for VolumeID {
    type V = VolumeIDView;

    open spec fn view(&self) -> VolumeIDView {
        VolumeIDView {
            size: self.size,
            drive_type: self.drive_type,
            serial_number: self.serial_number@,
            volume_lable_offset: self.volume_lable_offset,
            volume_lable_offset_unicode: self.volume_lable_offset_unicode,
            volume_lable: opt_text(self.volume_lable),
        }
    }
}

/// The label of a volume structure whose declared bytes are `region`.
///
/// With a UTF-16 offset, the label is the UTF-16 string there, and the 8-bit
/// offset is not followed. Without one, it is the 8-bit string at the 8-bit
/// offset. An offset of zero gives no label: like every offset into the
/// size field, it lies outside the bytes that may hold one.
pub open spec fn volume_label(region: Seq<u8>, offset: u32, offset_unicode: Option<u32>) -> Option<
    Seq<char>,
> {
    match offset_unicode {
        Some(at) => label16(region, at as int),
        None => label8(region, offset as int),
    }
}

/// The UTF-16 label offset of the volume structure in `s`: the field that
/// follows the fixed ones, read only when the 8-bit offset is the sentinel.
pub open spec fn unicode_label_offset(s: Seq<u8>) -> Option<u32> {
    if le32(s, 12) == UNICODE_LABEL_SENTINEL {
        Some(le32(s, 16))
    } else {
        None
    }
}

/// The volume structure at the start of `s`.
///
/// Decoding fails where `s` is shorter than the declared size, or the
/// declared size is too small for the fields that must be there. A label
/// that cannot be read is absent and fails nothing.
pub open spec fn spec_volume_id(s: Seq<u8>) -> Result<VolumeIDView, LnkError> {
    if s.len() < 4 {
        Err(LnkError::TruncatedDataError)
    } else if le32(s, 0) < VOLUME_ID_FIXED_LEN || le32(s, 0) > s.len() {
        Err(LnkError::TruncatedDataError)
    } else if le32(s, 12) == UNICODE_LABEL_SENTINEL && le32(s, 0) < VOLUME_ID_FIXED_LEN + 4 {
        Err(LnkError::TruncatedDataError)
    } else {
        Ok(
            VolumeIDView {
                size: le32(s, 0),
                drive_type: drive_type_of(le32(s, 4)),
                serial_number: serial_text(le32(s, 8)),
                volume_lable_offset: le32(s, 12),
                volume_lable_offset_unicode: unicode_label_offset(s),
                volume_lable: volume_label(
                    s.subrange(0, le32(s, 0) as int),
                    le32(s, 12),
                    unicode_label_offset(s),
                ),
            },
        )
    }
}

impl VolumeID {
    /// Decodes the volume structure at the start of `buf`.
    pub fn from_buffer(buf: &[u8]) -> (r: Result<VolumeID, LnkError>)
        ensures
            view_result(r) == spec_volume_id(buf@),
    {
        let size: u32 = match get_u32(buf, 0) {
            Some(v) => v,
            None => {
                return Err(LnkError::TruncatedDataError);
            },
        };
        if size < VOLUME_ID_FIXED_LEN || size as usize > buf.len() {
            return Err(LnkError::TruncatedDataError);
        }
        let drive_type = VolumeIDDriveType::from(read_u32_le(buf, 4));
        let serial_number = format_serial(read_u32_le(buf, 8));
        let volume_lable_offset: u32 = read_u32_le(buf, 12);
        let mut volume_lable_offset_unicode: Option<u32> = None;
        if volume_lable_offset == UNICODE_LABEL_SENTINEL {
            if size < VOLUME_ID_FIXED_LEN + 4 {
                return Err(LnkError::TruncatedDataError);
            }
            volume_lable_offset_unicode = Some(read_u32_le(buf, 16));
        }
        let region = slice_subrange(buf, 0, size as usize);
        let volume_lable = match volume_lable_offset_unicode {
            Some(at) => read_label16(region, at as usize),
            None => read_label8(region, volume_lable_offset as usize),
        };
        Ok(
            VolumeID {
                size,
                drive_type,
                serial_number,
                volume_lable_offset,
                volume_lable_offset_unicode,
                volume_lable,
            },
        )
    }
}

/// How the label of a decoded volume structure is resolved: an 8-bit offset
/// of zero gives no label; the sentinel offset, and no other, makes the
/// decoder read the UTF-16 offset, and the label is then the UTF-16 string
/// there, whatever lies at the 8-bit offset.
pub proof fn lemma_label_resolution(s: Seq<u8>)
    requires
        spec_volume_id(s).is_ok(),
    ensures
        ({
            let v = spec_volume_id(s).unwrap();
            let region = s.subrange(0, v.size as int);
            &&& v.volume_lable_offset == 0 ==> v.volume_lable.is_none()
            &&& v.volume_lable_offset == UNICODE_LABEL_SENTINEL
                <==> v.volume_lable_offset_unicode.is_some()
            &&& v.volume_lable_offset_unicode matches Some(at) ==> v.volume_lable == label16(
                region,
                at as int,
            )
            &&& v.volume_lable_offset_unicode.is_none() ==> v.volume_lable == label8(
                region,
                v.volume_lable_offset as int,
            )
        }),
{
}

} // verus!
