//! The fixed header that every shell link starts with.
use crate::bytes::{le32, le64, read_u32_le, read_u64_le};
use crate::error::LnkError;
use crate::guid::{guid_at, read_guid, Guid};
use vstd::prelude::*;

verus! {

/// The length of the header in bytes.
pub const HEADER_LEN: usize = 76;

/// The value of the first four bytes of a shell link: the header's length.
pub const HEADER_SIGNATURE: u32 = 0x4C;

/// The class identifier of a shell link,
/// `00021401-0000-0000-C000-000000000046`.
pub open spec fn link_class_id() -> Guid {
    Guid { data1: 0x0002_1401, data2: 0, data3: 0, data4: 0x4600_0000_0000_00C0 }
}

/// Which structures follow the header, and how the link is to be read.
///
/// The eight flags that the decoder acts on are held as fields; `bits`
/// keeps the whole field as it was read, with every other bit in it.
#[derive(Debug, Clone, Copy, PartialEq, Eq, Structural)]
pub struct LinkFlags {
    /// The flags field as read.
    pub bits: u32,
    /// A target identifier list follows the header.
    pub has_link_target_id_list: bool,
    /// A link-location descriptor is present.
    pub has_link_info: bool,
    /// A name string is present.
    pub has_name: bool,
    /// A relative-path string is present.
    pub has_relative_path: bool,
    /// A working-directory string is present.
    pub has_working_dir: bool,
    /// A command-line-arguments string is present.
    pub has_arguments: bool,
    /// An icon-location string is present.
    pub has_icon_location: bool,
    /// The strings are UTF-16; without it they are 8-bit.
    pub is_unicode: bool,
}

/// The flags that the field value `bits` stands for.
pub open spec fn link_flags_of(bits: u32) -> LinkFlags {
    LinkFlags {
        bits,
        has_link_target_id_list: bits & 0x01 != 0,
        has_link_info: bits & 0x02 != 0,
        has_name: bits & 0x04 != 0,
        has_relative_path: bits & 0x08 != 0,
        has_working_dir: bits & 0x10 != 0,
        has_arguments: bits & 0x20 != 0,
        has_icon_location: bits & 0x40 != 0,
        is_unicode: bits & 0x80 != 0,
    }
}

impl LinkFlags {
    /// The flags that the field value `bits` stands for.
    pub fn from_bits(bits: u32) -> (r: LinkFlags)
        ensures
            r == link_flags_of(bits),
    {
        LinkFlags {
            bits,
            has_link_target_id_list: bits & 0x01 != 0,
            has_link_info: bits & 0x02 != 0,
            has_name: bits & 0x04 != 0,
            has_relative_path: bits & 0x08 != 0,
            has_working_dir: bits & 0x10 != 0,
            has_arguments: bits & 0x20 != 0,
            has_icon_location: bits & 0x40 != 0,
            is_unicode: bits & 0x80 != 0,
        }
    }
}

/// How the window of the started target is to be shown.
#[derive(Debug, Clone, Copy, PartialEq, Eq, Structural)]
pub enum ShowCommand {
    /// The window is shown in its normal size (1).
    Normal,
    /// The window is shown maximized (3).
    Maximized,
    /// The window is shown minimized, without focus (7).
    Minimized,
    /// A value that the format does not define, kept as read.
    Other(u32),
}

/// The show command that the field value `value` stands for.
pub open spec fn show_command_of(value: u32) -> ShowCommand {
    if value == 1 {
        ShowCommand::Normal
    } else if value == 3 {
        ShowCommand::Maximized
    } else if value == 7 {
        ShowCommand::Minimized
    } else {
        ShowCommand::Other(value)
    }
}

impl ShowCommand {
    /// The show command that the field value `value` stands for.
    pub fn from_u32(value: u32) -> (r: ShowCommand)
        ensures
            r == show_command_of(value),
    {
        if value == 1 {
            ShowCommand::Normal
        } else if value == 3 {
            ShowCommand::Maximized
        } else if value == 7 {
            ShowCommand::Minimized
        } else {
            ShowCommand::Other(value)
        }
    }

    /// The field value that the show command was read from.
    pub fn value(&self) -> (v: u32)
        ensures
            v == (match *self {
                ShowCommand::Normal => 1u32,
                ShowCommand::Maximized => 3u32,
                ShowCommand::Minimized => 7u32,
                ShowCommand::Other(w) => w,
            }),
    {
        match self {
            ShowCommand::Normal => 1,
            ShowCommand::Maximized => 3,
            ShowCommand::Minimized => 7,
            ShowCommand::Other(w) => *w,
        }
    }
}

/// Every field value reads back from the show command that it gave.
pub proof fn lemma_show_command_keeps_value(value: u32)
    ensures
        (match show_command_of(value) {
            ShowCommand::Normal => 1u32,
            ShowCommand::Maximized => 3u32,
            ShowCommand::Minimized => 7u32,
            ShowCommand::Other(w) => w,
        }) == value,
{
}

/// The keystroke that activates the link.
#[derive(Debug, Clone, Copy, PartialEq, Eq, Structural)]
pub struct HotKey {
    /// The virtual key code.
    pub key: u8,
    /// The modifier keys, one bit each.
    pub modifiers: u8,
}

/// The signed value that the 32 bits of `raw` stand for in two's complement.
pub open spec fn signed32(raw: u32) -> i32 {
    if raw < 0x8000_0000 {
        raw as i32
    } else {
        (raw - 0x1_0000_0000) as i32
    }
}

/// The header of a shell link.
#[derive(Debug, Clone, Copy, PartialEq, Eq, Structural)]
pub struct ShellLinkHeader {
    /// The length of the header, which doubles as the format's signature.
    pub header_size: u32,
    /// The class identifier.
    pub class_id: Guid,
    /// Which structures follow, and how to read them.
    pub flags: LinkFlags,
    /// The file attributes of the target, one bit each.
    pub file_attributes: u32,
    /// When the target was created, in 100-nanosecond ticks since 1601.
    pub ctime: u64,
    /// When the target was last accessed, in 100-nanosecond ticks since 1601.
    pub atime: u64,
    /// When the target was last written, in 100-nanosecond ticks since 1601.
    pub mtime: u64,
    /// The low 32 bits of the target's size in bytes.
    pub file_size: u32,
    /// The index of the icon within its location.
    pub icon_index: i32,
    /// How the target's window is to be shown.
    pub show_command: ShowCommand,
    /// The keystroke that activates the link.
    pub hotkey: HotKey,
}

/// The header at the start of `s`.
///
/// It is refused where `s` is shorter than the header, where the first four
/// bytes are not the signature, and where the class identifier is not that
/// of a shell link. Every other field is taken as it is.
pub open spec fn spec_header(s: Seq<u8>) -> Result<ShellLinkHeader, LnkError> {
    if s.len() < HEADER_LEN {
        Err(LnkError::FormatError)
    } else if le32(s, 0) != HEADER_SIGNATURE {
        Err(LnkError::FormatError)
    } else if guid_at(s, 4) != link_class_id() {
        Err(LnkError::FormatError)
    } else {
        Ok(
            ShellLinkHeader {
                header_size: le32(s, 0),
                class_id: guid_at(s, 4),
                flags: link_flags_of(le32(s, 20)),
                file_attributes: le32(s, 24),
                ctime: le64(s, 28),
                atime: le64(s, 36),
                mtime: le64(s, 44),
                file_size: le32(s, 52),
                icon_index: signed32(le32(s, 56)),
                show_command: show_command_of(le32(s, 60)),
                hotkey: HotKey { key: s[64], modifiers: s[65] },
            },
        )
    }
}

impl ShellLinkHeader {
    /// Decodes the header at the start of `buf`.
    pub fn from_buffer(buf: &[u8]) -> (r: Result<ShellLinkHeader, LnkError>)
        ensures
            r == spec_header(buf@),
    {
        if buf.len() < HEADER_LEN {
            return Err(LnkError::FormatError);
        }
        let header_size: u32 = read_u32_le(buf, 0);
        if header_size != HEADER_SIGNATURE {
            return Err(LnkError::FormatError);
        }
        let class_id = read_guid(buf, 4);
        if class_id.data1 != 0x0002_1401 || class_id.data2 != 0 || class_id.data3 != 0
            || class_id.data4 != 0x4600_0000_0000_00C0 {
            return Err(LnkError::FormatError);
        }
        let raw_icon: u32 = read_u32_le(buf, 56);
        let icon_index: i32 = if raw_icon < 0x8000_0000 {
            raw_icon as i32
        } else {
            (raw_icon as i64 - 0x1_0000_0000) as i32
        };
        Ok(
            ShellLinkHeader {
                header_size,
                class_id,
                flags: LinkFlags::from_bits(read_u32_le(buf, 20)),
                file_attributes: read_u32_le(buf, 24),
                ctime: read_u64_le(buf, 28),
                atime: read_u64_le(buf, 36),
                mtime: read_u64_le(buf, 44),
                file_size: read_u32_le(buf, 52),
                icon_index,
                show_command: ShowCommand::from_u32(read_u32_le(buf, 60)),
                hotkey: HotKey { key: buf[64], modifiers: buf[65] },
            },
        )
    }
}

} // verus!
