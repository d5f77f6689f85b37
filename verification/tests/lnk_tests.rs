use lnk::error::LnkError;
use lnk::extra_data::{ExtraData, ExtraDataTypes};
use lnk::guid::Guid;
use lnk::link_info::LinkInfo;
use lnk::link_target_id_list::{item_path_fragment, LinkTargetIDList};
use lnk::shell_link_header::{ShellLinkHeader, ShowCommand};
use lnk::string_data::StringData;
use lnk::{Lnk, LnkFileMetaData};

const HAS_ID_LIST: u32 = 0x01;
const HAS_LINK_INFO: u32 = 0x02;
const HAS_NAME: u32 = 0x04;
const HAS_RELATIVE_PATH: u32 = 0x08;
const HAS_WORKING_DIR: u32 = 0x10;
const HAS_ARGUMENTS: u32 = 0x20;
const HAS_ICON_LOCATION: u32 = 0x40;
const IS_UNICODE: u32 = 0x80;

// 2020-01-01T00:00:00Z, 2020-01-02T03:04:05Z and 1601-01-01T00:00:01Z
const WRITE_TIME: u64 = 132223104000000000;
const ACCESS_TIME: u64 = 132224078450000000;
const CREATION_TIME: u64 = 10000000;

fn header(flags: u32) -> Vec<u8> {
    let mut out = Vec::new();
    out.extend_from_slice(&0x4Cu32.to_le_bytes());
    out.extend_from_slice(&[
        0x01, 0x14, 0x02, 0x00, 0x00, 0x00, 0x00, 0x00, 0xC0, 0x00, 0x00, 0x00, 0x00, 0x00, 0x00,
        0x46,
    ]);
    out.extend_from_slice(&flags.to_le_bytes());
    out.extend_from_slice(&0x20u32.to_le_bytes());
    out.extend_from_slice(&CREATION_TIME.to_le_bytes());
    out.extend_from_slice(&ACCESS_TIME.to_le_bytes());
    out.extend_from_slice(&WRITE_TIME.to_le_bytes());
    out.extend_from_slice(&123456u32.to_le_bytes());
    out.extend_from_slice(&(-2i32).to_le_bytes());
    out.extend_from_slice(&3u32.to_le_bytes());
    out.extend_from_slice(&[0x41, 0x06]);
    out.extend_from_slice(&[0u8; 10]);
    assert_eq!(out.len(), 76);
    out
}

fn unicode_string(text: &str) -> Vec<u8> {
    let units: Vec<u16> = text.encode_utf16().collect();
    let mut out = Vec::new();
    out.extend_from_slice(&(units.len() as u16).to_le_bytes());
    for unit in units {
        out.extend_from_slice(&unit.to_le_bytes());
    }
    out
}

fn ansi_string(text: &[u8]) -> Vec<u8> {
    let mut out = Vec::new();
    out.extend_from_slice(&(text.len() as u16).to_le_bytes());
    out.extend_from_slice(text);
    out
}

fn file_entry_item(name: &[u8]) -> Vec<u8> {
    let mut data = vec![0x32, 0x00];
    data.extend_from_slice(&9u32.to_le_bytes());
    data.extend_from_slice(&0u32.to_le_bytes());
    data.extend_from_slice(&0x20u16.to_le_bytes());
    data.extend_from_slice(name);
    data.push(0);
    data
}

fn id_list(items: &[Vec<u8>]) -> Vec<u8> {
    let mut body = Vec::new();
    for item in items {
        body.extend_from_slice(&((item.len() + 2) as u16).to_le_bytes());
        body.extend_from_slice(item);
    }
    body.extend_from_slice(&[0, 0]);
    let mut out = Vec::new();
    out.extend_from_slice(&(body.len() as u16).to_le_bytes());
    out.extend_from_slice(&body);
    out
}

fn volume() -> Vec<u8> {
    let mut out = Vec::new();
    out.extend_from_slice(&21u32.to_le_bytes());
    out.extend_from_slice(&3u32.to_le_bytes());
    out.extend_from_slice(&0x1A2B3C4Du32.to_le_bytes());
    out.extend_from_slice(&0x10u32.to_le_bytes());
    out.extend_from_slice(b"DATA\0");
    out
}

fn network_link(flags: u32) -> Vec<u8> {
    let share = b"\\\\srv\\share\0";
    let device = b"Z:\0";
    let mut out = Vec::new();
    out.extend_from_slice(&((20 + share.len() + device.len()) as u32).to_le_bytes());
    out.extend_from_slice(&flags.to_le_bytes());
    out.extend_from_slice(&20u32.to_le_bytes());
    out.extend_from_slice(&((20 + share.len()) as u32).to_le_bytes());
    out.extend_from_slice(&0x00020000u32.to_le_bytes());
    out.extend_from_slice(share);
    out.extend_from_slice(device);
    out
}

/// A descriptor with a volume, the base path `C:\tools`, a share and the
/// suffix `run.exe`; `flags` says which of them it announces.
fn link_info(flags: u32) -> Vec<u8> {
    let volume = volume();
    let base = b"C:\\tools\0";
    let share = network_link(3);
    let suffix = b"run.exe\0";
    let volume_at = 28u32;
    let base_at = volume_at + volume.len() as u32;
    let share_at = base_at + base.len() as u32;
    let suffix_at = share_at + share.len() as u32;
    let size = suffix_at + suffix.len() as u32;
    let mut out = Vec::new();
    out.extend_from_slice(&size.to_le_bytes());
    out.extend_from_slice(&0x1Cu32.to_le_bytes());
    out.extend_from_slice(&flags.to_le_bytes());
    out.extend_from_slice(&volume_at.to_le_bytes());
    out.extend_from_slice(&base_at.to_le_bytes());
    out.extend_from_slice(&share_at.to_le_bytes());
    out.extend_from_slice(&suffix_at.to_le_bytes());
    out.extend_from_slice(&volume);
    out.extend_from_slice(base);
    out.extend_from_slice(&share);
    out.extend_from_slice(suffix);
    assert_eq!(out.len() as u32, size);
    out
}

fn tracker(machine: &[u8]) -> Vec<u8> {
    let mut out = Vec::new();
    out.extend_from_slice(&0x60u32.to_le_bytes());
    out.extend_from_slice(&0xA0000003u32.to_le_bytes());
    out.extend_from_slice(&0x58u32.to_le_bytes());
    out.extend_from_slice(&0u32.to_le_bytes());
    let mut field = [0u8; 16];
    field[..machine.len()].copy_from_slice(machine);
    out.extend_from_slice(&field);
    for n in 1u8..=4 {
        out.extend_from_slice(&[n; 16]);
    }
    assert_eq!(out.len(), 96);
    out
}

fn other_block(signature: u32, data: &[u8]) -> Vec<u8> {
    let mut out = Vec::new();
    out.extend_from_slice(&((8 + data.len()) as u32).to_le_bytes());
    out.extend_from_slice(&signature.to_le_bytes());
    out.extend_from_slice(data);
    out
}

fn whole_link() -> Vec<u8> {
    let mut bytes = header(HAS_ID_LIST | HAS_LINK_INFO | HAS_NAME | HAS_ARGUMENTS | IS_UNICODE);
    bytes.extend_from_slice(&id_list(&[vec![0x1F, 0x50, 0xAA], file_entry_item(b"other.txt")]));
    bytes.extend_from_slice(&link_info(3));
    bytes.extend_from_slice(&unicode_string("a tool"));
    bytes.extend_from_slice(&unicode_string("--fast"));
    bytes.extend_from_slice(&tracker(b"desktop-abc"));
    bytes.extend_from_slice(&[0, 0, 0, 0]);
    bytes
}

#[test]
fn header_fields_are_taken_as_they_are() {
    let h = ShellLinkHeader::from_buffer(&header(0xFFFF_FF85)).unwrap();
    assert_eq!(h.header_size, 0x4C);
    assert_eq!(
        h.class_id,
        Guid { data1: 0x00021401, data2: 0, data3: 0, data4: 0x4600_0000_0000_00C0 }
    );
    assert_eq!(h.flags.bits, 0xFFFF_FF85);
    assert!(h.flags.has_link_target_id_list);
    assert!(!h.flags.has_link_info);
    assert!(h.flags.has_name);
    assert!(!h.flags.has_relative_path);
    assert!(!h.flags.has_working_dir);
    assert!(!h.flags.has_arguments);
    assert!(!h.flags.has_icon_location);
    assert!(h.flags.is_unicode);
    assert_eq!(h.file_attributes, 0x20);
    assert_eq!(h.ctime, CREATION_TIME);
    assert_eq!(h.atime, ACCESS_TIME);
    assert_eq!(h.mtime, WRITE_TIME);
    assert_eq!(h.file_size, 123456);
    assert_eq!(h.icon_index, -2);
    assert_eq!(h.show_command, ShowCommand::Maximized);
    assert_eq!(h.hotkey.key, 0x41);
    assert_eq!(h.hotkey.modifiers, 0x06);
}

#[test]
fn show_command_keeps_unknown_values() {
    assert_eq!(ShowCommand::from_u32(1), ShowCommand::Normal);
    assert_eq!(ShowCommand::from_u32(3), ShowCommand::Maximized);
    assert_eq!(ShowCommand::from_u32(7), ShowCommand::Minimized);
    assert_eq!(ShowCommand::from_u32(0), ShowCommand::Other(0));
    assert_eq!(ShowCommand::from_u32(99), ShowCommand::Other(99));
    assert_eq!(ShowCommand::from_u32(99).value(), 99);
    assert_eq!(ShowCommand::Minimized.value(), 7);
    let mut bytes = header(0);
    bytes[60] = 0x2A;
    let h = ShellLinkHeader::from_buffer(&bytes).unwrap();
    assert_eq!(h.show_command, ShowCommand::Other(0x2A));
}

#[test]
fn header_is_refused_for_its_length_signature_or_class() {
    assert_eq!(ShellLinkHeader::from_buffer(&[]), Err(LnkError::FormatError));
    assert_eq!(ShellLinkHeader::from_buffer(&header(0)[..75]), Err(LnkError::FormatError));
    let mut bytes = header(0);
    bytes[0] = 0x4D;
    assert_eq!(ShellLinkHeader::from_buffer(&bytes), Err(LnkError::FormatError));
    assert_eq!(Lnk::from_buffer(&bytes), Err(LnkError::FormatError));
    let mut bytes = header(0);
    bytes[19] = 0x47;
    assert_eq!(ShellLinkHeader::from_buffer(&bytes), Err(LnkError::FormatError));
    let mut bytes = header(0);
    bytes[12] = 0xC1;
    assert_eq!(Lnk::from_buffer(&bytes), Err(LnkError::FormatError));
}

#[test]
fn error_messages_differ() {
    assert_eq!(LnkError::FormatError.message(), "not a shell link header");
    assert_eq!(
        LnkError::TruncatedDataError.message(),
        "declared length exceeds the available bytes"
    );
}

#[test]
fn string_field_in_both_encodings() {
    let s = StringData::from_buffer(&unicode_string("héllo wörld"), true).unwrap();
    assert_eq!(s.size, 11);
    assert_eq!(s.string, "héllo wörld");
    assert_eq!(s.encoded_len(true), 24);
    let s = StringData::from_buffer(&ansi_string(b"plain text"), false).unwrap();
    assert_eq!(s.size, 10);
    assert_eq!(s.string, "plain text");
    assert_eq!(s.encoded_len(false), 12);
    let s = StringData::from_buffer(&[0, 0], true).unwrap();
    assert_eq!(s.size, 0);
    assert_eq!(s.string, "");
}

#[test]
fn string_field_replaces_what_is_ill_formed() {
    // an unpaired surrogate between two letters
    let bytes = [3, 0, 0x41, 0x00, 0x00, 0xD8, 0x42, 0x00];
    let s = StringData::from_buffer(&bytes, true).unwrap();
    assert_eq!(s.string, "A\u{FFFD}B");
    // a byte that is no UTF-8
    let s = StringData::from_buffer(&ansi_string(&[0x41, 0xFF, 0x42]), false).unwrap();
    assert_eq!(s.string, "A\u{FFFD}B");
    // a surrogate pair is one character, and a zero is kept
    let bytes = [3, 0, 0x3D, 0xD8, 0x00, 0xDE, 0x00, 0x00];
    let s = StringData::from_buffer(&bytes, true).unwrap();
    assert_eq!(s.string, "\u{1F600}\0");
}

#[test]
fn string_field_shorter_than_declared_fails() {
    assert_eq!(StringData::from_buffer(&[], true), Err(LnkError::TruncatedDataError));
    assert_eq!(StringData::from_buffer(&[1], false), Err(LnkError::TruncatedDataError));
    assert_eq!(
        StringData::from_buffer(&[2, 0, 0x41, 0x00, 0x42], true),
        Err(LnkError::TruncatedDataError)
    );
    assert_eq!(
        StringData::from_buffer(&[3, 0, 0x41, 0x42], false),
        Err(LnkError::TruncatedDataError)
    );
}

#[test]
fn header_claiming_a_name_with_nothing_after_it_is_truncated() {
    assert_eq!(Lnk::from_buffer(&header(HAS_NAME)), Err(LnkError::TruncatedDataError));
    assert_eq!(
        Lnk::from_buffer(&header(HAS_NAME | IS_UNICODE)),
        Err(LnkError::TruncatedDataError)
    );
    assert_eq!(Lnk::from_buffer(&header(HAS_ID_LIST)), Err(LnkError::TruncatedDataError));
    assert_eq!(Lnk::from_buffer(&header(HAS_LINK_INFO)), Err(LnkError::TruncatedDataError));
}

#[test]
fn id_list_items_in_order() {
    let bytes = id_list(&[vec![1, 2, 3], vec![], vec![9]]);
    let list = LinkTargetIDList::from_buffer(&bytes).unwrap();
    assert_eq!(list.size, 12);
    assert_eq!(list.items, vec![vec![1, 2, 3], vec![], vec![9]]);
    assert_eq!(list.encoded_len(), 14);
    let list = LinkTargetIDList::from_buffer(&[2, 0, 0, 0, 0xEE]).unwrap();
    assert_eq!(list.items, Vec::<Vec<u8>>::new());
    assert_eq!(list.encoded_len(), 4);
}

#[test]
fn id_list_that_does_not_fit_fails() {
    assert_eq!(LinkTargetIDList::from_buffer(&[]), Err(LnkError::TruncatedDataError));
    assert_eq!(LinkTargetIDList::from_buffer(&[9, 0, 0, 0]), Err(LnkError::TruncatedDataError));
    // no terminator within the declared size
    assert_eq!(
        LinkTargetIDList::from_buffer(&[3, 0, 3, 0, 7, 0, 0]),
        Err(LnkError::TruncatedDataError)
    );
    // an item that reaches past the declared size
    assert_eq!(
        LinkTargetIDList::from_buffer(&[4, 0, 9, 0, 0, 0, 1, 2, 3, 4, 5]),
        Err(LnkError::TruncatedDataError)
    );
    // an item too short to hold its own length
    assert_eq!(
        LinkTargetIDList::from_buffer(&[4, 0, 1, 0, 0, 0]),
        Err(LnkError::TruncatedDataError)
    );
    // nothing declared at all
    assert_eq!(LinkTargetIDList::from_buffer(&[0, 0]), Err(LnkError::TruncatedDataError));
}

#[test]
fn path_fragment_is_the_first_file_entry_name() {
    assert_eq!(item_path_fragment(&file_entry_item(b"run.exe")), Some("run.exe".to_string()));
    assert_eq!(item_path_fragment(&[0x1F, 0x50, 0xAA]), None);
    assert_eq!(item_path_fragment(&file_entry_item(b"")), None);
    assert_eq!(item_path_fragment(&file_entry_item(&[0xC3])), None);
    // a file entry with a UTF-16 name
    let mut item = vec![0x36, 0x00];
    item.extend_from_slice(&[0u8; 10]);
    item.extend_from_slice(&[0x61, 0x00, 0xE9, 0x00, 0x00, 0x00]);
    assert_eq!(item_path_fragment(&item), Some("aé".to_string()));
    let bytes = id_list(&[
        vec![0x1F, 0x50, 0xAA],
        file_entry_item(b""),
        file_entry_item(b"first"),
        file_entry_item(b"second"),
    ]);
    let list = LinkTargetIDList::from_buffer(&bytes).unwrap();
    assert_eq!(list.path(), Some("first".to_string()));
    let list = LinkTargetIDList::from_buffer(&id_list(&[vec![0x1F, 0x50]])).unwrap();
    assert_eq!(list.path(), None);
}

#[test]
fn link_info_with_both_flags() {
    let info = LinkInfo::from_buffer(&link_info(3)).unwrap();
    assert_eq!(info.size as usize, link_info(3).len());
    assert_eq!(info.encoded_len(), link_info(3).len());
    assert_eq!(info.header_size, 0x1C);
    assert!(info.flags.volume_id_and_local_base_path);
    assert!(info.flags.common_network_relative_link_and_path_suffix);
    assert_eq!(info.volume_id_offset, 28);
    assert_eq!(info.local_base_path_offset_unicode, None);
    assert_eq!(info.common_path_suffix_offset_unicode, None);
    let volume = info.volume_id.clone().unwrap();
    assert_eq!(volume.serial_number, "1A2B-3C4D");
    assert_eq!(volume.volume_lable, Some("DATA".to_string()));
    assert_eq!(info.local_base_path, Some("C:\\tools".to_string()));
    let share = info.common_network_relative_link.clone().unwrap();
    assert_eq!(share.net_name, Some("\\\\srv\\share".to_string()));
    assert_eq!(share.device_name, Some("Z:".to_string()));
    assert_eq!(share.network_provider_type, Some(0x00020000));
    assert_eq!(info.common_path_suffix, Some("run.exe".to_string()));
    assert_eq!(info.local_base_path_unicode, None);
    assert_eq!(info.common_path_suffix_unicode, None);
    assert_eq!(info.path(), Some("C:\\tools\\run.exe".to_string()));
}

#[test]
fn link_info_reads_only_what_its_flags_announce() {
    let info = LinkInfo::from_buffer(&link_info(2)).unwrap();
    assert_eq!(info.volume_id, None);
    assert_eq!(info.local_base_path, None);
    assert!(info.common_network_relative_link.is_some());
    assert_eq!(info.common_path_suffix, Some("run.exe".to_string()));
    assert_eq!(info.path(), Some("\\\\srv\\share\\run.exe".to_string()));
    let info = LinkInfo::from_buffer(&link_info(1)).unwrap();
    assert!(info.volume_id.is_some());
    assert_eq!(info.local_base_path, Some("C:\\tools".to_string()));
    assert_eq!(info.common_network_relative_link, None);
    assert_eq!(info.common_path_suffix, None);
    assert_eq!(info.path(), None);
    let info = LinkInfo::from_buffer(&link_info(0)).unwrap();
    assert_eq!(info.volume_id, None);
    assert_eq!(info.local_base_path, None);
    assert_eq!(info.common_network_relative_link, None);
    assert_eq!(info.common_path_suffix, None);
    assert_eq!(info.path(), None);
}

#[test]
fn network_link_takes_only_what_its_flags_call_valid() {
    let mut bytes = link_info(2);
    // clear both flags of the network structure
    let share_at = u32::from_le_bytes([bytes[20], bytes[21], bytes[22], bytes[23]]) as usize;
    bytes[share_at + 4] = 0;
    let info = LinkInfo::from_buffer(&bytes).unwrap();
    let share = info.common_network_relative_link.unwrap();
    assert_eq!(share.flags, 0);
    assert_eq!(share.net_name, Some("\\\\srv\\share".to_string()));
    assert_eq!(share.device_name, None);
    assert_eq!(share.network_provider_type, None);
}

#[test]
fn link_info_with_unicode_offsets() {
    let base = b"C:\\t\0";
    let suffix = b"x\0";
    let base16: Vec<u8> = "C:\\tööls\0".encode_utf16().flat_map(|u| u.to_le_bytes()).collect();
    let volume = volume();
    let share = network_link(0);
    let volume_at = 36u32;
    let base_at = volume_at + volume.len() as u32;
    let share_at = base_at + base.len() as u32;
    let suffix_at = share_at + share.len() as u32;
    let base16_at = suffix_at + suffix.len() as u32;
    let size = base16_at + base16.len() as u32;
    let mut bytes = Vec::new();
    for field in [size, 0x24, 3, volume_at, base_at, share_at, suffix_at, base16_at, 0] {
        bytes.extend_from_slice(&field.to_le_bytes());
    }
    bytes.extend_from_slice(&volume);
    bytes.extend_from_slice(base);
    bytes.extend_from_slice(&share);
    bytes.extend_from_slice(suffix);
    bytes.extend_from_slice(&base16);
    let info = LinkInfo::from_buffer(&bytes).unwrap();
    assert_eq!(info.local_base_path_offset_unicode, Some(base16_at));
    assert_eq!(info.common_path_suffix_offset_unicode, Some(0));
    assert_eq!(info.local_base_path, Some("C:\\t".to_string()));
    assert_eq!(info.local_base_path_unicode, Some("C:\\tööls".to_string()));
    assert_eq!(info.common_path_suffix_unicode, None);
    assert_eq!(info.path(), Some("C:\\t\\x".to_string()));
    // the UTF-16 string loses its terminator
    let cut = bytes.len() - 2;
    let mut short = bytes[..cut].to_vec();
    short[0..4].copy_from_slice(&(cut as u32).to_le_bytes());
    assert_eq!(LinkInfo::from_buffer(&short), Err(LnkError::TruncatedDataError));
}

#[test]
fn link_info_that_does_not_fit_fails() {
    assert_eq!(LinkInfo::from_buffer(&[]), Err(LnkError::TruncatedDataError));
    let whole = link_info(3);
    assert_eq!(
        LinkInfo::from_buffer(&whole[..whole.len() - 1]),
        Err(LnkError::TruncatedDataError)
    );
    // the declared size cuts the suffix before its terminator
    let mut bytes = whole.clone();
    let cut = (whole.len() - 1) as u32;
    bytes[0..4].copy_from_slice(&cut.to_le_bytes());
    assert_eq!(LinkInfo::from_buffer(&bytes), Err(LnkError::TruncatedDataError));
    // an offset that points outside the declared bytes
    let mut bytes = whole.clone();
    bytes[12..16].copy_from_slice(&0x1000u32.to_le_bytes());
    assert_eq!(LinkInfo::from_buffer(&bytes), Err(LnkError::TruncatedDataError));
    // without the flag, the same offset is never followed
    bytes[8] = 2;
    assert!(LinkInfo::from_buffer(&bytes).is_ok());
    // smaller than its fixed fields
    let mut bytes = whole.clone();
    bytes[0..4].copy_from_slice(&20u32.to_le_bytes());
    assert_eq!(LinkInfo::from_buffer(&bytes), Err(LnkError::TruncatedDataError));
}

#[test]
fn path_joins_with_one_backslash() {
    assert_eq!(lnk::text::join("C:\\tools", "run.exe"), "C:\\tools\\run.exe");
    assert_eq!(lnk::text::join("C:\\", "run.exe"), "C:\\run.exe");
    assert_eq!(lnk::text::join("C:\\tools\\run.exe", ""), "C:\\tools\\run.exe");
    assert_eq!(lnk::text::join("", "run.exe"), "run.exe");
    assert_eq!(lnk::text::join("", ""), "");
}

#[test]
fn tracker_block_followed_by_garbage() {
    let mut bytes = tracker(b"desktop-abc");
    bytes.extend_from_slice(&[0xDE, 0xAD, 0xBE]);
    let extra = ExtraData::from_buffer(&bytes).unwrap();
    assert_eq!(extra.extra_data_blocks.len(), 1);
    match &extra.extra_data_blocks[0] {
        ExtraDataTypes::Tracker(t) => {
            assert_eq!(t.size, 0x60);
            assert_eq!(t.length, 0x58);
            assert_eq!(t.version, 0);
            assert_eq!(t.machine_id, "desktop-abc");
            assert_eq!(
                t.droid_volume,
                Guid {
                    data1: 0x01010101,
                    data2: 0x0101,
                    data3: 0x0101,
                    data4: 0x0101010101010101
                }
            );
            assert_eq!(t.droid_file.data1, 0x02020202);
            assert_eq!(t.birth_droid_volume.data2, 0x0303);
            assert_eq!(t.birth_droid_file.data4, 0x0404040404040404);
        },
        ExtraDataTypes::Other(_) => panic!("a tracker block was expected"),
    }
    assert_eq!(extra.tracker_machine_id(), Some(&"desktop-abc".to_string()));
}

#[test]
fn unknown_blocks_are_kept() {
    let mut bytes = other_block(0xA0000005, &[1, 2, 3, 4]);
    bytes.extend_from_slice(&tracker(b"first"));
    bytes.extend_from_slice(&other_block(0xA0000003, &[7; 8]));
    bytes.extend_from_slice(&tracker(b"0123456789abcdef"));
    bytes.extend_from_slice(&[0, 0, 0, 0]);
    bytes.extend_from_slice(&tracker(b"after the end"));
    let extra = ExtraData::from_buffer(&bytes).unwrap();
    assert_eq!(extra.extra_data_blocks.len(), 4);
    match &extra.extra_data_blocks[0] {
        ExtraDataTypes::Other(o) => {
            assert_eq!(o.signature, 0xA0000005);
            assert_eq!(o.data, vec![1, 2, 3, 4]);
        },
        ExtraDataTypes::Tracker(_) => panic!("an opaque block was expected"),
    }
    // a block with the tracker signature that is too short for a tracker
    match &extra.extra_data_blocks[2] {
        ExtraDataTypes::Other(o) => {
            assert_eq!(o.signature, 0xA0000003);
            assert_eq!(o.data, vec![7; 8]);
        },
        ExtraDataTypes::Tracker(_) => panic!("an opaque block was expected"),
    }
    match &extra.extra_data_blocks[3] {
        ExtraDataTypes::Tracker(t) => assert_eq!(t.machine_id, "0123456789abcdef"),
        ExtraDataTypes::Other(_) => panic!("a tracker block was expected"),
    }
    assert_eq!(extra.tracker_machine_id(), Some(&"first".to_string()));
}

#[test]
fn extra_data_that_cannot_be_read() {
    assert_eq!(ExtraData::from_buffer(&[]), Err(LnkError::TruncatedDataError));
    // a block that declares more than there is
    let whole = tracker(b"pc");
    assert_eq!(ExtraData::from_buffer(&whole[..95]), Err(LnkError::TruncatedDataError));
    // a size with no room for the signature
    assert_eq!(ExtraData::from_buffer(&[6, 0, 0, 0, 1, 2]), Err(LnkError::TruncatedDataError));
    // a good block, then a bad one
    let mut bytes = tracker(b"pc");
    bytes.extend_from_slice(&[0x40, 0, 0, 0, 1, 2, 3, 4]);
    assert_eq!(ExtraData::from_buffer(&bytes), Err(LnkError::TruncatedDataError));
    // only a terminator, or only a few bytes
    assert_eq!(ExtraData::from_buffer(&[0, 0, 0, 0]).unwrap().extra_data_blocks.len(), 0);
    assert_eq!(ExtraData::from_buffer(&[3, 0, 0, 0]).unwrap().extra_data_blocks.len(), 0);
    assert_eq!(ExtraData::from_buffer(&[9, 9]).unwrap().extra_data_blocks.len(), 0);
    let none = ExtraData::from_buffer(&[0, 0, 0, 0]).unwrap();
    assert_eq!(none.tracker_machine_id(), None);
}

#[test]
fn whole_link_decodes() {
    let link = Lnk::from_buffer(&whole_link()).unwrap();
    assert_eq!(link.shell_link_header.file_size, 123456);
    let list = link.link_target_id_list.clone().unwrap();
    assert_eq!(list.items.len(), 2);
    assert_eq!(list.path(), Some("other.txt".to_string()));
    let info = link.link_info.clone().unwrap();
    assert_eq!(info.local_base_path, Some("C:\\tools".to_string()));
    assert_eq!(link.name_string.clone().unwrap().string, "a tool");
    assert_eq!(link.relative_path, None);
    assert_eq!(link.working_dir, None);
    assert_eq!(link.command_line_arguments.clone().unwrap().string, "--fast");
    assert_eq!(link.icon_location, None);
    assert_eq!(link.extra_data.clone().unwrap().extra_data_blocks.len(), 1);
    assert_eq!(link.lnk_file_metadata, None);
    assert_eq!(link.target_full_path, Some("C:\\tools\\run.exe".to_string()));
    assert_eq!(link.path(), Some("C:\\tools\\run.exe".to_string()));
    assert_eq!(link.hostname(), Some(&"desktop-abc".to_string()));
}

#[test]
fn link_info_path_comes_before_the_id_list() {
    let mut bytes = header(HAS_ID_LIST | HAS_LINK_INFO);
    bytes.extend_from_slice(&id_list(&[file_entry_item(b"other.txt")]));
    bytes.extend_from_slice(&link_info(3));
    let link = Lnk::from_buffer(&bytes).unwrap();
    assert_eq!(link.link_target_id_list.clone().unwrap().path(), Some("other.txt".to_string()));
    assert_eq!(link.path(), Some("C:\\tools\\run.exe".to_string()));
    assert_eq!(link.target_full_path, Some("C:\\tools\\run.exe".to_string()));
    // a descriptor without a path leaves the fragment of the list
    let mut bytes = header(HAS_ID_LIST | HAS_LINK_INFO);
    bytes.extend_from_slice(&id_list(&[file_entry_item(b"other.txt")]));
    bytes.extend_from_slice(&link_info(0));
    let link = Lnk::from_buffer(&bytes).unwrap();
    assert_eq!(link.path(), Some("other.txt".to_string()));
    // and with neither, there is no path
    let link = Lnk::from_buffer(&header(0)).unwrap();
    assert_eq!(link.path(), None);
    assert_eq!(link.target_full_path, None);
}

#[test]
fn members_are_there_exactly_where_the_flags_are() {
    for flags in 0u32..128 {
        let unicode = flags & 0x40 != 0;
        let flags = (flags & 0x3F) << 1 | (flags & 1) | if unicode { IS_UNICODE } else { 0 };
        let mut bytes = header(flags);
        if flags & HAS_ID_LIST != 0 {
            bytes.extend_from_slice(&id_list(&[file_entry_item(b"f")]));
        }
        if flags & HAS_LINK_INFO != 0 {
            bytes.extend_from_slice(&link_info(3));
        }
        for (bit, text) in [
            (HAS_NAME, "name"),
            (HAS_RELATIVE_PATH, "..\\rel"),
            (HAS_WORKING_DIR, "C:\\work"),
            (HAS_ARGUMENTS, "-a -b"),
            (HAS_ICON_LOCATION, "icon.dll"),
        ] {
            if flags & bit != 0 {
                if unicode {
                    bytes.extend_from_slice(&unicode_string(text));
                } else {
                    bytes.extend_from_slice(&ansi_string(text.as_bytes()));
                }
            }
        }
        bytes.extend_from_slice(&[0, 0, 0, 0]);
        let link = Lnk::from_buffer(&bytes).unwrap();
        assert_eq!(link.link_target_id_list.is_some(), flags & HAS_ID_LIST != 0);
        assert_eq!(link.link_info.is_some(), flags & HAS_LINK_INFO != 0);
        assert_eq!(link.name_string.is_some(), flags & HAS_NAME != 0);
        assert_eq!(link.relative_path.is_some(), flags & HAS_RELATIVE_PATH != 0);
        assert_eq!(link.working_dir.is_some(), flags & HAS_WORKING_DIR != 0);
        assert_eq!(link.command_line_arguments.is_some(), flags & HAS_ARGUMENTS != 0);
        assert_eq!(link.icon_location.is_some(), flags & HAS_ICON_LOCATION != 0);
        if let Some(s) = &link.working_dir {
            assert_eq!(s.string, "C:\\work");
        }
        if let Some(s) = &link.icon_location {
            assert_eq!(s.string, "icon.dll");
        }
        assert_eq!(link.extra_data.clone().unwrap().extra_data_blocks.len(), 0);
    }
}

#[test]
fn extra_data_never_fails_the_link() {
    // nothing after the header
    let link = Lnk::from_buffer(&header(0)).unwrap();
    assert_eq!(link.extra_data, None);
    // a block that cannot be read
    let mut bytes = header(0);
    bytes.extend_from_slice(&[0x60, 0, 0, 0, 3, 0, 0, 0xA0]);
    let link = Lnk::from_buffer(&bytes).unwrap();
    assert_eq!(link.extra_data, None);
    // a tracker block and three bytes of garbage
    let mut bytes = header(0);
    bytes.extend_from_slice(&tracker(b"host"));
    bytes.extend_from_slice(&[1, 2, 3]);
    let link = Lnk::from_buffer(&bytes).unwrap();
    assert_eq!(link.extra_data.clone().unwrap().extra_data_blocks.len(), 1);
    assert_eq!(link.hostname(), Some(&"host".to_string()));
}

#[test]
fn decoding_twice_gives_the_same() {
    let bytes = whole_link();
    let first = Lnk::from_buffer(&bytes);
    let second = Lnk::from_buffer(&bytes);
    assert_eq!(first, second);
    assert!(first.is_ok());
    let bad = header(HAS_NAME);
    assert_eq!(Lnk::from_buffer(&bad), Lnk::from_buffer(&bad));
}

#[test]
fn flat_record_has_ten_keys() {
    let mut link = Lnk::from_buffer(&whole_link()).unwrap();
    let record = link.normalize();
    let expected = [
        ("target_full_path", "C:\\tools\\run.exe"),
        ("target_modification_time", "2020-01-01T00:00:00Z"),
        ("target_access_time", "2020-01-02T03:04:05Z"),
        ("target_creation_time", "1601-01-01T00:00:01Z"),
        ("target_size", "123456"),
        ("target_hostname", "desktop-abc"),
        ("lnk_full_path", ""),
        ("lnk_modification_time", ""),
        ("lnk_access_time", ""),
        ("lnk_creation_time", ""),
    ];
    assert_eq!(record.len(), 10);
    for (i, (key, value)) in expected.iter().enumerate() {
        assert_eq!(record[i].0, *key);
        assert_eq!(record[i].1, *value);
    }
    link.lnk_file_metadata = Some(LnkFileMetaData::new(
        "C:\\Users\\me\\tool.lnk".to_string(),
        WRITE_TIME,
        ACCESS_TIME,
        0,
    ));
    let record = link.normalize();
    assert_eq!(record[6], ("lnk_full_path".to_string(), "C:\\Users\\me\\tool.lnk".to_string()));
    assert_eq!(record[7].1, "2020-01-01T00:00:00Z");
    assert_eq!(record[8].1, "2020-01-02T03:04:05Z");
    assert_eq!(record[9], ("lnk_creation_time".to_string(), "1601-01-01T00:00:00Z".to_string()));
}

#[test]
fn every_tick_count_has_a_text() {
    let mut bytes = header(0);
    bytes[44..52].copy_from_slice(&u64::MAX.to_le_bytes());
    bytes[28..36].copy_from_slice(&0u64.to_le_bytes());
    let link = Lnk::from_buffer(&bytes).unwrap();
    let record = link.normalize();
    assert!(record[1].1.ends_with('Z'));
    assert!(record[1].1.contains('T'));
    assert_eq!(record[3].1, "1601-01-01T00:00:00Z");
}

#[test]
fn flat_record_of_a_bare_header() {
    let link = Lnk::from_buffer(&header(0)).unwrap();
    let record = link.normalize();
    assert_eq!(record[0], ("target_full_path".to_string(), String::new()));
    assert_eq!(record[4], ("target_size".to_string(), "123456".to_string()));
    assert_eq!(record[5], ("target_hostname".to_string(), String::new()));
}
