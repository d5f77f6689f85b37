use lnk::error::LnkError;
use lnk::format::{format_decimal, format_hex4, format_serial};
use lnk::link_info::volume_id::{VolumeID, VolumeIDDriveType};

fn volume_bytes(drive: u32, serial: u32, label_offset: u32, rest: &[u8]) -> Vec<u8> {
    let size = 16 + rest.len() as u32;
    let mut out = Vec::new();
    out.extend_from_slice(&size.to_le_bytes());
    out.extend_from_slice(&drive.to_le_bytes());
    out.extend_from_slice(&serial.to_le_bytes());
    out.extend_from_slice(&label_offset.to_le_bytes());
    out.extend_from_slice(rest);
    out
}

fn utf16_bytes(text: &str) -> Vec<u8> {
    let mut out = Vec::new();
    for unit in text.encode_utf16() {
        out.extend_from_slice(&unit.to_le_bytes());
    }
    out
}

#[test]
fn serial_number_is_two_groups_of_four_hex_digits() {
    assert_eq!(format_serial(0x1A2B3C4D), "1A2B-3C4D");
    assert_eq!(format_serial(0x00000000), "0000-0000");
    assert_eq!(format_serial(0xFFFFFFFF), "FFFF-FFFF");
    assert_eq!(format_serial(0x0001000A), "0001-000A");
}

#[test]
fn hex4_pads_with_zeros() {
    assert_eq!(format_hex4(0), "0000");
    assert_eq!(format_hex4(0xBEEF), "BEEF");
    assert_eq!(format_hex4(0x9), "0009");
}

#[test]
fn decimal_has_no_leading_zeros() {
    assert_eq!(format_decimal(0), "0");
    assert_eq!(format_decimal(7), "7");
    assert_eq!(format_decimal(10), "10");
    assert_eq!(format_decimal(4294967295), "4294967295");
    assert_eq!(format_decimal(1005), "1005");
}

#[test]
fn drive_type_codes() {
    assert_eq!(VolumeIDDriveType::from(0), VolumeIDDriveType::DRIVE_UNKNOWN);
    assert_eq!(VolumeIDDriveType::from(1), VolumeIDDriveType::DRIVE_NO_ROOT_DIR);
    assert_eq!(VolumeIDDriveType::from(2), VolumeIDDriveType::DRIVE_REMOVABLE);
    assert_eq!(VolumeIDDriveType::from(3), VolumeIDDriveType::DRIVE_FIXED);
    assert_eq!(VolumeIDDriveType::from(4), VolumeIDDriveType::DRIVE_REMOTE);
    assert_eq!(VolumeIDDriveType::from(5), VolumeIDDriveType::DRIVE_CDROM);
    assert_eq!(VolumeIDDriveType::from(6), VolumeIDDriveType::DRIVE_RAMDISK);
    assert_eq!(VolumeIDDriveType::from(7), VolumeIDDriveType::DRIVE_UNKNOWN);
    assert_eq!(VolumeIDDriveType::from(u32::MAX), VolumeIDDriveType::DRIVE_UNKNOWN);
}

#[test]
fn volume_with_an_8_bit_label() {
    let bytes = volume_bytes(3, 0x1A2B3C4D, 0x10, b"DATA\0");
    let v = VolumeID::from_buffer(&bytes).unwrap();
    assert_eq!(v.size, 21);
    assert_eq!(v.drive_type, VolumeIDDriveType::DRIVE_FIXED);
    assert_eq!(v.serial_number, "1A2B-3C4D");
    assert_eq!(v.volume_lable_offset, 0x10);
    assert_eq!(v.volume_lable_offset_unicode, None);
    assert_eq!(v.volume_lable, Some("DATA".to_string()));
}

#[test]
fn label_offset_zero_means_no_label() {
    let bytes = volume_bytes(2, 0, 0, b"DATA\0");
    let v = VolumeID::from_buffer(&bytes).unwrap();
    assert_eq!(v.drive_type, VolumeIDDriveType::DRIVE_REMOVABLE);
    assert_eq!(v.serial_number, "0000-0000");
    assert_eq!(v.volume_lable_offset_unicode, None);
    assert_eq!(v.volume_lable, None);
}

#[test]
fn sentinel_offset_resolves_the_label_through_the_unicode_offset() {
    // The unicode offset field follows the fixed fields, and the label it.
    let mut rest = Vec::new();
    rest.extend_from_slice(&0x14u32.to_le_bytes());
    rest.extend_from_slice(&utf16_bytes("Wín\0"));
    let bytes = volume_bytes(5, 0xDEADBEEF, 0x14, &rest);
    let v = VolumeID::from_buffer(&bytes).unwrap();
    assert_eq!(v.drive_type, VolumeIDDriveType::DRIVE_CDROM);
    assert_eq!(v.serial_number, "DEAD-BEEF");
    assert_eq!(v.volume_lable_offset, 0x14);
    assert_eq!(v.volume_lable_offset_unicode, Some(0x14));
    assert_eq!(v.volume_lable, Some("Wín".to_string()));
}

#[test]
fn sentinel_offset_with_unicode_offset_zero_has_no_label() {
    let mut rest = Vec::new();
    rest.extend_from_slice(&0u32.to_le_bytes());
    rest.extend_from_slice(b"DATA\0");
    let bytes = volume_bytes(3, 1, 0x14, &rest);
    let v = VolumeID::from_buffer(&bytes).unwrap();
    assert_eq!(v.volume_lable_offset_unicode, Some(0));
    assert_eq!(v.volume_lable, None);
}

#[test]
fn sentinel_offset_needs_the_unicode_offset_field() {
    let bytes = volume_bytes(3, 1, 0x14, b"");
    assert_eq!(VolumeID::from_buffer(&bytes), Err(LnkError::TruncatedDataError));
}

#[test]
fn unreadable_labels_are_absent() {
    // no terminator inside the declared size
    let v = VolumeID::from_buffer(&volume_bytes(3, 1, 0x10, b"DATA")).unwrap();
    assert_eq!(v.volume_lable, None);
    // not valid UTF-8
    let v = VolumeID::from_buffer(&volume_bytes(3, 1, 0x10, &[0xFF, 0xFE, 0x00])).unwrap();
    assert_eq!(v.volume_lable, None);
    // empty
    let v = VolumeID::from_buffer(&volume_bytes(3, 1, 0x10, &[0x00])).unwrap();
    assert_eq!(v.volume_lable, None);
    // offset past the end
    let v = VolumeID::from_buffer(&volume_bytes(3, 1, 0x400, b"DATA\0")).unwrap();
    assert_eq!(v.volume_lable, None);
    // offset into the size field
    let v = VolumeID::from_buffer(&volume_bytes(3, 1, 0x02, b"DATA\0")).unwrap();
    assert_eq!(v.volume_lable, None);
    // unpaired surrogate in a UTF-16 label
    let mut rest = Vec::new();
    rest.extend_from_slice(&0x14u32.to_le_bytes());
    rest.extend_from_slice(&[0x00, 0xD8, 0x41, 0x00, 0x00, 0x00]);
    let v = VolumeID::from_buffer(&volume_bytes(3, 1, 0x14, &rest)).unwrap();
    assert_eq!(v.volume_lable, None);
}

#[test]
fn label_is_read_from_the_declared_bytes_only() {
    let mut bytes = volume_bytes(3, 1, 0x10, b"DATA");
    // the terminator lies after the declared size
    bytes.push(0);
    let v = VolumeID::from_buffer(&bytes).unwrap();
    assert_eq!(v.size, 20);
    assert_eq!(v.volume_lable, None);
}

#[test]
fn truncated_volume_structures_fail() {
    assert_eq!(VolumeID::from_buffer(&[]), Err(LnkError::TruncatedDataError));
    assert_eq!(VolumeID::from_buffer(&[0x10, 0, 0]), Err(LnkError::TruncatedDataError));
    // declares more than there is
    let mut bytes = volume_bytes(3, 1, 0, b"");
    bytes[0] = 0x40;
    assert_eq!(VolumeID::from_buffer(&bytes), Err(LnkError::TruncatedDataError));
    // declares less than the fixed fields take
    let mut bytes = volume_bytes(3, 1, 0, b"");
    bytes[0] = 0x0C;
    assert_eq!(VolumeID::from_buffer(&bytes), Err(LnkError::TruncatedDataError));
    bytes[0] = 0x02;
    assert_eq!(VolumeID::from_buffer(&bytes), Err(LnkError::TruncatedDataError));
}
