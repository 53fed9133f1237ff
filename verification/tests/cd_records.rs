use zipsniper::cd::{Cd, CdError};
use zipsniper::WordSize;

fn cd_entry(
    compressed: u32,
    uncompressed: u32,
    rel_offset: u32,
    disk: u16,
    name: &[u8],
    extra: &[u8],
    comment: &[u8],
) -> Vec<u8> {
    let mut v = vec![0x50, 0x4b, 0x01, 0x02];
    v.extend_from_slice(&20u16.to_le_bytes());
    v.extend_from_slice(&10u16.to_le_bytes());
    v.extend_from_slice(&2u16.to_le_bytes());
    v.extend_from_slice(&8u16.to_le_bytes());
    v.extend_from_slice(&0x6083u16.to_le_bytes());
    v.extend_from_slice(&0x5711u16.to_le_bytes());
    v.extend_from_slice(&0xcafe_f00du32.to_le_bytes());
    v.extend_from_slice(&compressed.to_le_bytes());
    v.extend_from_slice(&uncompressed.to_le_bytes());
    v.extend_from_slice(&(name.len() as u16).to_le_bytes());
    v.extend_from_slice(&(extra.len() as u16).to_le_bytes());
    v.extend_from_slice(&(comment.len() as u16).to_le_bytes());
    v.extend_from_slice(&disk.to_le_bytes());
    v.extend_from_slice(&7u16.to_le_bytes());
    v.extend_from_slice(&0x81a4_0000u32.to_le_bytes());
    v.extend_from_slice(&rel_offset.to_le_bytes());
    v.extend_from_slice(name);
    v.extend_from_slice(extra);
    v.extend_from_slice(comment);
    v
}

fn zip64_extra(uncompressed: u64, compressed: u64, rel_offset: u64, disk: u32) -> Vec<u8> {
    let mut v = vec![0x01, 0x00];
    v.extend_from_slice(&28u16.to_le_bytes());
    v.extend_from_slice(&uncompressed.to_le_bytes());
    v.extend_from_slice(&compressed.to_le_bytes());
    v.extend_from_slice(&rel_offset.to_le_bytes());
    v.extend_from_slice(&disk.to_le_bytes());
    v
}

#[test]
fn cd32_fields_come_from_fixed_header() {
    let buf = cd_entry(1000, 2000, 3000, 1, b"a.txt", b"", b"note");
    let c = Cd::from(&buf).unwrap();
    assert!(matches!(c.verify_wordsize(), WordSize::Bit32));
    assert_eq!(c.version_made_by(), 20);
    assert_eq!(c.version_needed_to_extract(), 10);
    assert_eq!(c.general_purpose_flag(), 2);
    assert_eq!(c.compression_method(), 8);
    assert_eq!(c.last_modification_time(), 0x6083);
    assert_eq!(c.last_modification_date(), 0x5711);
    assert_eq!(c.crc32_hash(), 0xcafe_f00d);
    assert_eq!(c.compressed_size(), 1000);
    assert_eq!(c.uncompressed_size(), 2000);
    assert_eq!(c.file_name_length(), 5);
    assert_eq!(c.extra_field_length(), 0);
    assert_eq!(c.file_comment_length(), 4);
    assert_eq!(c.disk_number_where_file_starts(), 1);
    assert_eq!(c.internal_file_attributes(), 7);
    assert_eq!(c.external_file_attributes(), 0x81a4_0000);
    assert_eq!(c.relative_offset_local_header(), 3000);
    assert_eq!(c.file_name(), "a.txt");
    assert!(c.extra_field().is_none());
    assert_eq!(c.file_comment(), "note");
}

#[test]
fn cd64_true_values_come_from_extra_field() {
    let extra = zip64_extra(0x2_0000_0002, 0x1_0000_0001, 0x3_0000_0003, 9);
    let buf = cd_entry(0xffff_ffff, 0xffff_ffff, 0xffff_ffff, 0xffff, b"big.bin", &extra, b"");
    let c = Cd::from(&buf).unwrap();
    assert!(matches!(c.verify_wordsize(), WordSize::Bit64));
    assert_eq!(c.compressed_size(), 0x1_0000_0001);
    assert_eq!(c.uncompressed_size(), 0x2_0000_0002);
    assert_eq!(c.relative_offset_local_header(), 0x3_0000_0003);
    assert_eq!(c.disk_number_where_file_starts(), 9);
    assert_eq!(c.file_name(), "big.bin");
    let ef = c.extra_field().unwrap();
    assert_eq!(ef.signature(), 0x0001);
    assert_eq!(ef.field_bytes().len(), 32);
    assert_eq!(ef.field_bytes().as_slice(), extra.as_slice());
}

#[test]
fn cd64_single_sentinel_still_selects_extra_field() {
    let extra = zip64_extra(77, 0x1_2345_6789, 88, 0);
    let buf = cd_entry(0xffff_ffff, 500, 600, 0, b"one.txt", &extra, b"tail");
    let c = Cd::from(&buf).unwrap();
    assert!(matches!(c.verify_wordsize(), WordSize::Bit64));
    assert_eq!(c.compressed_size(), 0x1_2345_6789);
    assert_eq!(c.uncompressed_size(), 77);
    assert_eq!(c.file_comment(), "tail");
}

#[test]
fn cd64_comment_follows_extra_field() {
    let extra = zip64_extra(1, 2, 3, 4);
    let buf = cd_entry(0xffff_ffff, 0xffff_ffff, 0xffff_ffff, 0xffff, b"x", &extra, b"after");
    let c = Cd::from(&buf).unwrap();
    assert_eq!(c.file_comment(), "after");
}

#[test]
fn cd_rejects_unknown_signature() {
    let buf = vec![0x50, 0x4b, 0x05, 0x06, 0, 0];
    assert_eq!(Cd::from(&buf).unwrap_err(), CdError::NotValidBinary);
}

#[test]
fn cd_rejects_short_fixed_header() {
    let mut buf = cd_entry(1, 1, 1, 0, b"", b"", b"");
    buf.truncate(40);
    assert_eq!(Cd::from(&buf).unwrap_err(), CdError::BufferTooShort);
}

#[test]
fn cd_rejects_name_past_end_of_buffer() {
    let mut buf = cd_entry(1, 1, 1, 0, b"abcdef", b"", b"");
    buf.truncate(48);
    assert_eq!(Cd::from(&buf).unwrap_err(), CdError::BufferTooShort);
}

#[test]
fn cd_rejects_invalid_utf8_name() {
    let buf = cd_entry(1, 1, 1, 0, &[0xff, 0xff], b"", b"");
    assert_eq!(Cd::from(&buf).unwrap_err(), CdError::InvalidUtf8);
}

#[test]
fn cd_rejects_wrong_extra_field_tag() {
    let mut extra = zip64_extra(1, 2, 3, 4);
    extra[0] = 0x02;
    let buf = cd_entry(0xffff_ffff, 1, 1, 0, b"f", &extra, b"");
    assert_eq!(Cd::from(&buf).unwrap_err(), CdError::InvalidExtraFieldSignature);
}

#[test]
fn cd_rejects_extra_field_too_small_for_zip64_values() {
    let extra = vec![0x01, 0x00, 0x04, 0x00, 1, 2, 3, 4];
    let buf = cd_entry(0xffff_ffff, 1, 1, 0, b"f", &extra, b"");
    assert_eq!(Cd::from(&buf).unwrap_err(), CdError::BufferTooShort);
}

#[test]
fn cd_name_decodes_multibyte_utf8() {
    let buf = cd_entry(10, 10, 10, 0, "é.txt".as_bytes(), b"", b"");
    let c = Cd::from(&buf).unwrap();
    assert_eq!(c.file_name(), "é.txt");
    assert_eq!(c.file_name().chars().count(), 5);
    assert_eq!(c.file_name_length(), 6);
}

#[test]
fn cd_decode_is_idempotent() {
    let buf = cd_entry(11, 22, 33, 0, b"same.txt", b"", b"c");
    let first = Cd::from(&buf).unwrap();
    let second = Cd::from(&buf).unwrap();
    assert_eq!(first, second);
}

#[test]
fn cd_rejects_empty_extra_field_when_zip64() {
    let buf = cd_entry(0xffff_ffff, 1, 1, 0, b"f", b"", b"");
    assert_eq!(Cd::from(&buf).unwrap_err(), CdError::BufferTooShort);
}

#[test]
fn cd_rejects_extra_field_past_end_of_buffer() {
    let extra = zip64_extra(1, 2, 3, 4);
    let mut buf = cd_entry(0xffff_ffff, 1, 1, 0, b"f", &extra, b"");
    buf.truncate(buf.len() - 10);
    assert_eq!(Cd::from(&buf).unwrap_err(), CdError::BufferTooShort);
}

#[test]
fn cd_rejects_comment_past_end_of_buffer() {
    let mut buf = cd_entry(5, 5, 5, 0, b"f", b"", b"comment");
    buf.truncate(buf.len() - 2);
    assert_eq!(Cd::from(&buf).unwrap_err(), CdError::BufferTooShort);
}

#[test]
fn cd_rejects_invalid_utf8_comment() {
    let buf = cd_entry(5, 5, 5, 0, b"f", b"", &[0x80, 0x80]);
    assert_eq!(Cd::from(&buf).unwrap_err(), CdError::InvalidUtf8);
}
