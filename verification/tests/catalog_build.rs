use zipsniper::catalog::{decode_cd_region, locate_eocd, CatalogError, Zip};
use zipsniper::cd::CdError;
use zipsniper::eocd::EocdError;
use zipsniper::WordSize;

fn eocd32(records_on_disk: u16, total_records: u16, cd_size: u32, cd_offset: u32) -> Vec<u8> {
    let mut v = vec![0x50, 0x4b, 0x05, 0x06];
    v.extend_from_slice(&0u16.to_le_bytes());
    v.extend_from_slice(&0u16.to_le_bytes());
    v.extend_from_slice(&records_on_disk.to_le_bytes());
    v.extend_from_slice(&total_records.to_le_bytes());
    v.extend_from_slice(&cd_size.to_le_bytes());
    v.extend_from_slice(&cd_offset.to_le_bytes());
    v.extend_from_slice(&0u16.to_le_bytes());
    v
}

fn cd_entry(name: &[u8]) -> Vec<u8> {
    let mut v = vec![0x50, 0x4b, 0x01, 0x02];
    v.extend_from_slice(&[0u8; 24]);
    v.extend_from_slice(&(name.len() as u16).to_le_bytes());
    v.extend_from_slice(&0u16.to_le_bytes());
    v.extend_from_slice(&0u16.to_le_bytes());
    v.extend_from_slice(&[0u8; 12]);
    v.extend_from_slice(name);
    v
}

#[test]
fn tail_of_56_bytes_yields_two_named_entries() {
    let mut region = Vec::new();
    region.extend_from_slice(&cd_entry(b"a.txt"));
    region.extend_from_slice(&cd_entry(b"b/c.txt"));
    let cd_size = region.len() as u32;
    let cd_offset = 0x400;

    // A 56-byte tail: the EOCD record opens it, arbitrary bytes follow
    // as they would after an under-estimated comment buffer.
    let mut tail = eocd32(2, 2, cd_size, cd_offset);
    tail.resize(56, 0x20);
    assert_eq!(tail.len(), 56);
    assert_eq!(&tail[0..4], &[0x50, 0x4b, 0x05, 0x06]);

    let eocd = locate_eocd(&tail).unwrap();
    assert!(matches!(eocd.verify_wordsize(), WordSize::Bit32));
    assert_eq!(eocd.total_number_of_cd_records(), 2);
    assert_eq!(eocd.size_of_cd(), cd_size as u64);
    assert_eq!(eocd.cd_start_offset(), cd_offset as u64);

    let (entries, failures) = decode_cd_region(&region);
    assert!(failures.is_empty());
    assert_eq!(entries.len(), 2);
    assert_eq!(entries[0].file_name(), "a.txt");
    assert_eq!(entries[1].file_name(), "b/c.txt");

    let zip = Zip::build(eocd, entries);
    assert_eq!(zip.count_mismatch(), None);
    assert!(matches!(zip.word_size(), WordSize::Bit32));
}

#[test]
fn missing_eocd_signature_fails_before_any_cd_fetch() {
    let tail = vec![0u8; 56];
    let err = locate_eocd(&tail).unwrap_err();
    assert_eq!(err, CatalogError::EocdSignatureNotFound);
    // The CD region is never requested: its offset and size only exist
    // inside the record this call failed to produce.
}

#[test]
fn declared_five_but_found_four_warns_and_returns_four() {
    let mut region = Vec::new();
    for name in [&b"one"[..], b"two", b"three", b"four"] {
        region.extend_from_slice(&cd_entry(name));
    }
    let tail = eocd32(5, 5, region.len() as u32, 0);
    let eocd = locate_eocd(&tail).unwrap();
    let (entries, failures) = decode_cd_region(&region);
    assert!(failures.is_empty());
    assert_eq!(entries.len(), 4);
    let zip = Zip::build(eocd, entries);
    assert_eq!(zip.cd_list.len(), 4);
    assert_eq!(zip.count_mismatch(), Some((5, 4)));
}

#[test]
fn eocd_located_behind_leading_bytes() {
    let mut tail = vec![9u8, 8, 7];
    tail.extend_from_slice(&eocd32(1, 1, 64, 128));
    let eocd = locate_eocd(&tail).unwrap();
    assert_eq!(eocd.size_of_cd(), 64);
    assert_eq!(eocd.cd_start_offset(), 128);
}

#[test]
fn zip64_eocd_found_when_no_32_bit_signature_occurs() {
    let mut tail = vec![0x50, 0x4b, 0x06, 0x06];
    tail.extend_from_slice(&[0u8; 52]);
    let eocd = locate_eocd(&tail).unwrap();
    assert!(matches!(eocd.verify_wordsize(), WordSize::Bit64));
    assert_eq!(eocd.comment_length(), 0);
}

#[test]
fn truncated_eocd_reports_decode_error() {
    let tail = vec![0x50, 0x4b, 0x05, 0x06, 1, 0];
    let err = locate_eocd(&tail).unwrap_err();
    assert_eq!(err, CatalogError::InvalidEocd(EocdError::BufferTooShort));
}

#[test]
fn catalog_error_messages_guide_the_user() {
    let not_found = CatalogError::EocdSignatureNotFound;
    assert_eq!(not_found.message(), "EOCD signature not found; increase the comment buffer size");
    let invalid = CatalogError::InvalidEocd(EocdError::BufferTooShort);
    assert_eq!(invalid.message(), "the located EOCD record failed to decode");
}

#[test]
fn per_entry_decode_failures_are_collected_not_fatal() {
    let mut region = Vec::new();
    region.extend_from_slice(&cd_entry(b"good.txt"));
    region.extend_from_slice(&cd_entry(&[0xff, 0xfe]));
    region.extend_from_slice(&cd_entry(b"also-good"));
    let (entries, failures) = decode_cd_region(&region);
    assert_eq!(entries.len(), 2);
    assert_eq!(entries[0].file_name(), "good.txt");
    assert_eq!(entries[1].file_name(), "also-good");
    assert_eq!(failures, vec![CdError::InvalidUtf8]);
}

#[test]
fn empty_region_decodes_to_empty_catalog() {
    let (entries, failures) = decode_cd_region(&[]);
    assert!(entries.is_empty());
    assert!(failures.is_empty());
}
