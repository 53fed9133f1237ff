//! The End-Of-Central-Directory record (EOCD).
//!
//! An EOCD names the location and extent of the Central Directory.  It
//! comes in a legacy 32-bit form and a ZIP64 form, told apart by the
//! leading 4-byte signature; the form fixes every field offset.  Decoding
//! is a pure function of the buffer: `spec_eocd_decode` says exactly which
//! record (or which error) comes out of which bytes.

use vstd::prelude::*;
use vstd::utf8::*;

use crate::WordSize;
use crate::field::{copy_range, le16, le32, le64, lemma_u16_le_round_trip, lemma_u32_le_round_trip, read_u16_le, read_u32_le, read_u64_le, u16_le, u32_le, utf8_to_string};
use crate::signature::{eocd32_sig, eocd64_sig, is_match, sig32_bytes, sig64_bytes};

verus! {

/// Why a buffer failed to decode as an EOCD record.
#[derive(Debug, Clone, Copy, PartialEq, Eq, Structural)]
pub enum EocdError {
    /// The leading bytes match neither EOCD signature.
    NotValidBinary,
    /// The buffer ends before the fixed fields of the detected form.
    BufferTooShort,
    /// The trailing comment is not valid UTF-8.
    InvalidUtf8,
}

/// The mathematical content of a decoded EOCD record.
#[verifier::ext_equal]
pub struct EocdView {
    pub word_size: WordSize,
    pub disk_number: u32,
    pub disk_where_cd_starts: u32,
    pub number_of_cd_records_on_disk: u64,
    pub total_number_of_cd_records: u64,
    pub size_of_cd: u64,
    pub cd_start_offset: u64,
    pub comment_length: u64,
    pub comment: Seq<char>,
    pub size_of_eocd64_minus_12: Option<u64>,
    pub version_made_by: Option<u16>,
    pub version_needed_to_extract: Option<u16>,
}

/// What decoding a buffer as an EOCD record yields: the record whose
/// fields sit at the offsets of the signature's form, or the first error
/// the buffer runs into.
pub open spec fn spec_eocd_decode(b: Seq<u8>) -> Result<EocdView, EocdError> {
    if b.len() < 4 {
        Err(EocdError::NotValidBinary)
    } else if b.subrange(0, 4) == eocd32_sig() {
        if b.len() < 22 {
            Err(EocdError::BufferTooShort)
        } else if !valid_utf8(b.subrange(22, b.len() as int)) {
            Err(EocdError::InvalidUtf8)
        } else {
            Ok(
                EocdView {
                    word_size: WordSize::Bit32,
                    disk_number: le16(b, 4) as u32,
                    disk_where_cd_starts: le16(b, 6) as u32,
                    number_of_cd_records_on_disk: le16(b, 8) as u64,
                    total_number_of_cd_records: le16(b, 10) as u64,
                    size_of_cd: le32(b, 12) as u64,
                    cd_start_offset: le32(b, 16) as u64,
                    comment_length: le16(b, 20) as u64,
                    comment: decode_utf8(b.subrange(22, b.len() as int)),
                    size_of_eocd64_minus_12: None,
                    version_made_by: None,
                    version_needed_to_extract: None,
                },
            )
        }
    } else if b.subrange(0, 4) == eocd64_sig() {
        if b.len() < 56 {
            Err(EocdError::BufferTooShort)
        } else if !valid_utf8(b.subrange(56, b.len() as int)) {
            Err(EocdError::InvalidUtf8)
        } else {
            Ok(
                EocdView {
                    word_size: WordSize::Bit64,
                    disk_number: le32(b, 16) as u32,
                    disk_where_cd_starts: le32(b, 20) as u32,
                    number_of_cd_records_on_disk: le64(b, 24) as u64,
                    total_number_of_cd_records: le64(b, 32) as u64,
                    size_of_cd: le64(b, 40) as u64,
                    cd_start_offset: le64(b, 48) as u64,
                    comment_length: (b.len() - 56) as u64,
                    comment: decode_utf8(b.subrange(56, b.len() as int)),
                    size_of_eocd64_minus_12: Some(le64(b, 4) as u64),
                    version_made_by: Some(le16(b, 12) as u16),
                    version_needed_to_extract: Some(le16(b, 14) as u16),
                },
            )
        }
    } else {
        Err(EocdError::NotValidBinary)
    }
}

/// A decoded End-Of-Central-Directory record.
///
/// Constructed once from the tail buffer and immutable afterwards; the
/// word size is resolved at construction and never re-derived.
#[derive(Debug, Clone, PartialEq, Eq)]
pub struct Eocd {
    word_size: WordSize,
    disk_number: u32,
    disk_where_cd_starts: u32,
    number_of_cd_records_on_disk: u64,
    total_number_of_cd_records: u64,
    size_of_cd: u64,
    cd_start_offset: u64,
    comment_length: u64,
    comment: String,
    size_of_eocd64_minus_12: Option<u64>,
    version_made_by: Option<u16>,
    version_needed_to_extract: Option<u16>,
}

impl View for Eocd {
    type V = EocdView;

    closed spec fn view(&self) -> EocdView {
        EocdView {
            word_size: self.word_size,
            disk_number: self.disk_number,
            disk_where_cd_starts: self.disk_where_cd_starts,
            number_of_cd_records_on_disk: self.number_of_cd_records_on_disk,
            total_number_of_cd_records: self.total_number_of_cd_records,
            size_of_cd: self.size_of_cd,
            cd_start_offset: self.cd_start_offset,
            comment_length: self.comment_length,
            comment: self.comment@,
            size_of_eocd64_minus_12: self.size_of_eocd64_minus_12,
            version_made_by: self.version_made_by,
            version_needed_to_extract: self.version_needed_to_extract,
        }
    }
}

impl Eocd {
    /// Decode an EOCD record from a buffer positioned at its signature.
    ///
    /// The result is a function of the buffer alone: decoding the same
    /// bytes twice yields the same record.
    pub fn from(bytes: &[u8]) -> (r: Result<Eocd, EocdError>)
        ensures
            match r {
                Ok(e) => spec_eocd_decode(bytes@) == Ok::<EocdView, EocdError>(e@),
                Err(err) => spec_eocd_decode(bytes@) == Err::<EocdView, EocdError>(err),
            },
    {
        let len = bytes.len();
        if len < 4 {
            return Err(EocdError::NotValidBinary);
        }
        let sig32 = sig32_bytes();
        let sig64 = sig64_bytes();
        if is_match(bytes, sig32.as_slice(), 0) {
            if len < 22 {
                return Err(EocdError::BufferTooShort);
            }
            match utf8_to_string(copy_range(bytes, 22, len)) {
                None => Err(EocdError::InvalidUtf8),
                Some(comment) => {
                    let e = Eocd {
                        word_size: WordSize::Bit32,
                        disk_number: read_u16_le(bytes, 4) as u32,
                        disk_where_cd_starts: read_u16_le(bytes, 6) as u32,
                        number_of_cd_records_on_disk: read_u16_le(bytes, 8) as u64,
                        total_number_of_cd_records: read_u16_le(bytes, 10) as u64,
                        size_of_cd: read_u32_le(bytes, 12) as u64,
                        cd_start_offset: read_u32_le(bytes, 16) as u64,
                        comment_length: read_u16_le(bytes, 20) as u64,
                        comment,
                        size_of_eocd64_minus_12: None,
                        version_made_by: None,
                        version_needed_to_extract: None,
                    };
                    proof {
                        assert(spec_eocd_decode(bytes@)->Ok_0 =~= e@);
                    }
                    Ok(e)
                },
            }
        } else if is_match(bytes, sig64.as_slice(), 0) {
            if len < 56 {
                return Err(EocdError::BufferTooShort);
            }
            match utf8_to_string(copy_range(bytes, 56, len)) {
                None => Err(EocdError::InvalidUtf8),
                Some(comment) => {
                    let e = Eocd {
                        word_size: WordSize::Bit64,
                        disk_number: read_u32_le(bytes, 16),
                        disk_where_cd_starts: read_u32_le(bytes, 20),
                        number_of_cd_records_on_disk: read_u64_le(bytes, 24),
                        total_number_of_cd_records: read_u64_le(bytes, 32),
                        size_of_cd: read_u64_le(bytes, 40),
                        cd_start_offset: read_u64_le(bytes, 48),
                        comment_length: (len - 56) as u64,
                        comment,
                        size_of_eocd64_minus_12: Some(read_u64_le(bytes, 4)),
                        version_made_by: Some(read_u16_le(bytes, 12)),
                        version_needed_to_extract: Some(read_u16_le(bytes, 14)),
                    };
                    proof {
                        assert(spec_eocd_decode(bytes@)->Ok_0 =~= e@);
                    }
                    Ok(e)
                },
            }
        } else {
            Err(EocdError::NotValidBinary)
        }
    }

    /// The form the signature announced.
    pub fn verify_wordsize(&self) -> (r: WordSize)
        ensures
            r == self@.word_size,
    {
        self.word_size
    }

    /// Number of this disk.
    pub fn disk_number(&self) -> (r: u32)
        ensures
            r == self@.disk_number,
    {
        self.disk_number
    }

    /// Disk on which the Central Directory starts.
    pub fn disk_where_cd_starts(&self) -> (r: u32)
        ensures
            r == self@.disk_where_cd_starts,
    {
        self.disk_where_cd_starts
    }

    /// Number of Central-Directory records on this disk.
    pub fn number_of_cd_records_on_disk(&self) -> (r: u64)
        ensures
            r == self@.number_of_cd_records_on_disk,
    {
        self.number_of_cd_records_on_disk
    }

    /// Total number of Central-Directory records.
    pub fn total_number_of_cd_records(&self) -> (r: u64)
        ensures
            r == self@.total_number_of_cd_records,
    {
        self.total_number_of_cd_records
    }

    /// Size of the Central Directory in bytes.
    pub fn size_of_cd(&self) -> (r: u64)
        ensures
            r == self@.size_of_cd,
    {
        self.size_of_cd
    }

    /// Offset of the start of the Central Directory from the file start.
    pub fn cd_start_offset(&self) -> (r: u64)
        ensures
            r == self@.cd_start_offset,
    {
        self.cd_start_offset
    }

    /// Length of the trailing comment: an explicit 16-bit field in the
    /// 32-bit form, the remaining buffer length past byte 56 in the
    /// 64-bit form.
    pub fn comment_length(&self) -> (r: u64)
        ensures
            r == self@.comment_length,
    {
        self.comment_length
    }

    /// The trailing comment text.
    pub fn comment(&self) -> (r: String)
        ensures
            r@ == self@.comment,
    {
        self.comment.clone()
    }

    /// The record's own size field, "size of the EOCD64 minus 12";
    /// present only in the 64-bit form.
    pub fn size_of_eocd64_minus_12(&self) -> (r: Option<u64>)
        ensures
            r == self@.size_of_eocd64_minus_12,
    {
        self.size_of_eocd64_minus_12
    }

    /// Version-made-by; present only in the 64-bit form.
    pub fn version_made_by(&self) -> (r: Option<u16>)
        ensures
            r == self@.version_made_by,
    {
        self.version_made_by
    }

    /// Version-needed-to-extract; present only in the 64-bit form.
    pub fn version_needed_to_extract(&self) -> (r: Option<u16>)
        ensures
            r == self@.version_needed_to_extract,
    {
        self.version_needed_to_extract
    }
}

/// A 32-bit EOCD record laid out byte for byte: signature, six fixed
/// little-endian fields, the comment length, then the comment itself.
pub open spec fn eocd32_bytes(
    disk_number: u16,
    disk_where_cd_starts: u16,
    records_on_disk: u16,
    total_records: u16,
    cd_size: u32,
    cd_offset: u32,
    comment: Seq<u8>,
) -> Seq<u8> {
    eocd32_sig() + u16_le(disk_number) + u16_le(disk_where_cd_starts) + u16_le(records_on_disk)
        + u16_le(total_records) + u32_le(cd_size) + u32_le(cd_offset) + u16_le(comment.len() as u16)
        + comment
}

/// Decoding recovers exactly the fields a valid 32-bit EOCD encodes, and
/// the CD size and CD offset round-trip through re-encoding: the bytes
/// written for them are the bytes they were decoded from.
pub proof fn lemma_eocd32_round_trip(
    disk_number: u16,
    disk_where_cd_starts: u16,
    records_on_disk: u16,
    total_records: u16,
    cd_size: u32,
    cd_offset: u32,
    comment: Seq<u8>,
)
    requires
        comment.len() <= 0xffff,
        valid_utf8(comment),
    ensures
        ({
            let b = eocd32_bytes(
                disk_number,
                disk_where_cd_starts,
                records_on_disk,
                total_records,
                cd_size,
                cd_offset,
                comment,
            );
            let r = spec_eocd_decode(b);
            &&& r is Ok
            &&& r->Ok_0 == EocdView {
                word_size: WordSize::Bit32,
                disk_number: disk_number as u32,
                disk_where_cd_starts: disk_where_cd_starts as u32,
                number_of_cd_records_on_disk: records_on_disk as u64,
                total_number_of_cd_records: total_records as u64,
                size_of_cd: cd_size as u64,
                cd_start_offset: cd_offset as u64,
                comment_length: comment.len() as u64,
                comment: decode_utf8(comment),
                size_of_eocd64_minus_12: None,
                version_made_by: None,
                version_needed_to_extract: None,
            }
            &&& b.subrange(12, 16) == u32_le(cd_size)
            &&& b.subrange(16, 20) == u32_le(cd_offset)
        }),
{
    lemma_u16_le_round_trip(disk_number);
    lemma_u16_le_round_trip(disk_where_cd_starts);
    lemma_u16_le_round_trip(records_on_disk);
    lemma_u16_le_round_trip(total_records);
    lemma_u16_le_round_trip(comment.len() as u16);
    lemma_u32_le_round_trip(cd_size);
    lemma_u32_le_round_trip(cd_offset);
    let b = eocd32_bytes(
        disk_number,
        disk_where_cd_starts,
        records_on_disk,
        total_records,
        cd_size,
        cd_offset,
        comment,
    );
    assert(b.len() == 22 + comment.len());
    assert(b.subrange(0, 4) =~= eocd32_sig());
    assert(b.subrange(4, 6) =~= u16_le(disk_number));
    assert(b.subrange(6, 8) =~= u16_le(disk_where_cd_starts));
    assert(b.subrange(8, 10) =~= u16_le(records_on_disk));
    assert(b.subrange(10, 12) =~= u16_le(total_records));
    assert(b.subrange(12, 16) =~= u32_le(cd_size));
    assert(b.subrange(16, 20) =~= u32_le(cd_offset));
    assert(b.subrange(20, 22) =~= u16_le(comment.len() as u16));
    assert(b.subrange(22, b.len() as int) =~= comment);
    assert(spec_eocd_decode(b)->Ok_0 =~= EocdView {
        word_size: WordSize::Bit32,
        disk_number: disk_number as u32,
        disk_where_cd_starts: disk_where_cd_starts as u32,
        number_of_cd_records_on_disk: records_on_disk as u64,
        total_number_of_cd_records: total_records as u64,
        size_of_cd: cd_size as u64,
        cd_start_offset: cd_offset as u64,
        comment_length: comment.len() as u64,
        comment: decode_utf8(comment),
        size_of_eocd64_minus_12: None,
        version_made_by: None,
        version_needed_to_extract: None,
    });
}

/// In the 64-bit form the comment length is never read from a field: it
/// is the buffer length minus the 56 fixed bytes.
pub proof fn lemma_eocd64_comment_length(b: Seq<u8>)
    requires
        b.len() <= u64::MAX,
        spec_eocd_decode(b) is Ok,
        spec_eocd_decode(b)->Ok_0.word_size is Bit64,
    ensures
        spec_eocd_decode(b)->Ok_0.comment_length == b.len() - 56,
{
}

} // verus!
