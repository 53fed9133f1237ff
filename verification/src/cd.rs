//! Central-Directory file headers.
//!
//! One CD entry describes one archived file.  Its 46-byte fixed header is
//! followed by the filename, an optional extra field, and a comment.  An
//! entry is ZIP64 when any of four fields carries its sentinel value
//! (`0xFFFFFFFF`, or `0xFFFF` for the disk number); the true wide values
//! then sit at fixed sub-offsets inside the extra field, which shifts with
//! the filename length.  `spec_cd_decode` pins the whole decode down as a
//! function of the buffer.

use vstd::prelude::*;
use vstd::utf8::*;

use crate::WordSize;
use crate::field::{copy_range, le16, le32, le64, read_u16_le, read_u32_le, read_u64_le, utf8_to_string};
use crate::signature::{cd_sig, cd_sig_bytes, is_match};

verus! {

/// Why a buffer failed to decode as a CD entry.
#[derive(Debug, Clone, Copy, PartialEq, Eq, Structural)]
pub enum CdError {
    /// The leading bytes are not the CD signature.
    NotValidBinary,
    /// A declared length points past the end of the buffer.
    BufferTooShort,
    /// The filename or the comment is not valid UTF-8.
    InvalidUtf8,
    /// The entry is ZIP64 but its extra field does not carry the
    /// ZIP64 tag `0x0001`.
    InvalidExtraFieldSignature,
}

/// The mathematical content of a ZIP64 extra field: its 2-byte tag and
/// the raw bytes it spans.
#[verifier::ext_equal]
pub struct ExtraFieldView {
    pub signature: u16,
    pub bytes: Seq<u8>,
}

/// The mathematical content of a decoded CD entry.
#[verifier::ext_equal]
pub struct CdView {
    pub word_size: WordSize,
    pub version_made_by: u16,
    pub version_needed_to_extract: u16,
    pub general_purpose_flag: u16,
    pub compression_method: u16,
    pub last_modification_time: u16,
    pub last_modification_date: u16,
    pub crc32_hash: u32,
    pub compressed_size: u64,
    pub uncompressed_size: u64,
    pub file_name_length: u16,
    pub extra_field_length: u16,
    pub file_comment_length: u16,
    pub disk_number_where_file_starts: u32,
    pub internal_file_attributes: u16,
    pub external_file_attributes: u32,
    pub relative_offset_local_header: u64,
    pub file_name: Seq<char>,
    pub extra_field: Option<ExtraFieldView>,
    pub file_comment: Seq<char>,
}

/// The entry is ZIP64: one of the three 32-bit fields is `0xFFFFFFFF`, or
/// the 16-bit disk number is `0xFFFF`.
pub open spec fn cd_is_zip64(b: Seq<u8>) -> bool
    recommends
        b.len() >= 46,
{
    ||| le32(b, 20) == 0xffffffff
    ||| le32(b, 24) == 0xffffffff
    ||| le32(b, 42) == 0xffffffff
    ||| le16(b, 34) == 0xffff
}

/// The fields every CD entry carries at fixed offsets of its 46-byte
/// header, combined with the values the detected form settles on.
pub open spec fn spec_cd_fields(
    b: Seq<u8>,
    word_size: WordSize,
    compressed_size: u64,
    uncompressed_size: u64,
    disk_number: u32,
    relative_offset: u64,
    extra_field: Option<ExtraFieldView>,
    file_comment: Seq<char>,
) -> CdView
    recommends
        b.len() >= 46,
{
    CdView {
        word_size,
        version_made_by: le16(b, 4) as u16,
        version_needed_to_extract: le16(b, 6) as u16,
        general_purpose_flag: le16(b, 8) as u16,
        compression_method: le16(b, 10) as u16,
        last_modification_time: le16(b, 12) as u16,
        last_modification_date: le16(b, 14) as u16,
        crc32_hash: le32(b, 16) as u32,
        compressed_size,
        uncompressed_size,
        file_name_length: le16(b, 28) as u16,
        extra_field_length: le16(b, 30) as u16,
        file_comment_length: le16(b, 32) as u16,
        disk_number_where_file_starts: disk_number,
        internal_file_attributes: le16(b, 36) as u16,
        external_file_attributes: le32(b, 38) as u32,
        relative_offset_local_header: relative_offset,
        file_name: decode_utf8(b.subrange(46, 46 + le16(b, 28))),
        extra_field,
        file_comment,
    }
}

/// What decoding a buffer as a CD entry yields: the entry, or the first
/// error the buffer runs into.  In the ZIP64 form all four wide values are
/// expected in the extra field at sub-offsets 4, 12, 20 and 28, in that
/// fixed order, whichever sentinels triggered the form.
pub open spec fn spec_cd_decode(b: Seq<u8>) -> Result<CdView, CdError> {
    if b.len() < 4 || b.subrange(0, 4) != cd_sig() {
        Err(CdError::NotValidBinary)
    } else if b.len() < 46 {
        Err(CdError::BufferTooShort)
    } else {
        let n = le16(b, 28);
        let m = le16(b, 30);
        let k = le16(b, 32);
        if 46 + n > b.len() {
            Err(CdError::BufferTooShort)
        } else if !valid_utf8(b.subrange(46, 46 + n)) {
            Err(CdError::InvalidUtf8)
        } else if cd_is_zip64(b) {
            if 46 + n + m > b.len() || m < 2 {
                Err(CdError::BufferTooShort)
            } else if le16(b, 46 + n) != 0x0001 {
                Err(CdError::InvalidExtraFieldSignature)
            } else if m < 32 {
                Err(CdError::BufferTooShort)
            } else if 46 + n + m + k > b.len() {
                Err(CdError::BufferTooShort)
            } else if !valid_utf8(b.subrange(46 + n + m, 46 + n + m + k)) {
                Err(CdError::InvalidUtf8)
            } else {
                Ok(
                    spec_cd_fields(
                        b,
                        WordSize::Bit64,
                        le64(b, 46 + n + 12) as u64,
                        le64(b, 46 + n + 4) as u64,
                        le32(b, 46 + n + 28) as u32,
                        le64(b, 46 + n + 20) as u64,
                        Some(
                            ExtraFieldView {
                                signature: 0x0001u16,
                                bytes: b.subrange(46 + n, 46 + n + m),
                            },
                        ),
                        decode_utf8(b.subrange(46 + n + m, 46 + n + m + k)),
                    ),
                )
            }
        } else {
            if 46 + n + k > b.len() {
                Err(CdError::BufferTooShort)
            } else if !valid_utf8(b.subrange(46 + n, 46 + n + k)) {
                Err(CdError::InvalidUtf8)
            } else {
                Ok(
                    spec_cd_fields(
                        b,
                        WordSize::Bit32,
                        le32(b, 20) as u64,
                        le32(b, 24) as u64,
                        le16(b, 34) as u32,
                        le32(b, 42) as u64,
                        None,
                        decode_utf8(b.subrange(46 + n, 46 + n + k)),
                    ),
                )
            }
        }
    }
}

/// The extra field of a ZIP64 entry: the tag it was validated against and
/// the raw bytes it spans.
#[derive(Debug, Clone, PartialEq, Eq)]
pub struct ExtraField {
    signature: u16,
    bytes: Vec<u8>,
}

impl View for ExtraField {
    type V = ExtraFieldView;

    closed spec fn view(&self) -> ExtraFieldView {
        ExtraFieldView { signature: self.signature, bytes: self.bytes@ }
    }
}

impl ExtraField {
    /// The 2-byte tag that opens the extra field.
    pub fn signature(&self) -> (r: u16)
        ensures
            r == self@.signature,
    {
        self.signature
    }

    /// The raw bytes of the extra field, tag included.
    pub fn field_bytes(&self) -> (r: &Vec<u8>)
        ensures
            r@ == self@.bytes,
    {
        &self.bytes
    }
}

/// A decoded Central-Directory file header.
///
/// Constructed once from its slice of the CD region and immutable
/// afterwards; the word size is resolved at construction, never re-derived
/// per field access.
#[derive(Debug, Clone, PartialEq, Eq)]
pub struct Cd {
    word_size: WordSize,
    version_made_by: u16,
    version_needed_to_extract: u16,
    general_purpose_flag: u16,
    compression_method: u16,
    last_modification_time: u16,
    last_modification_date: u16,
    crc32_hash: u32,
    compressed_size: u64,
    uncompressed_size: u64,
    file_name_length: u16,
    extra_field_length: u16,
    file_comment_length: u16,
    disk_number_where_file_starts: u32,
    internal_file_attributes: u16,
    external_file_attributes: u32,
    relative_offset_local_header: u64,
    file_name: String,
    extra_field: Option<ExtraField>,
    file_comment: String,
}

impl View for Cd {
    type V = CdView;

    closed spec fn view(&self) -> CdView {
        CdView {
            word_size: self.word_size,
            version_made_by: self.version_made_by,
            version_needed_to_extract: self.version_needed_to_extract,
            general_purpose_flag: self.general_purpose_flag,
            compression_method: self.compression_method,
            last_modification_time: self.last_modification_time,
            last_modification_date: self.last_modification_date,
            crc32_hash: self.crc32_hash,
            compressed_size: self.compressed_size,
            uncompressed_size: self.uncompressed_size,
            file_name_length: self.file_name_length,
            extra_field_length: self.extra_field_length,
            file_comment_length: self.file_comment_length,
            disk_number_where_file_starts: self.disk_number_where_file_starts,
            internal_file_attributes: self.internal_file_attributes,
            external_file_attributes: self.external_file_attributes,
            relative_offset_local_header: self.relative_offset_local_header,
            file_name: self.file_name@,
            extra_field: match self.extra_field {
                Some(ef) => Some(ef@),
                None => None,
            },
            file_comment: self.file_comment@,
        }
    }
}

impl Cd {
    /// Decode a CD entry from a buffer positioned at its signature.
    ///
    /// The result is a function of the buffer alone: decoding the same
    /// bytes twice yields the same entry.
    pub fn from(bytes: &[u8]) -> (r: Result<Cd, CdError>)
        ensures
            match r {
                Ok(c) => spec_cd_decode(bytes@) == Ok::<CdView, CdError>(c@),
                Err(err) => spec_cd_decode(bytes@) == Err::<CdView, CdError>(err),
            },
    {
        let len = bytes.len();
        let sig = cd_sig_bytes();
        if len < 4 || !is_match(bytes, sig.as_slice(), 0) {
            return Err(CdError::NotValidBinary);
        }
        if len < 46 {
            return Err(CdError::BufferTooShort);
        }
        let n = read_u16_le(bytes, 28) as usize;
        let m = read_u16_le(bytes, 30) as usize;
        let k = read_u16_le(bytes, 32) as usize;
        if 46 + n > len {
            return Err(CdError::BufferTooShort);
        }
        let file_name = match utf8_to_string(copy_range(bytes, 46, 46 + n)) {
            None => {
                return Err(CdError::InvalidUtf8);
            },
            Some(s) => s,
        };
        let compressed_size_32 = read_u32_le(bytes, 20);
        let uncompressed_size_32 = read_u32_le(bytes, 24);
        let relative_offset_32 = read_u32_le(bytes, 42);
        let disk_number_16 = read_u16_le(bytes, 34);
        let zip64 = compressed_size_32 == 0xffffffff || uncompressed_size_32 == 0xffffffff
            || relative_offset_32 == 0xffffffff || disk_number_16 == 0xffff;
        if zip64 {
            if 46 + n + m > len || m < 2 {
                return Err(CdError::BufferTooShort);
            }
            let tag = read_u16_le(bytes, 46 + n);
            if tag != 0x0001 {
                return Err(CdError::InvalidExtraFieldSignature);
            }
            if m < 32 {
                return Err(CdError::BufferTooShort);
            }
            if 46 + n + m + k > len {
                return Err(CdError::BufferTooShort);
            }
            let file_comment = match utf8_to_string(copy_range(bytes, 46 + n + m, 46 + n + m + k)) {
                None => {
                    return Err(CdError::InvalidUtf8);
                },
                Some(s) => s,
            };
            let c = Cd {
                word_size: WordSize::Bit64,
                version_made_by: read_u16_le(bytes, 4),
                version_needed_to_extract: read_u16_le(bytes, 6),
                general_purpose_flag: read_u16_le(bytes, 8),
                compression_method: read_u16_le(bytes, 10),
                last_modification_time: read_u16_le(bytes, 12),
                last_modification_date: read_u16_le(bytes, 14),
                crc32_hash: read_u32_le(bytes, 16),
                compressed_size: read_u64_le(bytes, 46 + n + 12),
                uncompressed_size: read_u64_le(bytes, 46 + n + 4),
                file_name_length: read_u16_le(bytes, 28),
                extra_field_length: read_u16_le(bytes, 30),
                file_comment_length: read_u16_le(bytes, 32),
                disk_number_where_file_starts: read_u32_le(bytes, 46 + n + 28),
                internal_file_attributes: read_u16_le(bytes, 36),
                external_file_attributes: read_u32_le(bytes, 38),
                relative_offset_local_header: read_u64_le(bytes, 46 + n + 20),
                file_name,
                extra_field: Some(
                    ExtraField { signature: tag, bytes: copy_range(bytes, 46 + n, 46 + n + m) },
                ),
                file_comment,
            };
            proof {
                assert(spec_cd_decode(bytes@)->Ok_0 =~= c@);
            }
            Ok(c)
        } else {
            if 46 + n + k > len {
                return Err(CdError::BufferTooShort);
            }
            let file_comment = match utf8_to_string(copy_range(bytes, 46 + n, 46 + n + k)) {
                None => {
                    return Err(CdError::InvalidUtf8);
                },
                Some(s) => s,
            };
            let c = Cd {
                word_size: WordSize::Bit32,
                version_made_by: read_u16_le(bytes, 4),
                version_needed_to_extract: read_u16_le(bytes, 6),
                general_purpose_flag: read_u16_le(bytes, 8),
                compression_method: read_u16_le(bytes, 10),
                last_modification_time: read_u16_le(bytes, 12),
                last_modification_date: read_u16_le(bytes, 14),
                crc32_hash: read_u32_le(bytes, 16),
                compressed_size: compressed_size_32 as u64,
                uncompressed_size: uncompressed_size_32 as u64,
                file_name_length: read_u16_le(bytes, 28),
                extra_field_length: read_u16_le(bytes, 30),
                file_comment_length: read_u16_le(bytes, 32),
                disk_number_where_file_starts: disk_number_16 as u32,
                internal_file_attributes: read_u16_le(bytes, 36),
                external_file_attributes: read_u32_le(bytes, 38),
                relative_offset_local_header: relative_offset_32 as u64,
                file_name,
                extra_field: None,
                file_comment,
            };
            proof {
                assert(spec_cd_decode(bytes@)->Ok_0 =~= c@);
            }
            Ok(c)
        }
    }

    /// The form the sentinel values settled on.
    pub fn verify_wordsize(&self) -> (r: WordSize)
        ensures
            r == self@.word_size,
    {
        self.word_size
    }

    /// Version of ZIP that wrote the entry.
    pub fn version_made_by(&self) -> (r: u16)
        ensures
            r == self@.version_made_by,
    {
        self.version_made_by
    }

    /// Minimum version needed to extract the file.
    pub fn version_needed_to_extract(&self) -> (r: u16)
        ensures
            r == self@.version_needed_to_extract,
    {
        self.version_needed_to_extract
    }

    /// General-purpose bit flag.
    pub fn general_purpose_flag(&self) -> (r: u16)
        ensures
            r == self@.general_purpose_flag,
    {
        self.general_purpose_flag
    }

    /// Compression method.
    pub fn compression_method(&self) -> (r: u16)
        ensures
            r == self@.compression_method,
    {
        self.compression_method
    }

    /// Last-modification time, MS-DOS encoded.
    pub fn last_modification_time(&self) -> (r: u16)
        ensures
            r == self@.last_modification_time,
    {
        self.last_modification_time
    }

    /// Last-modification date, MS-DOS encoded.
    pub fn last_modification_date(&self) -> (r: u16)
        ensures
            r == self@.last_modification_date,
    {
        self.last_modification_date
    }

    /// CRC-32 of the uncompressed data.
    pub fn crc32_hash(&self) -> (r: u32)
        ensures
            r == self@.crc32_hash,
    {
        self.crc32_hash
    }

    /// Compressed size; in the ZIP64 form the true value from the extra
    /// field, read at sub-offset 12.
    pub fn compressed_size(&self) -> (r: u64)
        ensures
            r == self@.compressed_size,
    {
        self.compressed_size
    }

    /// Uncompressed size; in the ZIP64 form the true value from the extra
    /// field, read at sub-offset 4.
    pub fn uncompressed_size(&self) -> (r: u64)
        ensures
            r == self@.uncompressed_size,
    {
        self.uncompressed_size
    }

    /// Length of the filename in bytes.
    pub fn file_name_length(&self) -> (r: u16)
        ensures
            r == self@.file_name_length,
    {
        self.file_name_length
    }

    /// Length of the extra field in bytes.
    pub fn extra_field_length(&self) -> (r: u16)
        ensures
            r == self@.extra_field_length,
    {
        self.extra_field_length
    }

    /// Length of the comment in bytes.
    pub fn file_comment_length(&self) -> (r: u16)
        ensures
            r == self@.file_comment_length,
    {
        self.file_comment_length
    }

    /// Disk on which the file starts; in the ZIP64 form the true value
    /// from the extra field, read at sub-offset 28.
    pub fn disk_number_where_file_starts(&self) -> (r: u32)
        ensures
            r == self@.disk_number_where_file_starts,
    {
        self.disk_number_where_file_starts
    }

    /// Internal file attributes.
    pub fn internal_file_attributes(&self) -> (r: u16)
        ensures
            r == self@.internal_file_attributes,
    {
        self.internal_file_attributes
    }

    /// External file attributes.
    pub fn external_file_attributes(&self) -> (r: u32)
        ensures
            r == self@.external_file_attributes,
    {
        self.external_file_attributes
    }

    /// Offset of the file's local header; in the ZIP64 form the true
    /// value from the extra field, read at sub-offset 20.
    pub fn relative_offset_local_header(&self) -> (r: u64)
        ensures
            r == self@.relative_offset_local_header,
    {
        self.relative_offset_local_header
    }

    /// The file's name.
    pub fn file_name(&self) -> (r: String)
        ensures
            r@ == self@.file_name,
    {
        self.file_name.clone()
    }

    /// The ZIP64 extra field; present exactly when the entry is ZIP64.
    pub fn extra_field(&self) -> (r: Option<&ExtraField>)
        ensures
            match r {
                Some(ef) => self@.extra_field == Some(ef@),
                None => self@.extra_field is None,
            },
    {
        match &self.extra_field {
            Some(ef) => Some(ef),
            None => None,
        }
    }

    /// The file's comment.
    pub fn file_comment(&self) -> (r: String)
        ensures
            r@ == self@.file_comment,
    {
        self.file_comment.clone()
    }
}

/// With no sentinel value set, the word size resolves to Bit32 and every
/// field of the entry comes from the fixed 46-byte header.
pub proof fn lemma_cd32_fields(b: Seq<u8>)
    requires
        spec_cd_decode(b) is Ok,
        !cd_is_zip64(b),
    ensures
        ({
            let v = spec_cd_decode(b)->Ok_0;
            let n = le16(b, 28);
            &&& v.word_size is Bit32
            &&& v.version_made_by == le16(b, 4)
            &&& v.version_needed_to_extract == le16(b, 6)
            &&& v.general_purpose_flag == le16(b, 8)
            &&& v.compression_method == le16(b, 10)
            &&& v.last_modification_time == le16(b, 12)
            &&& v.last_modification_date == le16(b, 14)
            &&& v.crc32_hash == le32(b, 16)
            &&& v.compressed_size == le32(b, 20) as u64
            &&& v.uncompressed_size == le32(b, 24) as u64
            &&& v.file_name_length == le16(b, 28)
            &&& v.extra_field_length == le16(b, 30)
            &&& v.file_comment_length == le16(b, 32)
            &&& v.disk_number_where_file_starts == le16(b, 34) as u32
            &&& v.internal_file_attributes == le16(b, 36)
            &&& v.external_file_attributes == le32(b, 38)
            &&& v.relative_offset_local_header == le32(b, 42) as u64
            &&& v.file_name == decode_utf8(b.subrange(46, 46 + n))
            &&& v.extra_field is None
        }),
{
}

/// With the compressed size carrying its sentinel, the word size resolves
/// to Bit64 and the true compressed size is read from the extra field at
/// the derived offset `46 + n + 12`, where `n` is the filename length.
pub proof fn lemma_cd64_compressed_size(b: Seq<u8>)
    requires
        spec_cd_decode(b) is Ok,
        le32(b, 20) == 0xffffffff,
    ensures
        ({
            let v = spec_cd_decode(b)->Ok_0;
            let n = le16(b, 28);
            &&& v.word_size is Bit64
            &&& v.compressed_size == le64(b, 46 + n + 12)
        }),
{
}

} // verus!
