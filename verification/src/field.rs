//! Fixed-offset field access inside raw record buffers.
//!
//! Every multi-byte integer in a ZIP record is little-endian.  The spec
//! functions here say what value a window of bytes holds; the readers
//! pull one field out of a buffer and return exactly that value.

use vstd::prelude::*;
use vstd::slice::*;
use vstd::utf8::*;

verus! {

/// The value of the 2 bytes at `off` of `b`, little-endian.
pub open spec fn le16(b: Seq<u8>, off: int) -> int
    recommends
        0 <= off,
        off + 2 <= b.len(),
{
    b[off] + 0x100 * b[off + 1]
}

/// The value of the 4 bytes at `off` of `b`, little-endian.
pub open spec fn le32(b: Seq<u8>, off: int) -> int
    recommends
        0 <= off,
        off + 4 <= b.len(),
{
    b[off] + 0x100 * b[off + 1] + 0x10000 * b[off + 2] + 0x1000000 * b[off + 3]
}

/// The value of the 8 bytes at `off` of `b`, little-endian.
pub open spec fn le64(b: Seq<u8>, off: int) -> int
    recommends
        0 <= off,
        off + 8 <= b.len(),
{
    b[off] + 0x100 * b[off + 1] + 0x10000 * b[off + 2] + 0x1000000 * b[off + 3] + 0x100000000 * b[off
        + 4] + 0x10000000000 * b[off + 5] + 0x1000000000000 * b[off + 6] + 0x100000000000000 * b[off
        + 7]
}

/// A `u16` laid out as its 2 little-endian bytes.
pub open spec fn u16_le(x: u16) -> Seq<u8> {
    seq![(x & 0xff) as u8, ((x >> 8) & 0xff) as u8]
}

/// A `u32` laid out as its 4 little-endian bytes.
pub open spec fn u32_le(x: u32) -> Seq<u8> {
    seq![
        (x & 0xff) as u8,
        ((x >> 8) & 0xff) as u8,
        ((x >> 16) & 0xff) as u8,
        ((x >> 24) & 0xff) as u8,
    ]
}

/// Reading back the 2 bytes a `u16` was laid out as recovers the `u16`.
pub proof fn lemma_u16_le_round_trip(x: u16)
    ensures
        u16_le(x).len() == 2,
        le16(u16_le(x), 0) == x,
{
    assert((x & 0xff) < 0x100 && ((x >> 8) & 0xff) < 0x100 && x == (x & 0xff) + 0x100 * ((x >> 8)
        & 0xff)) by (bit_vector);
}

/// Reading back the 4 bytes a `u32` was laid out as recovers the `u32`.
pub proof fn lemma_u32_le_round_trip(x: u32)
    ensures
        u32_le(x).len() == 4,
        le32(u32_le(x), 0) == x,
{
    assert((x & 0xff) < 0x100 && ((x >> 8) & 0xff) < 0x100 && ((x >> 16) & 0xff) < 0x100 && ((x
        >> 24) & 0xff) < 0x100 && x == (x & 0xff) + 0x100 * ((x >> 8) & 0xff) + 0x10000 * ((x >> 16)
        & 0xff) + 0x1000000 * ((x >> 24) & 0xff)) by (bit_vector);
}

/// Where a record field lives: its byte offset and its width in bytes.
pub struct FieldMetaData {
    pub size: usize,
    pub offset: usize,
}

impl FieldMetaData {
    /// The index range that the field occupies inside its record buffer.
    pub fn slice_range(&self) -> (r: core::ops::Range<usize>)
        requires
            self.offset + self.size <= usize::MAX,
        ensures
            r.start == self.offset,
            r.end == self.offset + self.size,
    {
        self.offset..(self.offset + self.size)
    }
}

/// Read the little-endian `u16` stored at byte offset `off`.
pub fn read_u16_le(buf: &[u8], off: usize) -> (r: u16)
    requires
        off + 2 <= buf@.len(),
    ensures
        r == le16(buf@, off as int),
{
    proof {
        assert(buf@.len() <= usize::MAX) by {
            assert(spec_slice_len(buf) == buf@.len());
        }
    }
    let b0 = *slice_index_get(buf, off) as u16;
    let b1 = *slice_index_get(buf, off + 1) as u16;
    b0 + b1 * 0x100
}

/// Read the little-endian `u32` stored at byte offset `off`.
pub fn read_u32_le(buf: &[u8], off: usize) -> (r: u32)
    requires
        off + 4 <= buf@.len(),
    ensures
        r == le32(buf@, off as int),
{
    proof {
        assert(buf@.len() <= usize::MAX) by {
            assert(spec_slice_len(buf) == buf@.len());
        }
    }
    let b0 = *slice_index_get(buf, off) as u32;
    let b1 = *slice_index_get(buf, off + 1) as u32;
    let b2 = *slice_index_get(buf, off + 2) as u32;
    let b3 = *slice_index_get(buf, off + 3) as u32;
    b0 + b1 * 0x100 + b2 * 0x10000 + b3 * 0x1000000
}

/// Read the little-endian `u64` stored at byte offset `off`.
pub fn read_u64_le(buf: &[u8], off: usize) -> (r: u64)
    requires
        off + 8 <= buf@.len(),
    ensures
        r == le64(buf@, off as int),
{
    proof {
        assert(buf@.len() <= usize::MAX) by {
            assert(spec_slice_len(buf) == buf@.len());
        }
    }
    let b0 = *slice_index_get(buf, off) as u64;
    let b1 = *slice_index_get(buf, off + 1) as u64;
    let b2 = *slice_index_get(buf, off + 2) as u64;
    let b3 = *slice_index_get(buf, off + 3) as u64;
    let b4 = *slice_index_get(buf, off + 4) as u64;
    let b5 = *slice_index_get(buf, off + 5) as u64;
    let b6 = *slice_index_get(buf, off + 6) as u64;
    let b7 = *slice_index_get(buf, off + 7) as u64;
    b0 + b1 * 0x100 + b2 * 0x10000 + b3 * 0x1000000 + b4 * 0x100000000 + b5 * 0x10000000000 + b6
        * 0x1000000000000 + b7 * 0x100000000000000
}

/// Copy the bytes in `[from, to)` out of the buffer.
pub fn copy_range(buf: &[u8], from: usize, to: usize) -> (r: Vec<u8>)
    requires
        from <= to <= buf@.len(),
    ensures
        r@ == buf@.subrange(from as int, to as int),
{
    slice_to_vec(slice_subrange(buf, from, to))
}

/// Relies on `String::from_utf8`: it succeeds exactly on valid UTF-8 input
/// and decodes the bytes to the character sequence that vstd's
/// `decode_utf8` describes.
#[verifier::external_body]
pub fn utf8_to_string(bytes: Vec<u8>) -> (r: Option<String>)
    ensures
        r is Some <==> valid_utf8(bytes@),
        r is Some ==> r.unwrap()@ == decode_utf8(bytes@),
{
    match String::from_utf8(bytes) {
        Ok(s) => Some(s),
        Err(_) => None,
    }
}

} // verus!
