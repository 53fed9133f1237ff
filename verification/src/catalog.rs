//! Building the catalog of a remote ZIP archive.
//!
//! The build is a linear pipeline: locate and decode the EOCD inside the
//! fetched tail buffer, fetch the Central-Directory region its pointers
//! name, split that region, decode each slice, and reconcile the entry
//! count.  The two fetches are the caller's: this module only consumes
//! the buffers they produced, so a failed EOCD search means the caller
//! never fetches the CD region at all.

use vstd::prelude::*;
use vstd::slice::*;

use crate::cd::{Cd, CdError, CdView, spec_cd_decode};
use crate::eocd::{Eocd, EocdError, EocdView, spec_eocd_decode};
use crate::signature::{
    eocd32_sig, eocd64_sig, find_signature, lemma_first_match_is_head, lemma_no_match_no_positions,
    match_positions, sig32_bytes, sig64_bytes,
};
use crate::split::{spec_split, split_cd_region};
use crate::WordSize;

verus! {

/// Why a catalog build failed outright.
#[derive(Debug, Clone, Copy, PartialEq, Eq, Structural)]
pub enum CatalogError {
    /// Neither EOCD signature occurs in the tail buffer; fetching a
    /// larger tail may reveal it.
    EocdSignatureNotFound,
    /// An EOCD signature was found but the record at it failed to decode.
    InvalidEocd(EocdError),
}

impl CatalogError {
    /// A line of text describing the failure to a user.
    pub fn message(&self) -> (r: String)
        ensures
            match self {
                CatalogError::EocdSignatureNotFound => r@
                    == "EOCD signature not found; increase the comment buffer size"@,
                CatalogError::InvalidEocd(_) => r@ == "the located EOCD record failed to decode"@,
            },
    {
        match self {
            CatalogError::EocdSignatureNotFound => String::from_str(
                "EOCD signature not found; increase the comment buffer size",
            ),
            CatalogError::InvalidEocd(_) => String::from_str(
                "the located EOCD record failed to decode",
            ),
        }
    }
}

/// What locating and decoding the EOCD inside a tail buffer yields: the
/// record decoded at the first 32-bit signature occurrence, else at the
/// first 64-bit occurrence, else the signature-not-found error.
pub open spec fn spec_locate_eocd(b: Seq<u8>) -> Result<EocdView, CatalogError> {
    let p32 = match_positions(b, eocd32_sig());
    let p64 = match_positions(b, eocd64_sig());
    if p32.len() > 0 {
        spec_wrap_eocd(spec_eocd_decode(b.subrange(p32[0], b.len() as int)))
    } else if p64.len() > 0 {
        spec_wrap_eocd(spec_eocd_decode(b.subrange(p64[0], b.len() as int)))
    } else {
        Err(CatalogError::EocdSignatureNotFound)
    }
}

/// Lift a record-level EOCD decode result to the catalog level.
pub open spec fn spec_wrap_eocd(r: Result<EocdView, EocdError>) -> Result<
    EocdView,
    CatalogError,
> {
    match r {
        Ok(v) => Ok(v),
        Err(e) => Err(CatalogError::InvalidEocd(e)),
    }
}

/// Scan a tail buffer for an EOCD record and decode it.
///
/// The 32-bit signature is searched first; only when it occurs nowhere is
/// the 64-bit signature searched.  When neither occurs the build fails
/// with `EocdSignatureNotFound` and no CD region needs fetching.
pub fn locate_eocd(tail: &[u8]) -> (r: Result<Eocd, CatalogError>)
    ensures
        match r {
            Ok(e) => spec_locate_eocd(tail@) == Ok::<EocdView, CatalogError>(e@),
            Err(err) => spec_locate_eocd(tail@) == Err::<EocdView, CatalogError>(err),
        },
{
    proof {
        assert(tail@.len() <= usize::MAX) by {
            assert(spec_slice_len(tail) == tail@.len());
        }
    }
    let len = tail.len();
    let sig32 = sig32_bytes();
    let sig64 = sig64_bytes();
    let start: usize = match find_signature(tail, sig32.as_slice()) {
        Some(i) => {
            proof {
                lemma_first_match_is_head(tail@, eocd32_sig(), i as int);
            }
            i
        },
        None => {
            proof {
                lemma_no_match_no_positions(tail@, eocd32_sig());
            }
            match find_signature(tail, sig64.as_slice()) {
                Some(i) => {
                    proof {
                        lemma_first_match_is_head(tail@, eocd64_sig(), i as int);
                    }
                    i
                },
                None => {
                    proof {
                        lemma_no_match_no_positions(tail@, eocd64_sig());
                    }
                    return Err(CatalogError::EocdSignatureNotFound);
                },
            }
        },
    };
    let record = slice_subrange(tail, start, len);
    match Eocd::from(record) {
        Ok(e) => Ok(e),
        Err(err) => Err(CatalogError::InvalidEocd(err)),
    }
}

/// The decode result of every slice of the region, in region order.
pub open spec fn spec_decode_results(b: Seq<u8>) -> Seq<Result<CdView, CdError>> {
    spec_split(b).map_values(|s: Seq<u8>| spec_cd_decode(s))
}

/// The successfully decoded entries among `rs`, in order.
pub open spec fn ok_views(rs: Seq<Result<CdView, CdError>>) -> Seq<CdView>
    decreases rs.len(),
{
    if rs.len() == 0 {
        Seq::empty()
    } else {
        ok_views(rs.drop_last()) + (match rs.last() {
            Ok(v) => seq![v],
            Err(_) => Seq::<CdView>::empty(),
        })
    }
}

/// The decode failures among `rs`, in order.
pub open spec fn err_values(rs: Seq<Result<CdView, CdError>>) -> Seq<CdError>
    decreases rs.len(),
{
    if rs.len() == 0 {
        Seq::empty()
    } else {
        err_values(rs.drop_last()) + (match rs.last() {
            Ok(_) => Seq::<CdError>::empty(),
            Err(e) => seq![e],
        })
    }
}

/// Split a fetched CD region and decode every slice.
///
/// Decode failures are collected, not fatal: the entries that did decode
/// come back in region order beside the errors of those that did not.
pub fn decode_cd_region(region: &[u8]) -> (r: (Vec<Cd>, Vec<CdError>))
    ensures
        r.0@.map_values(|c: Cd| c@) == ok_views(spec_decode_results(region@)),
        r.1@ == err_values(spec_decode_results(region@)),
{
    let slices = split_cd_region(region);
    let total = slices.len();
    let mut entries: Vec<Cd> = Vec::new();
    let mut failures: Vec<CdError> = Vec::new();
    let ghost results = spec_decode_results(region@);
    let mut idx: usize = 0;
    while idx < total
        invariant
            total == slices@.len(),
            results == spec_decode_results(region@),
            slices@.len() == spec_split(region@).len(),
            forall|j: int| 0 <= j < total ==> #[trigger] slices@[j]@ == spec_split(region@)[j],
            idx <= total,
            entries@.map_values(|c: Cd| c@) == ok_views(results.take(idx as int)),
            failures@ == err_values(results.take(idx as int)),
        decreases total - idx,
    {
        proof {
            assert(results[idx as int] == spec_cd_decode(spec_split(region@)[idx as int]));
            assert(results.take(idx + 1).drop_last() =~= results.take(idx as int));
            assert(results.take(idx + 1).last() == results[idx as int]);
        }
        match Cd::from(slices[idx].as_slice()) {
            Ok(c) => {
                entries.push(c);
                proof {
                    assert(entries@.map_values(|c: Cd| c@) =~= ok_views(results.take(idx + 1)));
                    assert(failures@ =~= err_values(results.take(idx + 1)));
                }
            },
            Err(e) => {
                failures.push(e);
                proof {
                    assert(entries@.map_values(|c: Cd| c@) =~= ok_views(results.take(idx + 1)));
                    assert(failures@ =~= err_values(results.take(idx + 1)));
                }
            },
        }
        idx = idx + 1;
    }
    proof {
        assert(results.take(total as int) =~= results);
    }
    (entries, failures)
}

/// One built catalog: the EOCD and the CD entries it pointed at.
///
/// Transient: it exists for the duration of one listing and holds no
/// state beyond its two decoded parts.
pub struct Zip {
    pub eocd: Eocd,
    pub cd_list: Vec<Cd>,
}

impl Zip {
    /// Assemble a catalog from its decoded parts.
    pub fn build(eocd: Eocd, cd_list: Vec<Cd>) -> (z: Zip)
        ensures
            z.eocd == eocd,
            z.cd_list == cd_list,
    {
        Zip { eocd, cd_list }
    }

    /// The word size of the catalog's EOCD record.
    pub fn word_size(&self) -> (r: WordSize)
        ensures
            r == self.eocd@.word_size,
    {
        self.eocd.verify_wordsize()
    }

    /// Compare the EOCD's declared on-disk record count against the
    /// number of entries that decoded: `Some((declared, found))` exactly
    /// when they differ.  A mismatch is a warning, never an error — the
    /// list is returned regardless.
    pub fn count_mismatch(&self) -> (r: Option<(u64, u64)>)
        ensures
            match r {
                Some(pair) => {
                    &&& self.eocd@.number_of_cd_records_on_disk != self.cd_list@.len()
                    &&& pair.0 == self.eocd@.number_of_cd_records_on_disk
                    &&& pair.1 == self.cd_list@.len()
                },
                None => self.eocd@.number_of_cd_records_on_disk == self.cd_list@.len(),
            },
    {
        let declared = self.eocd.number_of_cd_records_on_disk();
        let found = self.cd_list.len() as u64;
        if declared != found {
            Some((declared, found))
        } else {
            None
        }
    }
}

} // verus!
