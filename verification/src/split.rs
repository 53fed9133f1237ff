//! Splitting a raw Central-Directory region into per-entry slices.
//!
//! The region is scanned once; every occurrence of the CD signature opens
//! a slice that runs to the next occurrence, or to the end of the region
//! for the last one.  A region with no occurrence yields no slices — the
//! caller decides whether that is fatal by comparing against the EOCD's
//! declared count.

use vstd::prelude::*;
use vstd::slice::*;

use crate::field::copy_range;
use crate::signature::{
    cd_sig, cd_sig_bytes, is_match, lemma_match_positions_upto, lemma_match_positions_upto_stable,
    match_positions, match_positions_upto, matches_at,
};

verus! {

/// The slices the splitter produces: one per CD-signature occurrence,
/// each spanning from its occurrence to the next (exclusive), the last
/// one to the end of the region.
pub open spec fn spec_split(b: Seq<u8>) -> Seq<Seq<u8>> {
    let ps = match_positions(b, cd_sig());
    Seq::new(
        ps.len(),
        |j: int|
            b.subrange(
                ps[j],
                if j + 1 < ps.len() {
                    ps[j + 1]
                } else {
                    b.len() as int
                },
            ),
    )
}

/// Split a CD region into one sub-slice per CD-signature occurrence.
pub fn split_cd_region(region: &[u8]) -> (r: Vec<Vec<u8>>)
    ensures
        r@.len() == spec_split(region@).len(),
        forall|j: int| 0 <= j < r@.len() ==> #[trigger] r@[j]@ == spec_split(region@)[j],
{
    proof {
        assert(region@.len() <= usize::MAX) by {
            assert(spec_slice_len(region) == region@.len());
        }
    }
    let len = region.len();
    let sig = cd_sig_bytes();
    let mut positions: Vec<usize> = Vec::new();
    let mut i: usize = 0;
    while i < len
        invariant
            len == region@.len(),
            len <= usize::MAX,
            sig@ == cd_sig(),
            i <= len,
            positions@.map_values(|p: usize| p as int) =~= match_positions_upto(
                region@,
                cd_sig(),
                i as int,
            ),
            forall|j: int| 0 <= j < positions@.len() ==> #[trigger] positions@[j] < len,
        decreases len - i,
    {
        if len - i >= 4 && is_match(region, sig.as_slice(), i) {
            positions.push(i);
        } else {
            proof {
                assert(!matches_at(region@, cd_sig(), i as int));
            }
        }
        i = i + 1;
    }
    proof {
        lemma_match_positions_upto_stable(region@, cd_sig(), len as int, region@.len() as int);
        assert(positions@.map_values(|p: usize| p as int) =~= match_positions(region@, cd_sig()));
        lemma_match_positions_upto(region@, cd_sig(), region@.len() as int);
    }
    let count = positions.len();
    let mut slices: Vec<Vec<u8>> = Vec::new();
    let mut j: usize = 0;
    while j < count
        invariant
            len == region@.len(),
            count == positions@.len(),
            positions@.map_values(|p: usize| p as int) == match_positions(region@, cd_sig()),
            j <= count,
            slices@.len() == j,
            forall|q: int| 0 <= q < j ==> #[trigger] slices@[q]@ == spec_split(region@)[q],
        decreases count - j,
    {
        proof {
            lemma_match_positions_upto(region@, cd_sig(), region@.len() as int);
            let ps = match_positions(region@, cd_sig());
            assert(positions@.map_values(|p: usize| p as int)[j as int] == positions@[j as int]
                as int);
            assert(matches_at(region@, cd_sig(), ps[j as int]));
            if j + 1 < count {
                assert(positions@.map_values(|p: usize| p as int)[j + 1] == positions@[j + 1]
                    as int);
                assert(ps[j as int] < ps[j + 1]);
            }
        }
        let start = positions[j];
        let end = if j + 1 < count {
            positions[j + 1]
        } else {
            len
        };
        slices.push(copy_range(region, start, end));
        j = j + 1;
    }
    slices
}

/// A region holding exactly three CD records — the signature occurs at
/// their boundaries `0 < a < c` and nowhere else, whatever the interior
/// bytes of names and comments hold — splits into exactly three slices
/// whose bounds are those boundaries.
pub proof fn lemma_split_three_records(b: Seq<u8>, a: int, c: int)
    requires
        0 < a < c,
        matches_at(b, cd_sig(), 0),
        matches_at(b, cd_sig(), a),
        matches_at(b, cd_sig(), c),
        forall|i: int| matches_at(b, cd_sig(), i) ==> i == 0 || i == a || i == c,
    ensures
        spec_split(b) == seq![b.subrange(0, a), b.subrange(a, c), b.subrange(c, b.len() as int)],
{
    let sig = cd_sig();
    let len = b.len() as int;
    assert(c + 4 <= len);
    assert forall|i: int| 0 < i < a implies !matches_at(b, sig, i) by {}
    assert(match_positions_upto(b, sig, 0) =~= Seq::<int>::empty());
    lemma_match_positions_upto_stable(b, sig, 1, a);
    lemma_match_positions_upto_stable(b, sig, a + 1, c);
    lemma_match_positions_upto_stable(b, sig, c + 1, len);
    assert(match_positions_upto(b, sig, 1) =~= seq![0int]);
    assert(match_positions_upto(b, sig, a + 1) =~= seq![0int, a]);
    assert(match_positions_upto(b, sig, c + 1) =~= seq![0int, a, c]);
    assert(match_positions(b, sig) =~= seq![0int, a, c]);
    assert(spec_split(b) =~= seq![
        b.subrange(0, a),
        b.subrange(a, c),
        b.subrange(c, b.len() as int),
    ]);
}

} // verus!
