//! Locating the fixed magic values that open each ZIP record.
//!
//! A signature is a short byte pattern; scanning runs left-to-right from
//! the start of the buffer, so the first occurrence wins even if a later
//! one is the "true" record boundary.

use vstd::prelude::*;
use vstd::slice::*;

verus! {

/// The EOCD signature in its legacy 32-bit form, `0x06054b50` stored
/// little-endian.
pub open spec fn eocd32_sig() -> Seq<u8> {
    seq![0x50u8, 0x4bu8, 0x05u8, 0x06u8]
}

/// The EOCD signature in its ZIP64 form, `0x06064b50` stored little-endian.
pub open spec fn eocd64_sig() -> Seq<u8> {
    seq![0x50u8, 0x4bu8, 0x06u8, 0x06u8]
}

/// The Central-Directory file-header signature, `0x02014b50` stored
/// little-endian.
pub open spec fn cd_sig() -> Seq<u8> {
    seq![0x50u8, 0x4bu8, 0x01u8, 0x02u8]
}

/// The EOCD 32-bit signature as bytes, for scanning a buffer.
pub fn sig32_bytes() -> (v: Vec<u8>)
    ensures
        v@ == eocd32_sig(),
{
    let mut v: Vec<u8> = Vec::new();
    v.push(0x50u8);
    v.push(0x4bu8);
    v.push(0x05u8);
    v.push(0x06u8);
    proof {
        assert(v@ =~= eocd32_sig());
    }
    v
}

/// The EOCD ZIP64 signature as bytes, for scanning a buffer.
pub fn sig64_bytes() -> (v: Vec<u8>)
    ensures
        v@ == eocd64_sig(),
{
    let mut v: Vec<u8> = Vec::new();
    v.push(0x50u8);
    v.push(0x4bu8);
    v.push(0x06u8);
    v.push(0x06u8);
    proof {
        assert(v@ =~= eocd64_sig());
    }
    v
}

/// The Central-Directory signature as bytes, for scanning a buffer.
pub fn cd_sig_bytes() -> (v: Vec<u8>)
    ensures
        v@ == cd_sig(),
{
    let mut v: Vec<u8> = Vec::new();
    v.push(0x50u8);
    v.push(0x4bu8);
    v.push(0x01u8);
    v.push(0x02u8);
    proof {
        assert(v@ =~= cd_sig());
    }
    v
}

/// The window of `b` starting at `i` equals `pat`.
pub open spec fn matches_at(b: Seq<u8>, pat: Seq<u8>, i: int) -> bool {
    &&& 0 <= i
    &&& i + pat.len() <= b.len()
    &&& b.subrange(i, i + pat.len() as int) == pat
}

/// Every index below `n` whose window equals `pat`, in increasing order.
pub open spec fn match_positions_upto(b: Seq<u8>, pat: Seq<u8>, n: int) -> Seq<int>
    decreases n,
{
    if n <= 0 {
        Seq::empty()
    } else if matches_at(b, pat, n - 1) {
        match_positions_upto(b, pat, n - 1).push(n - 1)
    } else {
        match_positions_upto(b, pat, n - 1)
    }
}

/// Every index of `b` whose window equals `pat`, in increasing order.
pub open spec fn match_positions(b: Seq<u8>, pat: Seq<u8>) -> Seq<int> {
    match_positions_upto(b, pat, b.len() as int)
}

/// The recorded positions below `n` are exactly the matching indices below
/// `n`, listed in strictly increasing order.
pub proof fn lemma_match_positions_upto(b: Seq<u8>, pat: Seq<u8>, n: int)
    ensures
        forall|k: int|
            0 <= k < match_positions_upto(b, pat, n).len() ==> {
                &&& matches_at(b, pat, #[trigger] match_positions_upto(b, pat, n)[k])
                &&& match_positions_upto(b, pat, n)[k] < n
            },
        forall|i: int|
            0 <= i < n && matches_at(b, pat, i) ==> match_positions_upto(b, pat, n).contains(i),
        forall|k1: int, k2: int|
            0 <= k1 < k2 < match_positions_upto(b, pat, n).len() ==> match_positions_upto(
                b,
                pat,
                n,
            )[k1] < match_positions_upto(b, pat, n)[k2],
    decreases n,
{
    if n > 0 {
        lemma_match_positions_upto(b, pat, n - 1);
        let prev = match_positions_upto(b, pat, n - 1);
        let cur = match_positions_upto(b, pat, n);
        assert forall|i: int| 0 <= i < n && matches_at(b, pat, i) implies cur.contains(i) by {
            if i < n - 1 {
                assert(prev.contains(i));
                let k = choose|k: int| 0 <= k < prev.len() && prev[k] == i;
                assert(cur[k] == i);
            } else {
                assert(matches_at(b, pat, n - 1));
                assert(cur.last() == n - 1);
            }
        }
    }
}

/// If no window in `[m, n)` matches, scanning up to `n` records the same
/// positions as scanning up to `m`.
pub proof fn lemma_match_positions_upto_stable(b: Seq<u8>, pat: Seq<u8>, m: int, n: int)
    requires
        m <= n,
        forall|i: int| m <= i < n ==> !matches_at(b, pat, i),
    ensures
        match_positions_upto(b, pat, n) == match_positions_upto(b, pat, m),
    decreases n - m,
{
    if m < n {
        assert(!matches_at(b, pat, n - 1));
        lemma_match_positions_upto_stable(b, pat, m, n - 1);
    }
}

/// A match at `i` with none below it is the head of the recorded
/// positions.
pub proof fn lemma_first_match_is_head(b: Seq<u8>, pat: Seq<u8>, i: int)
    requires
        pat.len() >= 1,
        matches_at(b, pat, i),
        forall|j: int| 0 <= j < i ==> !matches_at(b, pat, j),
    ensures
        match_positions(b, pat).len() > 0,
        match_positions(b, pat)[0] == i,
{
    lemma_match_positions_upto(b, pat, b.len() as int);
    let ps = match_positions(b, pat);
    assert(i < b.len());
    assert(ps.contains(i));
    let k = choose|k: int| 0 <= k < ps.len() && ps[k] == i;
    assert(matches_at(b, pat, ps[0]));
    if k > 0 {
        assert(ps[0] < ps[k]);
    }
    assert(!(ps[0] < i));
}

/// With no match anywhere, no position is recorded.
pub proof fn lemma_no_match_no_positions(b: Seq<u8>, pat: Seq<u8>)
    requires
        forall|i: int| !matches_at(b, pat, i),
    ensures
        match_positions(b, pat).len() == 0,
{
    lemma_match_positions_upto(b, pat, b.len() as int);
    let ps = match_positions(b, pat);
    if ps.len() > 0 {
        assert(matches_at(b, pat, ps[0]));
    }
}

/// The window of `buf` at `i` equals `pat`, checked byte by byte.
pub fn is_match(buf: &[u8], pat: &[u8], i: usize) -> (r: bool)
    requires
        i + pat@.len() <= buf@.len(),
    ensures
        r == matches_at(buf@, pat@, i as int),
{
    proof {
        assert(buf@.len() <= usize::MAX) by {
            assert(spec_slice_len(buf) == buf@.len());
        }
    }
    let n = pat.len();
    let mut j: usize = 0;
    while j < n
        invariant
            i + n <= buf@.len(),
            buf@.len() <= usize::MAX,
            n == pat@.len(),
            j <= n,
            forall|k: int| 0 <= k < j ==> buf@[i + k] == pat@[k],
        decreases n - j,
    {
        if *slice_index_get(buf, i + j) != *slice_index_get(pat, j) {
            assert(buf@.subrange(i as int, i + n) != pat@) by {
                assert(buf@.subrange(i as int, i + n)[j as int] != pat@[j as int]);
            }
            return false;
        }
        j = j + 1;
    }
    assert(buf@.subrange(i as int, i + n) =~= pat@);
    true
}

/// Index of the first window of `buf` that equals `pat`, scanning forward
/// from the start; `None` when no window matches.
pub fn find_signature(buf: &[u8], pat: &[u8]) -> (r: Option<usize>)
    requires
        pat@.len() >= 1,
    ensures
        match r {
            Some(i) => {
                &&& matches_at(buf@, pat@, i as int)
                &&& forall|j: int| 0 <= j < i ==> !matches_at(buf@, pat@, j)
            },
            None => forall|j: int| !matches_at(buf@, pat@, j),
        },
{
    let n = buf.len();
    let m = pat.len();
    if n < m {
        return None;
    }
    let mut i: usize = 0;
    while i <= n - m
        invariant
            m >= 1,
            m <= n,
            n == buf@.len(),
            m == pat@.len(),
            i <= n - m + 1,
            forall|j: int| 0 <= j < i ==> !matches_at(buf@, pat@, j),
        decreases n - i,
    {
        if is_match(buf, pat, i) {
            return Some(i);
        }
        i = i + 1;
    }
    None
}

} // verus!
