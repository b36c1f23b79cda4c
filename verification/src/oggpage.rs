//! Demuxer for the chunked audio container: pages begin with the capture
//! pattern `OggS` and version 0, carry a 64-bit little-endian timestamp
//! counter (the granule position), and deliver a payload whose length is the
//! sum of the segment table. A malformed or truncated page simply ends the
//! page sequence; it is not an error.
use vstd::prelude::*;

verus! {

/// Whether a well-formed page header (capture pattern and version byte)
/// begins at index `i` with the full fixed header in bounds.
pub open spec fn page_header_ok(s: Seq<u8>, i: int) -> bool {
    &&& 0 <= i
    &&& i + 27 <= s.len()
    &&& s[i] == 0x4fu8
    &&& s[i + 1] == 0x67u8
    &&& s[i + 2] == 0x67u8
    &&& s[i + 3] == 0x53u8
    &&& s[i + 4] == 0u8
}

/// The 64-bit little-endian timestamp counter stored at index `i`.
pub open spec fn granule_at(s: Seq<u8>, i: int) -> nat {
    (s[i] as int + s[i + 1] as int * 0x100 + s[i + 2] as int * 0x10000 + s[i + 3] as int
        * 0x1000000 + s[i + 4] as int * 0x100000000 + s[i + 5] as int * 0x10000000000 + s[i
        + 6] as int * 0x1000000000000 + s[i + 7] as int * 0x100000000000000) as nat
}

/// Sum of the first `count` segment-table entries starting at `start`: the
/// payload length of the page.
pub open spec fn seg_sum(s: Seq<u8>, start: int, count: int) -> int
    decreases count,
{
    if count <= 0 {
        0
    } else {
        seg_sum(s, start, count - 1) + s[start + count - 1]
    }
}

/// A payload length is never negative and never exceeds 255 bytes per
/// segment.
pub proof fn lemma_seg_sum_bounds(s: Seq<u8>, start: int, count: int)
    ensures
        0 <= seg_sum(s, start, count),
        count >= 0 ==> seg_sum(s, start, count) <= 255 * count,
    decreases count,
{
    if count > 0 {
        lemma_seg_sum_bounds(s, start, count - 1);
    }
}

/// The page at index `i`, as its timestamp counter and payload bounds
/// `(granule, payload_start, payload_end)`; the next page starts at
/// `payload_end`. `None` when no well-formed, fully present page begins at
/// `i`.
pub open spec fn page_at(s: Seq<u8>, i: int) -> Option<(nat, int, int)> {
    if !page_header_ok(s, i) {
        None
    } else {
        let nsegs = s[i + 26] as int;
        if i + 27 + nsegs > s.len() {
            None
        } else {
            let plen = seg_sum(s, i + 27, nsegs);
            let pstart = i + 27 + nsegs;
            if pstart + plen > s.len() {
                None
            } else {
                Some((granule_at(s, i + 6), pstart, pstart + plen))
            }
        }
    }
}

/// A parsed page has well-formed payload bounds and strictly advances the
/// cursor, so demuxing any byte stream terminates.
pub proof fn lemma_page_progress(s: Seq<u8>, i: int)
    ensures
        page_at(s, i) matches Some((g, ps, pe)) ==> i < ps <= pe <= s.len(),
{
    if page_header_ok(s, i) {
        lemma_seg_sum_bounds(s, i + 27, s[i + 26] as int);
    }
}

/// All pages of the container from cursor `from` on, in stream order, each as
/// its timestamp counter and payload.
pub open spec fn audio_pages(s: Seq<u8>, from: int) -> Seq<(nat, Seq<u8>)>
    recommends
        0 <= from,
    decreases s.len() - from,
        via audio_pages_decreases
{
    match page_at(s, from) {
        None => Seq::empty(),
        Some((g, ps, pe)) => seq![(g, s.subrange(ps, pe))] + audio_pages(s, pe),
    }
}

#[via_fn]
proof fn audio_pages_decreases(s: Seq<u8>, from: int) {
    lemma_page_progress(s, from);
}

/// Parses the page at `from`: returns its timestamp counter, its payload and
/// the cursor of the following page, or `None` when no well-formed page is
/// fully present there. The cursor strictly advances, so a demux loop
/// terminates on any input, truncated or corrupt data included.
pub fn parse_page(data: &Vec<u8>, from: usize) -> (r: Option<(u64, Vec<u8>, usize)>)
    ensures
        (match page_at(data@, from as int) {
            None => r is None,
            Some((g, ps, pe)) => r matches Some((granule, payload, next)) && granule as nat == g
                && payload@ == data@.subrange(ps, pe) && next as int == pe,
        }),
        r matches Some((granule, payload, next)) ==> from < next <= data.len(),
{
    proof {
        lemma_page_progress(data@, from as int);
    }
    if data.len() < 27 || from > data.len() - 27 {
        return None;
    }
    if !(data[from] == 0x4f && data[from + 1] == 0x67 && data[from + 2] == 0x67 && data[from + 3]
        == 0x53 && data[from + 4] == 0) {
        return None;
    }
    let granule: u64 = data[from + 6] as u64 + (data[from + 7] as u64) * 0x100 + (data[from
        + 8] as u64) * 0x10000 + (data[from + 9] as u64) * 0x1000000 + (data[from + 10] as u64)
        * 0x100000000 + (data[from + 11] as u64) * 0x10000000000 + (data[from + 12] as u64)
        * 0x1000000000000 + (data[from + 13] as u64) * 0x100000000000000;
    let nsegs: usize = data[from + 26] as usize;
    if nsegs > data.len() - (from + 27) {
        return None;
    }
    let mut plen: usize = 0;
    let mut k: usize = 0;
    while k < nsegs
        invariant
            k <= nsegs,
            nsegs <= 255,
            from + 27 + nsegs <= data.len(),
            plen == seg_sum(data@, from + 27, k as int),
            plen <= 255 * k,
        decreases nsegs - k,
    {
        plen = plen + data[from + 27 + k] as usize;
        k = k + 1;
    }
    let pstart: usize = from + 27 + nsegs;
    if plen > data.len() - pstart {
        return None;
    }
    let mut payload: Vec<u8> = Vec::new();
    let mut i: usize = pstart;
    let pend: usize = pstart + plen;
    while i < pend
        invariant
            pstart <= i <= pend <= data.len(),
            payload@ =~= data@.subrange(pstart as int, i as int),
        decreases pend - i,
    {
        payload.push(data[i]);
        assert(data@.subrange(pstart as int, i + 1) =~= data@.subrange(
            pstart as int,
            i as int,
        ).push(data@[i as int]));
        i = i + 1;
    }
    assert(payload@ =~= data@.subrange(pstart as int, pend as int));
    Some((granule, payload, pend))
}

} // verus!
