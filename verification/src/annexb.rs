//! Demuxer for an Annex-B style video elementary stream: access units are
//! delimited by the three-byte start code `00 00 01`, with a leading zero
//! byte (a four-byte start code) absorbed into the delimiter. Malformed or
//! truncated data simply ends the unit sequence; it is not an error.
use vstd::prelude::*;

verus! {

/// Whether a three-byte start code `00 00 01` begins at index `i`.
pub open spec fn is_start_code_at(s: Seq<u8>, i: int) -> bool {
    &&& 0 <= i
    &&& i + 3 <= s.len()
    &&& s[i] == 0u8
    &&& s[i + 1] == 0u8
    &&& s[i + 2] == 1u8
}

/// Index of the first start code at or after `from`, if any.
pub open spec fn find_start_code(s: Seq<u8>, from: int) -> Option<int>
    recommends
        0 <= from,
    decreases s.len() - from,
{
    if from + 3 > s.len() {
        None
    } else if is_start_code_at(s, from) {
        Some(from)
    } else {
        find_start_code(s, from + 1)
    }
}

/// A found start code lies at or after `from`, within bounds, and really is
/// one.
pub proof fn lemma_find_start_code_bounds(s: Seq<u8>, from: int)
    ensures
        find_start_code(s, from) matches Some(sc) ==> from <= sc && is_start_code_at(s, sc),
    decreases s.len() - from,
{
    if from + 3 <= s.len() && !is_start_code_at(s, from) {
        lemma_find_start_code_bounds(s, from + 1);
    }
}

/// End of the payload that runs up to the start code at `nx`: a zero byte
/// directly before the start code belongs to a four-byte start code and is
/// trimmed off the payload.
pub open spec fn trimmed_end(s: Seq<u8>, ps: int, nx: int) -> int {
    if nx > ps && s[nx - 1] == 0u8 {
        nx - 1
    } else {
        nx
    }
}

/// The next access unit at or after cursor `from`, as payload bounds
/// `(start, end)` and the cursor for the unit after it: the bytes between the
/// first start code and the next one (or the end of the stream). `None` when
/// no further unit exists.
pub open spec fn next_unit_spec(s: Seq<u8>, from: int) -> Option<(int, int, int)> {
    match find_start_code(s, from) {
        None => None,
        Some(sc) => {
            let ps = sc + 3;
            match find_start_code(s, ps) {
                None => if ps < s.len() {
                    Some((ps, s.len() as int, s.len() as int))
                } else {
                    None
                },
                Some(nx) => Some((ps, trimmed_end(s, ps, nx), nx)),
            }
        },
    }
}

/// A parsed unit has well-formed payload bounds and strictly advances the
/// cursor, so demuxing any byte stream terminates.
pub proof fn lemma_next_unit_progress(s: Seq<u8>, from: int)
    ensures
        next_unit_spec(s, from) matches Some((ps, pe, nx)) ==> {
            &&& from < ps <= pe <= nx <= s.len()
            &&& from < nx
        },
{
    lemma_find_start_code_bounds(s, from);
    match find_start_code(s, from) {
        Some(sc) => lemma_find_start_code_bounds(s, sc + 3),
        None => (),
    }
}

/// All access units of the stream from cursor `from` on, in stream order.
pub open spec fn video_units(s: Seq<u8>, from: int) -> Seq<Seq<u8>>
    recommends
        0 <= from,
    decreases s.len() - from,
        via video_units_decreases
{
    match next_unit_spec(s, from) {
        None => Seq::empty(),
        Some((ps, pe, nx)) => seq![s.subrange(ps, pe)] + video_units(s, nx),
    }
}

#[via_fn]
proof fn video_units_decreases(s: Seq<u8>, from: int) {
    lemma_next_unit_progress(s, from);
}

/// Finds the first start code at or after `from`.
pub fn find_start(data: &Vec<u8>, from: usize) -> (r: Option<usize>)
    ensures
        (match find_start_code(data@, from as int) {
            None => r is None,
            Some(sc) => r matches Some(u) && u as int == sc,
        }),
        r matches Some(u) ==> from <= u && u + 3 <= data.len(),
{
    let mut i = from;
    loop
        invariant
            from <= i,
            find_start_code(data@, from as int) == find_start_code(data@, i as int),
        decreases data.len() - i,
    {
        if i >= data.len() || data.len() - i < 3 {
            assert(find_start_code(data@, i as int) is None);
            return None;
        }
        if data[i] == 0 && data[i + 1] == 0 && data[i + 2] == 1 {
            assert(is_start_code_at(data@, i as int));
            assert(find_start_code(data@, i as int) == Some(i as int));
            return Some(i);
        }
        assert(!is_start_code_at(data@, i as int));
        i = i + 1;
    }
}

/// Parses the next access unit at or after `from`: returns its payload and
/// the cursor of the following unit, or `None` when the stream holds no
/// further unit. The cursor strictly advances, so a demux loop terminates on
/// any input, truncated or corrupt data included.
pub fn next_access_unit(data: &Vec<u8>, from: usize) -> (r: Option<(Vec<u8>, usize)>)
    ensures
        (match next_unit_spec(data@, from as int) {
            None => r is None,
            Some((ps, pe, nx)) => r matches Some((payload, next)) && payload@ == data@.subrange(
                ps,
                pe,
            ) && next as int == nx,
        }),
        r matches Some((payload, next)) ==> from < next <= data.len(),
{
    proof {
        lemma_next_unit_progress(data@, from as int);
    }
    match find_start(data, from) {
        None => None,
        Some(sc) => {
            let ps = sc + 3;
            let (end, next): (usize, usize) = match find_start(data, ps) {
                None => {
                    if ps < data.len() {
                        (data.len(), data.len())
                    } else {
                        return None;
                    }
                },
                Some(nx) => {
                    let e: usize = if nx > ps && data[nx - 1] == 0 {
                        nx - 1
                    } else {
                        nx
                    };
                    (e, nx)
                },
            };
            let mut payload: Vec<u8> = Vec::new();
            let mut i = ps;
            while i < end
                invariant
                    ps <= i <= end <= data.len(),
                    payload@ =~= data@.subrange(ps as int, i as int),
                decreases end - i,
            {
                payload.push(data[i]);
                assert(data@.subrange(ps as int, i + 1) =~= data@.subrange(
                    ps as int,
                    i as int,
                ).push(data@[i as int]));
                i = i + 1;
            }
            assert(payload@ =~= data@.subrange(ps as int, end as int));
            Some((payload, next))
        },
    }
}

} // verus!
