//! Frame synchronization scanning: byte-by-byte search for an 11-bit sync
//! pattern, candidate validation by the two-frame consistency rule, and the
//! guarantee that a rejected candidate resumes scanning one byte later.

use vstd::prelude::*;

use crate::header::{lemma_parse_header_bounds, parse_frame_header, spec_parse_header};
use crate::types::{FormatError, FrameHeader};

verus! {

/// Whether an 11-bit all-ones sync word starts at `off`.
pub open spec fn spec_is_sync(data: Seq<u8>, off: int) -> bool
    recommends 0 <= off, off + 2 <= data.len(),
{
    data[off] == 0xff && data[off + 1] >= 0xe0
}

/// The header of a structurally valid frame starting at `off`, if one does:
/// the four header bytes must decode, and a second sync word must stand at
/// exactly `off + frame_length_bytes`, still inside the region.
pub open spec fn spec_valid_frame_at(data: Seq<u8>, off: int, end: int) -> Option<FrameHeader>
    recommends 0 <= off, off + 4 <= end <= data.len(),
{
    match spec_parse_header(data[off], data[off + 1], data[off + 2], data[off + 3]) {
        Some(h) => {
            if off + h.frame_length_bytes + 2 <= end
                && spec_is_sync(data, off + h.frame_length_bytes) {
                Some(h)
            } else {
                None
            }
        },
        None => None,
    }
}

/// The first structurally valid frame at or after `off` within
/// `[off, end)`, with its offset. A candidate that fails either the header
/// decode or the second-sync rule is skipped by exactly one byte.
pub open spec fn spec_find_frame(data: Seq<u8>, off: int, end: int) -> Option<(FrameHeader, int)>
    recommends 0 <= off, end <= data.len(),
    decreases end - off,
{
    if off < 0 || off + 4 > end {
        None
    } else {
        match spec_valid_frame_at(data, off, end) {
            Some(h) => Some((h, off)),
            None => spec_find_frame(data, off + 1, end),
        }
    }
}

/// What the scan finds is sound and minimal: the returned offset carries a
/// structurally valid frame, lies inside the region, and no earlier offset
/// in the region carries one.
pub proof fn lemma_find_frame_sound(data: Seq<u8>, off: int, end: int)
    requires
        0 <= off,
        end <= data.len(),
    ensures
        spec_find_frame(data, off, end) matches Some(p) ==> {
            &&& off <= p.1
            &&& p.1 + 4 <= end
            &&& spec_valid_frame_at(data, p.1, end) == Some(p.0)
            &&& forall|o: int| off <= o < p.1 ==> spec_valid_frame_at(data, o, end) is None
        },
    decreases end - off,
{
    if off + 4 <= end && spec_find_frame(data, off, end) is Some {
        if spec_valid_frame_at(data, off, end) is None {
            lemma_find_frame_sound(data, off + 1, end);
        }
    }
}

/// Locates the first structurally valid frame in `[start, end)`. A stream
/// with no pair of consecutive sync words in the region has no valid frame
/// and yields `NoAudioFrames`.
pub fn find_first_frame(data: &[u8], start: usize, end: usize) -> (r: Result<
    (FrameHeader, usize),
    FormatError,
>)
    requires
        start <= end <= data@.len(),
    ensures
        match r {
            Ok(p) => {
                &&& spec_find_frame(data@, start as int, end as int)
                    == Some((p.0, p.1 as int))
                &&& start <= p.1
                &&& p.1 + p.0.frame_length_bytes + 2 <= end
                &&& 24 <= p.0.frame_length_bytes <= 8065
            },
            Err(e) => {
                &&& e == FormatError::NoAudioFrames
                &&& spec_find_frame(data@, start as int, end as int) is None
            },
        },
{
    let mut off = start;
    while end - off >= 4
        invariant
            start <= off <= end <= data@.len(),
            spec_find_frame(data@, start as int, end as int)
                == spec_find_frame(data@, off as int, end as int),
        decreases end - off,
    {
        match parse_frame_header(data, off) {
            Some(h) => {
                let fl = h.frame_length_bytes as usize;
                if fl + 2 <= end - off && data[off + fl] == 0xff && data[off + fl + 1] >= 0xe0 {
                    proof {
                        lemma_parse_header_bounds(
                            data@[off as int], data@[off as int + 1],
                            data@[off as int + 2], data@[off as int + 3]);
                        assert(spec_valid_frame_at(data@, off as int, end as int) == Some(h));
                    }
                    return Ok((h, off));
                }
                proof {
                    assert(spec_valid_frame_at(data@, off as int, end as int) is None);
                }
            },
            None => {
                proof {
                    assert(spec_valid_frame_at(data@, off as int, end as int) is None);
                }
            },
        }
        off = off + 1;
    }
    Err(FormatError::NoAudioFrames)
}

} // verus!
