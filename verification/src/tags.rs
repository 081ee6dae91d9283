//! Structural skipping of metadata tags: a leading ID3v2 tag (with its
//! synch-safe size field and optional footer) and a trailing ID3v1 tag.
//! Tag contents are never interpreted.

use vstd::prelude::*;

use crate::types::FormatError;

verus! {

/// The 28-bit synch-safe size of an ID3v2 tag: seven usable bits per byte,
/// the most significant bit of each byte ignored.
pub open spec fn spec_synchsafe_size(b0: u8, b1: u8, b2: u8, b3: u8) -> int {
    (b0 % 128) * 0x200000 + (b1 % 128) * 0x4000 + (b2 % 128) * 128 + (b3 % 128)
}

/// Whether the stream opens with the three ID3v2 magic bytes "ID3".
pub open spec fn spec_has_id3v2_magic(data: Seq<u8>) -> bool {
    data.len() >= 3 && data[0] == 0x49 && data[1] == 0x44 && data[2] == 0x33
}

/// The audio region of the stream: the offset of the first byte past any
/// leading ID3v2 tag, and the offset of the trailing ID3v1 tag if the last
/// 128 bytes of the remaining region begin with "TAG", else the stream end.
/// Fails only when the declared ID3v2 region does not fit in the stream.
pub open spec fn spec_skip_tags(data: Seq<u8>) -> Result<(int, int), FormatError> {
    let n = data.len() as int;
    if spec_has_id3v2_magic(data) {
        if n < 10 {
            Err(FormatError::InconsistentTags)
        } else {
            let size = spec_synchsafe_size(data[6], data[7], data[8], data[9]);
            let footer: int = if (data[5] / 16) % 2 == 1 { 10 } else { 0 };
            let start = 10 + size + footer;
            if start > n {
                Err(FormatError::InconsistentTags)
            } else {
                Ok((start, spec_audio_end(data, start)))
            }
        }
    } else {
        Ok((0, spec_audio_end(data, 0)))
    }
}

/// The end of the audio region once its start is fixed: the last 128 bytes
/// are excluded when they begin with the ID3v1 magic "TAG".
pub open spec fn spec_audio_end(data: Seq<u8>, start: int) -> int {
    let n = data.len() as int;
    if n - start >= 128 && data[n - 128] == 0x54 && data[n - 127] == 0x41 && data[n - 126] == 0x47 {
        n - 128
    } else {
        n
    }
}

/// Bounds the audio region: computes where frame scanning starts (past any
/// ID3v2 tag) and ends (before any ID3v1 tag). Absence of tags is normal;
/// the only failure is an ID3v2 size field inconsistent with the stream
/// length.
pub fn skip_tags(data: &[u8]) -> (r: Result<(usize, usize), FormatError>)
    ensures
        match r {
            Ok(p) => {
                &&& spec_skip_tags(data@) == Ok::<(int, int), FormatError>((p.0 as int, p.1 as int))
                &&& p.0 <= p.1 <= data@.len()
            },
            Err(e) => spec_skip_tags(data@) == Err::<(int, int), FormatError>(e),
        },
{
    let n = data.len();
    let start: usize;
    if n >= 3 && data[0] == 0x49 && data[1] == 0x44 && data[2] == 0x33 {
        if n < 10 {
            return Err(FormatError::InconsistentTags);
        }
        let size: usize = (data[6] % 128) as usize * 0x200000
            + (data[7] % 128) as usize * 0x4000
            + (data[8] % 128) as usize * 128
            + (data[9] % 128) as usize;
        let footer: usize = if (data[5] / 16) % 2 == 1 { 10 } else { 0 };
        if 10 + size + footer > n {
            return Err(FormatError::InconsistentTags);
        }
        start = 10 + size + footer;
    } else {
        start = 0;
    }
    let end: usize = if n - start >= 128
        && data[n - 128] == 0x54 && data[n - 127] == 0x41 && data[n - 126] == 0x47 {
        n - 128
    } else {
        n
    };
    Ok((start, end))
}

} // verus!
