//! Detection of VBR metadata inside the first structurally valid frame:
//! a Xing/Info tag at a (version, channel mode)-dependent offset, or a VBRI
//! tag at a fixed offset into the frame payload. Absence of both simply
//! signals a constant-bitrate stream.

use vstd::prelude::*;

use crate::types::{ChannelMode, FrameHeader, MpegVersion, VbrTag, VbrTagModel, VbriTag, XingModel, XingTag};

verus! {

/// Big-endian 32-bit integer starting at `p`.
pub open spec fn spec_be_u32_at(data: Seq<u8>, p: int) -> u32
    recommends 0 <= p, p + 4 <= data.len(),
{
    ((data[p] as int) * 0x1000000 + (data[p + 1] as int) * 0x10000
        + (data[p + 2] as int) * 0x100 + (data[p + 3] as int)) as u32
}

/// Big-endian 16-bit integer starting at `p`, widened to 32 bits.
pub open spec fn spec_be_u16_at(data: Seq<u8>, p: int) -> u32
    recommends 0 <= p, p + 2 <= data.len(),
{
    ((data[p] as int) * 0x100 + (data[p + 1] as int)) as u32
}

/// Offset of a Xing/Info tag from the start of its frame: the 4-byte header
/// plus the side-information size, which depends on version and channel
/// mode (32 or 17 bytes for version 1, 17 or 9 for versions 2 and 2.5).
pub open spec fn spec_xing_offset(v: MpegVersion, cm: ChannelMode) -> int {
    if v == MpegVersion::V1 {
        if cm == ChannelMode::Mono { 21 } else { 36 }
    } else {
        if cm == ChannelMode::Mono { 13 } else { 21 }
    }
}

/// Whether the four bytes at `x` spell "Xing" or "Info".
pub open spec fn spec_xing_magic(data: Seq<u8>, x: int) -> bool
    recommends 0 <= x, x + 4 <= data.len(),
{
    (data[x] == 0x58 && data[x + 1] == 0x69 && data[x + 2] == 0x6e && data[x + 3] == 0x67)
        || (data[x] == 0x49 && data[x + 1] == 0x6e && data[x + 2] == 0x66 && data[x + 3] == 0x6f)
}

/// Whether the four bytes at `p` spell "VBRI".
pub open spec fn spec_vbri_magic(data: Seq<u8>, p: int) -> bool
    recommends 0 <= p, p + 4 <= data.len(),
{
    data[p] == 0x56 && data[p + 1] == 0x42 && data[p + 2] == 0x52 && data[p + 3] == 0x49
}

/// The Xing/Info tag starting at `x`, if one does: after the magic, a
/// 4-byte flag field gates the frame-count, byte-count, table-of-contents
/// and quality fields, consumed in that fixed order. A tag whose declared
/// fields do not fit in the stream is ignored.
pub open spec fn spec_read_xing(data: Seq<u8>, x: int) -> Option<VbrTagModel> {
    if 0 <= x && x + 8 <= data.len() && spec_xing_magic(data, x) {
        let flags = spec_be_u32_at(data, x + 4);
        let f_frames = flags % 2 == 1;
        let f_bytes = (flags / 2) % 2 == 1;
        let f_toc = (flags / 4) % 2 == 1;
        let f_quality = (flags / 8) % 2 == 1;
        let p_frames = x + 8;
        let p_bytes = p_frames + if f_frames { 4int } else { 0int };
        let p_toc = p_bytes + if f_bytes { 4int } else { 0int };
        let p_quality = p_toc + if f_toc { 100int } else { 0int };
        let tag_end = p_quality + if f_quality { 4int } else { 0int };
        if tag_end <= data.len() {
            Some(VbrTagModel::Xing(XingModel {
                frames: if f_frames { spec_be_u32_at(data, p_frames) } else { 0 },
                bytes: if f_bytes { spec_be_u32_at(data, p_bytes) } else { 0 },
                toc: if f_toc { Some(data.subrange(p_toc, p_toc + 100)) } else { None },
                quality: if f_quality { Some(spec_be_u32_at(data, p_quality)) } else { None },
            }))
        } else {
            None
        }
    } else {
        None
    }
}

/// The VBRI tag starting at `p`, if one does: after the magic stand a
/// 2-byte version, 2-byte delay, 2-byte quality, 4-byte byte count and
/// 4-byte frame count, all big-endian.
pub open spec fn spec_read_vbri(data: Seq<u8>, p: int) -> Option<VbrTagModel> {
    if 0 <= p && p + 18 <= data.len() && spec_vbri_magic(data, p) {
        Some(VbrTagModel::Vbri(VbriTag {
            frames: spec_be_u32_at(data, p + 14),
            bytes: spec_be_u32_at(data, p + 10),
            delay_ms: spec_be_u16_at(data, p + 6),
        }))
    } else {
        None
    }
}

/// The VBR metadata of the frame starting at `off`: a Xing/Info tag takes
/// precedence; otherwise a VBRI tag, expected 36 bytes into the frame
/// payload (past the 4-byte header); otherwise none.
pub open spec fn spec_read_vbr(data: Seq<u8>, off: int, v: MpegVersion, cm: ChannelMode) -> VbrTagModel {
    match spec_read_xing(data, off + spec_xing_offset(v, cm)) {
        Some(t) => t,
        None => match spec_read_vbri(data, off + 40) {
            Some(t) => t,
            None => VbrTagModel::Absent,
        },
    }
}

/// Big-endian 32-bit read.
pub fn read_be_u32(data: &[u8], p: usize) -> (r: u32)
    requires
        p + 4 <= data@.len(),
    ensures
        r == spec_be_u32_at(data@, p as int),
{
    (data[p] as u32) * 0x1000000 + (data[p + 1] as u32) * 0x10000
        + (data[p + 2] as u32) * 0x100 + (data[p + 3] as u32)
}

/// Big-endian 16-bit read, widened to 32 bits.
pub fn read_be_u16(data: &[u8], p: usize) -> (r: u32)
    requires
        p + 2 <= data@.len(),
    ensures
        r == spec_be_u16_at(data@, p as int),
{
    (data[p] as u32) * 0x100 + (data[p + 1] as u32)
}

/// Copies the 100 table-of-contents bytes starting at `p`.
fn copy_toc(data: &[u8], p: usize) -> (r: Vec<u8>)
    requires
        p + 100 <= data@.len(),
    ensures
        r@ == data@.subrange(p as int, p as int + 100),
{
    let n = data.len();
    let mut v: Vec<u8> = Vec::new();
    let mut i: usize = 0;
    while i < 100
        invariant
            p + 100 <= n == data@.len(),
            i <= 100,
            v@ == data@.subrange(p as int, p as int + i as int),
        decreases 100 - i,
    {
        v.push(data[p + i]);
        i = i + 1;
        proof {
            assert(v@ =~= data@.subrange(p as int, p as int + i as int));
        }
    }
    v
}

/// Inspects the payload of the frame starting at `off` for a Xing/Info or
/// VBRI tag. All candidate reads are bounds-checked; a stream too short to
/// hold either tag simply carries none.
#[verifier::rlimit(60)]
pub fn read_vbr_tag(data: &[u8], off: usize, h: &FrameHeader) -> (r: VbrTag)
    requires
        off <= data@.len(),
    ensures
        r@ == spec_read_vbr(data@, off as int, h.mpeg_version, h.channel_mode),
{
    let n = data.len();
    let rem = n - off;
    let xoff: usize = if matches!(h.mpeg_version, MpegVersion::V1) {
        if matches!(h.channel_mode, ChannelMode::Mono) { 21 } else { 36 }
    } else {
        if matches!(h.channel_mode, ChannelMode::Mono) { 13 } else { 21 }
    };
    if rem >= xoff + 8 {
        let x = off + xoff;
        let is_xing = data[x] == 0x58 && data[x + 1] == 0x69 && data[x + 2] == 0x6e
            && data[x + 3] == 0x67;
        let is_info = data[x] == 0x49 && data[x + 1] == 0x6e && data[x + 2] == 0x66
            && data[x + 3] == 0x6f;
        if is_xing || is_info {
            let flags = read_be_u32(data, x + 4);
            let f_frames = flags % 2 == 1;
            let f_bytes = (flags / 2) % 2 == 1;
            let f_toc = (flags / 4) % 2 == 1;
            let f_quality = (flags / 8) % 2 == 1;
            let need: usize = 8 + (if f_frames { 4 } else { 0 }) + (if f_bytes { 4 } else { 0 })
                + (if f_toc { 100 } else { 0 }) + (if f_quality { 4 } else { 0 });
            if need <= rem - xoff {
                let p_frames = x + 8;
                let p_bytes = p_frames + (if f_frames { 4 } else { 0 });
                let p_toc = p_bytes + (if f_bytes { 4 } else { 0 });
                let p_quality = p_toc + (if f_toc { 100 } else { 0 });
                return VbrTag::Xing(XingTag {
                    frames: if f_frames { read_be_u32(data, p_frames) } else { 0 },
                    bytes: if f_bytes { read_be_u32(data, p_bytes) } else { 0 },
                    toc: if f_toc { Some(copy_toc(data, p_toc)) } else { None },
                    quality: if f_quality { Some(read_be_u32(data, p_quality)) } else { None },
                });
            }
        }
    }
    if rem >= 58 {
        let p = off + 40;
        if data[p] == 0x56 && data[p + 1] == 0x42 && data[p + 2] == 0x52 && data[p + 3] == 0x49 {
            return VbrTag::Vbri(VbriTag {
                frames: read_be_u32(data, p + 14),
                bytes: read_be_u32(data, p + 10),
                delay_ms: read_be_u16(data, p + 6),
            });
        }
    }
    VbrTag::Absent
}

} // verus!
