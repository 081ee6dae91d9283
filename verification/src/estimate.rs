//! Duration and bitrate estimation: exact frame-count arithmetic when a VBR
//! tag supplies a total frame count, constant-bitrate arithmetic over the
//! audio region size otherwise. A zero bitrate or sample rate is rejected
//! before any division.

use vstd::prelude::*;

use crate::header::{samples_per_frame_for, spec_samples_per_frame};
use crate::types::{FormatError, FrameHeader, Layer, MpegVersion, VbrTag, VbrTagModel};

verus! {

/// The total frame count a VBR tag carries; 0 when no tag (or no count) is
/// present, which selects the constant-bitrate estimate.
pub open spec fn spec_vbr_frame_count(t: VbrTagModel) -> u32 {
    match t {
        VbrTagModel::Absent => 0,
        VbrTagModel::Xing(x) => x.frames,
        VbrTagModel::Vbri(v) => v.frames,
    }
}

/// Duration in milliseconds of `frames` frames: each frame carries a fixed
/// number of samples played at the stream's sample rate.
pub open spec fn spec_vbr_duration_ms(frames: u32, v: MpegVersion, l: Layer, sr: u32) -> int
    recommends sr > 0,
{
    frames * spec_samples_per_frame(v, l) * 1000 / (sr as int)
}

/// Clamps a nonnegative mathematical integer into a `u32` result field.
pub open spec fn spec_saturate_u32(x: int) -> u32
    recommends 0 <= x,
{
    if x > u32::MAX { u32::MAX } else { x as u32 }
}

/// Duration in milliseconds and bitrate in bits per second for a stream
/// whose first valid frame is `h`, whose VBR metadata is `t`, and whose
/// audio region holds `audio_size` bytes.
///
/// With a positive VBR frame count, the duration is exact frame arithmetic
/// and the bitrate is derived from it; otherwise the stream is treated as
/// constant-bitrate and the duration approximated from the region size and
/// the first frame's bitrate. A zero bitrate or sample rate yields
/// `InvalidFormat`, never a division by zero.
pub open spec fn spec_estimate(h: FrameHeader, t: VbrTagModel, audio_size: u64) -> Result<
    (u32, u32),
    FormatError,
> {
    if h.bitrate_kbps == 0 || h.sample_rate_hz == 0 {
        Err(FormatError::InvalidFormat)
    } else {
        let frames = spec_vbr_frame_count(t);
        if frames > 0 {
            let dur = spec_saturate_u32(
                spec_vbr_duration_ms(frames, h.mpeg_version, h.layer, h.sample_rate_hz));
            let br = if dur > 0 {
                spec_saturate_u32(audio_size * 8 * 1000 / (dur as int))
            } else {
                spec_saturate_u32(h.bitrate_kbps * 1000)
            };
            Ok((dur, br))
        } else {
            let dur = spec_saturate_u32(audio_size * 8 * 1000 / (h.bitrate_kbps * 1000));
            Ok((dur, spec_saturate_u32(h.bitrate_kbps * 1000)))
        }
    }
}

/// Combines the first frame header, the VBR metadata and the audio region
/// size into `(duration_ms, bitrate_bps)`.
pub fn estimate(h: &FrameHeader, t: &VbrTag, audio_size: u64) -> (r: Result<(u32, u32), FormatError>)
    ensures
        r == spec_estimate(*h, t@, audio_size),
{
    if h.bitrate_kbps == 0 || h.sample_rate_hz == 0 {
        return Err(FormatError::InvalidFormat);
    }
    let frames: u32 = match t {
        VbrTag::Absent => 0,
        VbrTag::Xing(x) => x.frames,
        VbrTag::Vbri(v) => v.frames,
    };
    if frames > 0 {
        let spf = samples_per_frame_for(h.mpeg_version, h.layer);
        proof {
            assert(spf <= 1152);
            vstd::arithmetic::mul::lemma_mul_upper_bound(frames as int, u32::MAX as int, spf as int, 1152);
        }
        let d: u128 = frames as u128 * spf as u128 * 1000 / h.sample_rate_hz as u128;
        let dur: u32 = if d > u32::MAX as u128 { u32::MAX } else { d as u32 };
        let br: u32 = if dur > 0 {
            let b: u128 = audio_size as u128 * 8 * 1000 / dur as u128;
            if b > u32::MAX as u128 { u32::MAX } else { b as u32 }
        } else {
            let b: u64 = h.bitrate_kbps as u64 * 1000;
            if b > u32::MAX as u64 { u32::MAX } else { b as u32 }
        };
        Ok((dur, br))
    } else {
        let denom: u64 = h.bitrate_kbps as u64 * 1000;
        let d: u128 = audio_size as u128 * 8 * 1000 / denom as u128;
        let dur: u32 = if d > u32::MAX as u128 { u32::MAX } else { d as u32 };
        let b: u64 = h.bitrate_kbps as u64 * 1000;
        let br: u32 = if b > u32::MAX as u64 { u32::MAX } else { b as u32 };
        Ok((dur, br))
    }
}

} // verus!
