//! MPEG frame header decoding: sync detection, version/layer/bitrate/sample
//! rate extraction from the four header bytes, and the per-layer frame
//! length formula, together with bounds lemmas on the lookup tables.

use vstd::arithmetic::div_mod::{lemma_div_is_ordered, lemma_div_is_ordered_by_denominator};
use vstd::prelude::*;

use crate::types::{ChannelMode, FrameHeader, Layer, MpegVersion};

verus! {

/// Bitrate in kbps for MPEG version 1, Layer I, by bitrate index.
/// Index 0 ("free" bitrate) and index 15 (reserved) map to 0.
pub open spec fn spec_bitrate_v1_l1(idx: u8) -> u32 {
    if idx == 1 { 32 }
    else if idx == 2 { 64 }
    else if idx == 3 { 96 }
    else if idx == 4 { 128 }
    else if idx == 5 { 160 }
    else if idx == 6 { 192 }
    else if idx == 7 { 224 }
    else if idx == 8 { 256 }
    else if idx == 9 { 288 }
    else if idx == 10 { 320 }
    else if idx == 11 { 352 }
    else if idx == 12 { 384 }
    else if idx == 13 { 416 }
    else if idx == 14 { 448 }
    else { 0 }
}

/// Bitrate in kbps for MPEG version 1, Layer II, by bitrate index.
pub open spec fn spec_bitrate_v1_l2(idx: u8) -> u32 {
    if idx == 1 { 32 }
    else if idx == 2 { 48 }
    else if idx == 3 { 56 }
    else if idx == 4 { 64 }
    else if idx == 5 { 80 }
    else if idx == 6 { 96 }
    else if idx == 7 { 112 }
    else if idx == 8 { 128 }
    else if idx == 9 { 160 }
    else if idx == 10 { 192 }
    else if idx == 11 { 224 }
    else if idx == 12 { 256 }
    else if idx == 13 { 320 }
    else if idx == 14 { 384 }
    else { 0 }
}

/// Bitrate in kbps for MPEG version 1, Layer III, by bitrate index.
pub open spec fn spec_bitrate_v1_l3(idx: u8) -> u32 {
    if idx == 1 { 32 }
    else if idx == 2 { 40 }
    else if idx == 3 { 48 }
    else if idx == 4 { 56 }
    else if idx == 5 { 64 }
    else if idx == 6 { 80 }
    else if idx == 7 { 96 }
    else if idx == 8 { 112 }
    else if idx == 9 { 128 }
    else if idx == 10 { 160 }
    else if idx == 11 { 192 }
    else if idx == 12 { 224 }
    else if idx == 13 { 256 }
    else if idx == 14 { 320 }
    else { 0 }
}

/// Bitrate in kbps for MPEG versions 2 and 2.5, Layer I, by bitrate index.
pub open spec fn spec_bitrate_v2_l1(idx: u8) -> u32 {
    if idx == 1 { 32 }
    else if idx == 2 { 48 }
    else if idx == 3 { 56 }
    else if idx == 4 { 64 }
    else if idx == 5 { 80 }
    else if idx == 6 { 96 }
    else if idx == 7 { 112 }
    else if idx == 8 { 128 }
    else if idx == 9 { 144 }
    else if idx == 10 { 160 }
    else if idx == 11 { 176 }
    else if idx == 12 { 192 }
    else if idx == 13 { 224 }
    else if idx == 14 { 256 }
    else { 0 }
}

/// Bitrate in kbps for MPEG versions 2 and 2.5, Layers II and III.
pub open spec fn spec_bitrate_v2_l23(idx: u8) -> u32 {
    if idx == 1 { 8 }
    else if idx == 2 { 16 }
    else if idx == 3 { 24 }
    else if idx == 4 { 32 }
    else if idx == 5 { 40 }
    else if idx == 6 { 48 }
    else if idx == 7 { 56 }
    else if idx == 8 { 64 }
    else if idx == 9 { 80 }
    else if idx == 10 { 96 }
    else if idx == 11 { 112 }
    else if idx == 12 { 128 }
    else if idx == 13 { 144 }
    else if idx == 14 { 160 }
    else { 0 }
}

/// Bitrate in kbps keyed by (version, layer, index); 0 means "free" or
/// reserved, both of which are rejected.
pub open spec fn spec_bitrate_kbps(v: MpegVersion, l: Layer, idx: u8) -> u32 {
    match v {
        MpegVersion::V1 => match l {
            Layer::Layer1 => spec_bitrate_v1_l1(idx),
            Layer::Layer2 => spec_bitrate_v1_l2(idx),
            Layer::Layer3 => spec_bitrate_v1_l3(idx),
        },
        _ => match l {
            Layer::Layer1 => spec_bitrate_v2_l1(idx),
            _ => spec_bitrate_v2_l23(idx),
        },
    }
}

/// Sample rate in hertz keyed by version and sample-rate index; index 3 is
/// reserved and maps to 0, which is rejected.
pub open spec fn spec_sample_rate_hz(v: MpegVersion, idx: u8) -> u32 {
    match v {
        MpegVersion::V1 => {
            if idx == 0 { 44100 } else if idx == 1 { 48000 } else if idx == 2 { 32000 } else { 0 }
        },
        MpegVersion::V2 => {
            if idx == 0 { 22050 } else if idx == 1 { 24000 } else if idx == 2 { 16000 } else { 0 }
        },
        MpegVersion::V25 => {
            if idx == 0 { 11025 } else if idx == 1 { 12000 } else if idx == 2 { 8000 } else { 0 }
        },
    }
}

/// Samples per frame keyed by (version, layer): 384 for Layer I, 1152 for
/// Layer II, and 1152 or 576 for Layer III depending on the version.
pub open spec fn spec_samples_per_frame(v: MpegVersion, l: Layer) -> u32 {
    match l {
        Layer::Layer1 => 384,
        Layer::Layer2 => 1152,
        Layer::Layer3 => if v == MpegVersion::V1 { 1152 } else { 576 },
    }
}

/// Frame length in bytes by the standard per-layer formula. Layer I counts
/// 4-byte slots; Layers II and III count bytes.
pub open spec fn spec_frame_length(v: MpegVersion, l: Layer, kbps: u32, sr: u32, pad: bool) -> int
    recommends sr > 0,
{
    let p: int = if pad { 1 } else { 0 };
    match l {
        Layer::Layer1 => (12 * (kbps as int) * 1000 / (sr as int) + p) * 4,
        Layer::Layer2 => 144 * (kbps as int) * 1000 / (sr as int) + p,
        Layer::Layer3 => {
            if v == MpegVersion::V1 {
                144 * (kbps as int) * 1000 / (sr as int) + p
            } else {
                72 * (kbps as int) * 1000 / (sr as int) + p
            }
        },
    }
}

/// Channel mode from the two channel-mode bits.
pub open spec fn spec_channel_mode(bits: u8) -> ChannelMode {
    if bits == 0 { ChannelMode::Stereo }
    else if bits == 1 { ChannelMode::JointStereo }
    else if bits == 2 { ChannelMode::DualChannel }
    else { ChannelMode::Mono }
}

/// Decoding of one frame header from its four bytes. `None` is returned
/// when the sync bits are absent, the version or layer bits are reserved,
/// the bitrate index is "free" or reserved, or the sample-rate index is
/// reserved.
pub open spec fn spec_parse_header(b0: u8, b1: u8, b2: u8, b3: u8) -> Option<FrameHeader> {
    if b0 != 0xff || b1 < 0xe0 {
        None
    } else {
        let vbits = (b1 / 8) % 4;
        let lbits = (b1 / 2) % 4;
        if vbits == 1 || lbits == 0 {
            None
        } else {
            let v = if vbits == 0 { MpegVersion::V25 }
                else if vbits == 2 { MpegVersion::V2 }
                else { MpegVersion::V1 };
            let l = if lbits == 1 { Layer::Layer3 }
                else if lbits == 2 { Layer::Layer2 }
                else { Layer::Layer1 };
            let kbps = spec_bitrate_kbps(v, l, b2 / 16);
            let sr = spec_sample_rate_hz(v, (b2 / 4) % 4);
            if kbps == 0 || sr == 0 {
                None
            } else {
                let pad = (b2 / 2) % 2 == 1;
                Some(FrameHeader {
                    mpeg_version: v,
                    layer: l,
                    bitrate_kbps: kbps,
                    sample_rate_hz: sr,
                    channel_mode: spec_channel_mode(b3 / 64),
                    padding_bit: pad,
                    protected_by_crc: b1 % 2 == 0,
                    frame_length_bytes: spec_frame_length(v, l, kbps, sr, pad) as u32,
                })
            }
        }
    }
}

/// Every nonzero bitrate table entry lies between 8 and 448 kbps, and the
/// Layer I rows start at 32 kbps.
pub proof fn lemma_bitrate_table_bounds(v: MpegVersion, l: Layer, idx: u8)
    ensures
        spec_bitrate_kbps(v, l, idx) == 0 || 8 <= spec_bitrate_kbps(v, l, idx) <= 448,
        spec_bitrate_kbps(v, l, idx) != 0 && l == Layer::Layer1 ==> spec_bitrate_kbps(v, l, idx) >= 32,
{
}

/// Every nonzero sample rate lies in the range its version allows.
pub proof fn lemma_sample_rate_bounds(v: MpegVersion, idx: u8)
    ensures
        spec_sample_rate_hz(v, idx) != 0 ==> match v {
            MpegVersion::V1 => 32000 <= spec_sample_rate_hz(v, idx) <= 48000,
            MpegVersion::V2 => 16000 <= spec_sample_rate_hz(v, idx) <= 24000,
            MpegVersion::V25 => 8000 <= spec_sample_rate_hz(v, idx) <= 12000,
        },
{
}

/// For bitrates and sample rates drawn from the tables, the computed frame
/// length always lies between 24 and 8065 bytes.
pub proof fn lemma_frame_length_bounds(v: MpegVersion, l: Layer, kbps: u32, sr: u32, pad: bool)
    requires
        8 <= kbps <= 448,
        l == Layer::Layer1 ==> kbps >= 32,
        match v {
            MpegVersion::V1 => 32000 <= sr <= 48000,
            MpegVersion::V2 => 16000 <= sr <= 24000,
            MpegVersion::V25 => 8000 <= sr <= 12000,
        },
    ensures
        24 <= spec_frame_length(v, l, kbps, sr, pad) <= 8065,
{
    let sri = sr as int;
    match l {
        Layer::Layer1 => {
            let num = 12 * (kbps as int) * 1000;
            lemma_div_is_ordered(384000, num, sri);
            lemma_div_is_ordered_by_denominator(384000, sri, 48000);
            lemma_div_is_ordered(num, 5376000, sri);
            lemma_div_is_ordered_by_denominator(5376000, 8000, sri);
        },
        Layer::Layer2 => {
            let num = 144 * (kbps as int) * 1000;
            lemma_div_is_ordered(1152000, num, sri);
            lemma_div_is_ordered_by_denominator(1152000, sri, 48000);
            lemma_div_is_ordered(num, 64512000, sri);
            lemma_div_is_ordered_by_denominator(64512000, 8000, sri);
        },
        Layer::Layer3 => {
            if v == MpegVersion::V1 {
                let num = 144 * (kbps as int) * 1000;
                lemma_div_is_ordered(1152000, num, sri);
                lemma_div_is_ordered_by_denominator(1152000, sri, 48000);
                lemma_div_is_ordered(num, 64512000, sri);
                lemma_div_is_ordered_by_denominator(64512000, 8000, sri);
            } else {
                let num = 72 * (kbps as int) * 1000;
                lemma_div_is_ordered(576000, num, sri);
                lemma_div_is_ordered_by_denominator(576000, sri, 24000);
                lemma_div_is_ordered(num, 32256000, sri);
                lemma_div_is_ordered_by_denominator(32256000, 8000, sri);
            }
        },
    }
}

/// Every header the decoder accepts has table-backed fields and a frame
/// length between 24 and 8065 bytes, computed by the per-layer formula.
pub proof fn lemma_parse_header_bounds(b0: u8, b1: u8, b2: u8, b3: u8)
    ensures
        spec_parse_header(b0, b1, b2, b3) matches Some(h) ==> {
            &&& 8 <= h.bitrate_kbps <= 448
            &&& 8000 <= h.sample_rate_hz <= 48000
            &&& 24 <= h.frame_length_bytes <= 8065
            &&& h.frame_length_bytes == spec_frame_length(
                h.mpeg_version, h.layer, h.bitrate_kbps, h.sample_rate_hz, h.padding_bit)
        },
{
    if spec_parse_header(b0, b1, b2, b3) is Some {
        let vbits = (b1 / 8) % 4;
        let lbits = (b1 / 2) % 4;
        let v = if vbits == 0 { MpegVersion::V25 }
            else if vbits == 2 { MpegVersion::V2 }
            else { MpegVersion::V1 };
        let l = if lbits == 1 { Layer::Layer3 }
            else if lbits == 2 { Layer::Layer2 }
            else { Layer::Layer1 };
        let kbps = spec_bitrate_kbps(v, l, b2 / 16);
        let sr = spec_sample_rate_hz(v, (b2 / 4) % 4);
        let pad = (b2 / 2) % 2 == 1;
        lemma_bitrate_table_bounds(v, l, b2 / 16);
        lemma_sample_rate_bounds(v, (b2 / 4) % 4);
        lemma_frame_length_bounds(v, l, kbps, sr, pad);
    }
}

/// Bitrate table lookup.
pub fn bitrate_kbps_for(v: MpegVersion, l: Layer, idx: u8) -> (r: u32)
    ensures
        r == spec_bitrate_kbps(v, l, idx),
{
    match v {
        MpegVersion::V1 => match l {
            Layer::Layer1 => {
                if idx == 1 { 32 }
                else if idx == 2 { 64 }
                else if idx == 3 { 96 }
                else if idx == 4 { 128 }
                else if idx == 5 { 160 }
                else if idx == 6 { 192 }
                else if idx == 7 { 224 }
                else if idx == 8 { 256 }
                else if idx == 9 { 288 }
                else if idx == 10 { 320 }
                else if idx == 11 { 352 }
                else if idx == 12 { 384 }
                else if idx == 13 { 416 }
                else if idx == 14 { 448 }
                else { 0 }
            },
            Layer::Layer2 => {
                if idx == 1 { 32 }
                else if idx == 2 { 48 }
                else if idx == 3 { 56 }
                else if idx == 4 { 64 }
                else if idx == 5 { 80 }
                else if idx == 6 { 96 }
                else if idx == 7 { 112 }
                else if idx == 8 { 128 }
                else if idx == 9 { 160 }
                else if idx == 10 { 192 }
                else if idx == 11 { 224 }
                else if idx == 12 { 256 }
                else if idx == 13 { 320 }
                else if idx == 14 { 384 }
                else { 0 }
            },
            Layer::Layer3 => {
                if idx == 1 { 32 }
                else if idx == 2 { 40 }
                else if idx == 3 { 48 }
                else if idx == 4 { 56 }
                else if idx == 5 { 64 }
                else if idx == 6 { 80 }
                else if idx == 7 { 96 }
                else if idx == 8 { 112 }
                else if idx == 9 { 128 }
                else if idx == 10 { 160 }
                else if idx == 11 { 192 }
                else if idx == 12 { 224 }
                else if idx == 13 { 256 }
                else if idx == 14 { 320 }
                else { 0 }
            },
        },
        _ => match l {
            Layer::Layer1 => {
                if idx == 1 { 32 }
                else if idx == 2 { 48 }
                else if idx == 3 { 56 }
                else if idx == 4 { 64 }
                else if idx == 5 { 80 }
                else if idx == 6 { 96 }
                else if idx == 7 { 112 }
                else if idx == 8 { 128 }
                else if idx == 9 { 144 }
                else if idx == 10 { 160 }
                else if idx == 11 { 176 }
                else if idx == 12 { 192 }
                else if idx == 13 { 224 }
                else if idx == 14 { 256 }
                else { 0 }
            },
            _ => {
                if idx == 1 { 8 }
                else if idx == 2 { 16 }
                else if idx == 3 { 24 }
                else if idx == 4 { 32 }
                else if idx == 5 { 40 }
                else if idx == 6 { 48 }
                else if idx == 7 { 56 }
                else if idx == 8 { 64 }
                else if idx == 9 { 80 }
                else if idx == 10 { 96 }
                else if idx == 11 { 112 }
                else if idx == 12 { 128 }
                else if idx == 13 { 144 }
                else if idx == 14 { 160 }
                else { 0 }
            },
        },
    }
}

/// Sample rate table lookup.
pub fn sample_rate_hz_for(v: MpegVersion, idx: u8) -> (r: u32)
    ensures
        r == spec_sample_rate_hz(v, idx),
{
    match v {
        MpegVersion::V1 => {
            if idx == 0 { 44100 } else if idx == 1 { 48000 } else if idx == 2 { 32000 } else { 0 }
        },
        MpegVersion::V2 => {
            if idx == 0 { 22050 } else if idx == 1 { 24000 } else if idx == 2 { 16000 } else { 0 }
        },
        MpegVersion::V25 => {
            if idx == 0 { 11025 } else if idx == 1 { 12000 } else if idx == 2 { 8000 } else { 0 }
        },
    }
}

/// Samples-per-frame table lookup.
pub fn samples_per_frame_for(v: MpegVersion, l: Layer) -> (r: u32)
    ensures
        r == spec_samples_per_frame(v, l),
{
    match l {
        Layer::Layer1 => 384,
        Layer::Layer2 => 1152,
        Layer::Layer3 => if matches!(v, MpegVersion::V1) { 1152 } else { 576 },
    }
}

/// Frame length in bytes by the standard per-layer formula.
pub fn frame_length_for(v: MpegVersion, l: Layer, kbps: u32, sr: u32, pad: bool) -> (r: u32)
    requires
        8 <= kbps <= 448,
        8000 <= sr <= 48000,
    ensures
        r == spec_frame_length(v, l, kbps, sr, pad),
{
    let p: u32 = if pad { 1 } else { 0 };
    match l {
        Layer::Layer1 => (12 * kbps * 1000 / sr + p) * 4,
        Layer::Layer2 => 144 * kbps * 1000 / sr + p,
        Layer::Layer3 => {
            if matches!(v, MpegVersion::V1) {
                144 * kbps * 1000 / sr + p
            } else {
                72 * kbps * 1000 / sr + p
            }
        },
    }
}

/// Decodes the frame header whose first byte stands at `off`.
pub fn parse_frame_header(data: &[u8], off: usize) -> (r: Option<FrameHeader>)
    requires
        off + 4 <= data@.len(),
    ensures
        r == spec_parse_header(
            data@[off as int], data@[off as int + 1], data@[off as int + 2], data@[off as int + 3]),
        r matches Some(h) ==> 24 <= h.frame_length_bytes <= 8065,
{
    proof {
        lemma_parse_header_bounds(
            data@[off as int], data@[off as int + 1], data@[off as int + 2], data@[off as int + 3]);
    }
    let b0 = data[off];
    let b1 = data[off + 1];
    let b2 = data[off + 2];
    let b3 = data[off + 3];
    if b0 != 0xff || b1 < 0xe0 {
        return None;
    }
    let vbits = (b1 / 8) % 4;
    let lbits = (b1 / 2) % 4;
    if vbits == 1 || lbits == 0 {
        return None;
    }
    let v = if vbits == 0 { MpegVersion::V25 }
        else if vbits == 2 { MpegVersion::V2 }
        else { MpegVersion::V1 };
    let l = if lbits == 1 { Layer::Layer3 }
        else if lbits == 2 { Layer::Layer2 }
        else { Layer::Layer1 };
    let kbps = bitrate_kbps_for(v, l, b2 / 16);
    let sr = sample_rate_hz_for(v, (b2 / 4) % 4);
    if kbps == 0 || sr == 0 {
        return None;
    }
    proof {
        lemma_bitrate_table_bounds(v, l, b2 / 16);
        lemma_sample_rate_bounds(v, (b2 / 4) % 4);
    }
    let pad = (b2 / 2) % 2 == 1;
    let fl = frame_length_for(v, l, kbps, sr, pad);
    Some(FrameHeader {
        mpeg_version: v,
        layer: l,
        bitrate_kbps: kbps,
        sample_rate_hz: sr,
        channel_mode: channel_mode_for(b3 / 64),
        padding_bit: pad,
        protected_by_crc: b1 % 2 == 0,
        frame_length_bytes: fl,
    })
}

/// Channel mode from the two channel-mode bits.
pub fn channel_mode_for(bits: u8) -> (r: ChannelMode)
    ensures
        r == spec_channel_mode(bits),
{
    if bits == 0 { ChannelMode::Stereo }
    else if bits == 1 { ChannelMode::JointStereo }
    else if bits == 2 { ChannelMode::DualChannel }
    else { ChannelMode::Mono }
}

} // verus!
