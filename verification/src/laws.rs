//! Stream-wide laws of the analysis, stated over the specification
//! functions and proved once and for all: exactness of the constant-bitrate
//! estimate on streams of whole frames, independence of the Xing duration
//! from byte layout, determinism of a run, rejection of short sources,
//! exact ID3v2 skipping, one-byte resynchronization, and rejection of zero
//! rates before any division.

use vstd::arithmetic::div_mod::{
    lemma_div_denominator, lemma_div_multiples_vanish, lemma_div_pos_is_pos,
    lemma_fundamental_div_mod,
};
use vstd::prelude::*;

use crate::estimate::{spec_estimate, spec_saturate_u32, spec_vbr_duration_ms, spec_vbr_frame_count};
use crate::header::{
    lemma_parse_header_bounds, spec_frame_length, spec_parse_header, spec_samples_per_frame,
};
use crate::scan::{lemma_find_frame_sound, spec_find_frame, spec_valid_frame_at};
use crate::session::spec_run;
use crate::tags::{spec_has_id3v2_magic, spec_skip_tags, spec_synchsafe_size};
use crate::types::{FormatError, FrameHeader, Layer, MpegVersion, Mp3AudioInfo, VbrTagModel};

verus! {

/// Equal nonnegative fractions have equal floors: from `a * d == b * c`
/// with positive denominators, `a / c == b / d`.
proof fn lemma_div_cross(a: int, b: int, c: int, d: int)
    requires
        0 <= a,
        0 <= b,
        0 < c,
        0 < d,
        a * d == b * c,
    ensures
        a / c == b / d,
{
    assert(0 <= a * d) by (nonlinear_arith)
        requires 0 <= a, 0 < d;
    vstd::arithmetic::mul::lemma_mul_is_commutative(a, d);
    vstd::arithmetic::mul::lemma_mul_is_commutative(b, c);
    vstd::arithmetic::mul::lemma_mul_is_commutative(c, d);
    assert((a * d) / d == a) by {
        lemma_div_multiples_vanish(a, d);
    }
    assert(((a * d) / d) / c == (a * d) / (d * c)) by {
        lemma_div_denominator(a * d, d, c);
    }
    assert((b * c) / c == b) by {
        lemma_div_multiples_vanish(b, c);
    }
    assert(((b * c) / c) / d == (b * c) / (c * d)) by {
        lemma_div_denominator(b * c, c, d);
    }
    assert(a / c == (a * d) / (d * c));
    assert(b / d == (b * c) / (c * d));
    assert((a * d) / (d * c) == (b * c) / (c * d));
}

/// Whether the frame-length division is exact for `h`: the per-frame byte
/// budget `coefficient * bitrate / sample_rate` leaves no remainder, so a
/// stream of such frames has a size that determines its duration exactly.
pub open spec fn spec_frame_length_exact(h: FrameHeader) -> bool {
    match h.layer {
        Layer::Layer1 => (12 * h.bitrate_kbps * 1000) % (h.sample_rate_hz as int) == 0,
        Layer::Layer2 => (144 * h.bitrate_kbps * 1000) % (h.sample_rate_hz as int) == 0,
        Layer::Layer3 => {
            if h.mpeg_version == MpegVersion::V1 {
                (144 * h.bitrate_kbps * 1000) % (h.sample_rate_hz as int) == 0
            } else {
                (72 * h.bitrate_kbps * 1000) % (h.sample_rate_hz as int) == 0
            }
        },
    }
}

/// Eight times the frame length, in bits, times the sample rate equals the
/// samples per frame times the bitrate in bits per second — the identity
/// that links byte arithmetic to time arithmetic when the frame length
/// divides exactly and no padding byte is present.
proof fn lemma_frame_length_identity(h: FrameHeader)
    requires
        h.bitrate_kbps > 0,
        h.sample_rate_hz > 0,
        !h.padding_bit,
        h.frame_length_bytes == spec_frame_length(
            h.mpeg_version, h.layer, h.bitrate_kbps, h.sample_rate_hz, h.padding_bit),
        spec_frame_length_exact(h),
    ensures
        8 * (h.frame_length_bytes as int) * (h.sample_rate_hz as int)
            == spec_samples_per_frame(h.mpeg_version, h.layer) * h.bitrate_kbps * 1000,
{
    let k = h.bitrate_kbps as int;
    let s = h.sample_rate_hz as int;
    let fl = h.frame_length_bytes as int;
    match h.layer {
        Layer::Layer1 => {
            let num = 12 * k * 1000;
            let q = num / s;
            lemma_fundamental_div_mod(num, s);
            assert(fl == 4 * q);
            assert(8 * fl * s == 32 * (s * q)) by (nonlinear_arith)
                requires fl == 4 * q;
        },
        Layer::Layer2 => {
            let num = 144 * k * 1000;
            let q = num / s;
            lemma_fundamental_div_mod(num, s);
            assert(fl == q);
            assert(8 * fl * s == 8 * (s * q)) by (nonlinear_arith)
                requires fl == q;
        },
        Layer::Layer3 => {
            if h.mpeg_version == MpegVersion::V1 {
                let num = 144 * k * 1000;
                let q = num / s;
                lemma_fundamental_div_mod(num, s);
                assert(fl == q);
                assert(8 * fl * s == 8 * (s * q)) by (nonlinear_arith)
                    requires fl == q;
            } else {
                let num = 72 * k * 1000;
                let q = num / s;
                lemma_fundamental_div_mod(num, s);
                assert(fl == q);
                assert(8 * fl * s == 8 * (s * q)) by (nonlinear_arith)
                    requires fl == q;
            }
        },
    }
}

/// A constant-bitrate stream of `frames` whole frames, with no padding and
/// an exactly dividing frame length, is estimated at exactly
/// `frames * samples_per_frame * 1000 / sample_rate` milliseconds — the
/// duration the frame count itself dictates.
///
/// Padded or inexact frame lengths are excluded: there each frame's length
/// is rounded, and over enough frames the accumulated rounding exceeds one
/// frame's playing time.
pub proof fn lemma_cbr_duration_matches_frame_arithmetic(h: FrameHeader, frames: u64, size: u64)
    requires
        h.bitrate_kbps > 0,
        h.sample_rate_hz > 0,
        !h.padding_bit,
        h.frame_length_bytes == spec_frame_length(
            h.mpeg_version, h.layer, h.bitrate_kbps, h.sample_rate_hz, h.padding_bit),
        spec_frame_length_exact(h),
        size == frames * h.frame_length_bytes,
        frames * spec_samples_per_frame(h.mpeg_version, h.layer) * 1000
            / (h.sample_rate_hz as int) <= u32::MAX,
    ensures
        spec_estimate(h, VbrTagModel::Absent, size) matches Ok(p)
            && p.0 == frames * spec_samples_per_frame(h.mpeg_version, h.layer) * 1000
                / (h.sample_rate_hz as int),
{
    let k = h.bitrate_kbps as int;
    let s = h.sample_rate_hz as int;
    let fl = h.frame_length_bytes as int;
    let f = frames as int;
    let spf = spec_samples_per_frame(h.mpeg_version, h.layer) as int;
    lemma_frame_length_identity(h);
    let a = (size as int) * 8 * 1000;
    let b = f * spf * 1000;
    let c = k * 1000;
    let d = s;
    assert(a * d == b * c) by (nonlinear_arith)
        requires
            8 * fl * s == spf * k * 1000,
            a == (f * fl) * 8 * 1000,
            b == f * spf * 1000,
            c == k * 1000,
            d == s,
            0 <= f,
    ;
    lemma_div_pos_is_pos(a, c);
    lemma_div_pos_is_pos(b, d);
    assert(0 <= a) by (nonlinear_arith)
        requires a == (f * fl) * 8 * 1000, 0 <= f, 0 <= fl;
    lemma_div_cross(a, b, c, d);
}

/// The duration derived from a Xing (or Info) tag depends only on the
/// frame count it carries, the MPEG version and layer, and the sample rate
/// — never on the byte counts, the audio region size, a table of contents,
/// or a quality field.
pub proof fn lemma_xing_duration_depends_only_on_frame_count(
    h: FrameHeader,
    t1: VbrTagModel,
    t2: VbrTagModel,
    s1: u64,
    s2: u64,
)
    requires
        h.bitrate_kbps > 0,
        h.sample_rate_hz > 0,
        spec_vbr_frame_count(t1) > 0,
        spec_vbr_frame_count(t1) == spec_vbr_frame_count(t2),
    ensures
        spec_estimate(h, t1, s1) is Ok,
        spec_estimate(h, t2, s2) is Ok,
        spec_estimate(h, t1, s1)->Ok_0.0 == spec_estimate(h, t2, s2)->Ok_0.0,
        spec_estimate(h, t1, s1)->Ok_0.0 == spec_saturate_u32(spec_vbr_duration_ms(
            spec_vbr_frame_count(t1), h.mpeg_version, h.layer, h.sample_rate_hz)),
{
}

/// One run of the pipeline is a function of the stream bytes alone, so two
/// runs over the same bytes return bit-identical results.
pub proof fn lemma_run_is_deterministic(
    data: Seq<u8>,
    r1: Result<Mp3AudioInfo, FormatError>,
    r2: Result<Mp3AudioInfo, FormatError>,
)
    requires
        r1 == spec_run(data),
        r2 == spec_run(data),
    ensures
        r1 == r2,
{
}

/// No region shorter than the smallest possible frame (24 bytes) plus the
/// two bytes of the confirming sync word can hold a valid frame.
proof fn lemma_no_frame_in_short_region(data: Seq<u8>, off: int, end: int)
    requires
        0 <= off,
        end <= data.len(),
        end - off < 26,
    ensures
        spec_find_frame(data, off, end) is None,
    decreases end - off,
{
    if off + 4 <= end {
        lemma_parse_header_bounds(data[off], data[off + 1], data[off + 2], data[off + 3]);
        assert(spec_valid_frame_at(data, off, end) is None);
        lemma_no_frame_in_short_region(data, off + 1, end);
    }
}

/// A byte source shorter than one full frame yields `NoAudioFrames` —
/// never a partial result.
pub proof fn lemma_short_source_yields_no_audio_frames(data: Seq<u8>)
    requires
        data.len() < 26,
        !spec_has_id3v2_magic(data),
    ensures
        spec_run(data) == Err::<Mp3AudioInfo, FormatError>(FormatError::NoAudioFrames),
{
    lemma_no_frame_in_short_region(data, 0, data.len() as int);
}

/// A leading ID3v2 header without a footer flag and with a consistent
/// declared size `S` makes frame scanning start exactly at byte `10 + S`.
pub proof fn lemma_id3v2_skip_is_exact(data: Seq<u8>)
    requires
        data.len() >= 10,
        spec_has_id3v2_magic(data),
        (data[5] / 16) % 2 == 0,
        10 + spec_synchsafe_size(data[6], data[7], data[8], data[9]) <= data.len(),
    ensures
        spec_skip_tags(data) matches Ok(p)
            && p.0 == 10 + spec_synchsafe_size(data[6], data[7], data[8], data[9]),
{
}

/// A candidate header with a "free" or reserved bitrate index or a reserved
/// sample-rate index never decodes.
pub proof fn lemma_reserved_index_is_rejected(b0: u8, b1: u8, b2: u8, b3: u8)
    requires
        b2 / 16 == 0 || b2 / 16 == 15 || (b2 / 4) % 4 == 3,
    ensures
        spec_parse_header(b0, b1, b2, b3) is None,
{
}

/// A candidate that fails validation — an undecodable header or a missing
/// second sync word — costs exactly one byte: the scan over `[off, end)`
/// finds whatever the scan over `[off + 1, end)` finds.
pub proof fn lemma_rejected_candidate_resumes_one_byte_later(data: Seq<u8>, off: int, end: int)
    requires
        0 <= off,
        off + 4 <= end <= data.len(),
        spec_valid_frame_at(data, off, end) is None,
    ensures
        spec_find_frame(data, off, end) == spec_find_frame(data, off + 1, end),
{
}

/// A successful run populates every field of the result: the validity flag
/// is set, the PCM-equivalent depth is 16 bits, the sample rate comes from
/// the decoding tables, the channel count is 1 or 2, and the reported data
/// size never exceeds the stream length.
pub proof fn lemma_success_is_fully_populated(data: Seq<u8>)
    ensures
        spec_run(data) matches Ok(i) ==> {
            &&& i.valid == 1
            &&& i.bits_per_sample == 16
            &&& 8000 <= i.sample_rate <= 48000
            &&& i.channels == 1 || i.channels == 2
            &&& i.data_size <= data.len()
        },
{
    if spec_run(data) is Ok {
        let region = spec_skip_tags(data)->Ok_0;
        lemma_find_frame_sound(data, region.0, region.1);
        let found = spec_find_frame(data, region.0, region.1)->Some_0;
        let o = found.1;
        lemma_parse_header_bounds(data[o], data[o + 1], data[o + 2], data[o + 3]);
    }
}

/// A zero bitrate or zero sample rate in the chosen frame is rejected as a
/// format fault before any duration or bitrate division happens.
pub proof fn lemma_zero_rate_is_rejected(h: FrameHeader, t: VbrTagModel, size: u64)
    requires
        h.bitrate_kbps == 0 || h.sample_rate_hz == 0,
    ensures
        spec_estimate(h, t, size) == Err::<(u32, u32), FormatError>(FormatError::InvalidFormat),
{
}

} // verus!
