//! Tests for Xing/Info and VBRI tag detection and the duration arithmetic
//! that uses their frame counts.

use mp3_duration::estimate::estimate;
use mp3_duration::header::parse_frame_header;
use mp3_duration::session::analyze_stream;
use mp3_duration::types::{ChannelMode, FormatError, FrameHeader, Layer, MpegVersion, VbrTag};
use mp3_duration::vbr::read_vbr_tag;

/// One MPEG version 1, Layer III, 128 kbps, 44100 Hz stereo frame.
fn cbr_frame() -> Vec<u8> {
    let mut f = vec![0u8; 417];
    f[0] = 0xff;
    f[1] = 0xfb;
    f[2] = 0x90;
    f[3] = 0x00;
    f
}

/// Two such frames, the first carrying a Xing tag with the given flags and
/// frame count (and a table of contents when its flag is set).
fn xing_stream(magic: &[u8; 4], flags: u32, frames: u32) -> Vec<u8> {
    let mut data = cbr_frame();
    data[36..40].copy_from_slice(magic);
    data[40..44].copy_from_slice(&flags.to_be_bytes());
    let mut p = 44;
    if flags & 1 != 0 {
        data[p..p + 4].copy_from_slice(&frames.to_be_bytes());
        p += 4;
    }
    if flags & 2 != 0 {
        data[p..p + 4].copy_from_slice(&834u32.to_be_bytes());
        p += 4;
    }
    if flags & 4 != 0 {
        for i in 0..100 {
            data[p + i] = i as u8;
        }
    }
    data.extend_from_slice(&cbr_frame());
    data
}

#[test]
fn xing_tag_gives_exact_frame_duration() {
    let data = xing_stream(b"Xing", 0x3, 100);
    let info = analyze_stream(&data).expect("valid stream");
    // 100 * 1152 * 1000 / 44100 = 2612 ms, from the tag alone.
    assert_eq!(info.duration_ms, 2612);
    assert_eq!(info.data_size, 834);
    // Bitrate is derived back from the region size and the duration.
    assert_eq!(info.bitrate, 834 * 8000 / 2612);
}

#[test]
fn xing_duration_same_with_and_without_toc() {
    let without = analyze_stream(&xing_stream(b"Xing", 0x3, 100)).expect("valid stream");
    let with_toc = analyze_stream(&xing_stream(b"Xing", 0x7, 100)).expect("valid stream");
    assert_eq!(without.duration_ms, with_toc.duration_ms);
    assert_eq!(without.duration_ms, 2612);
}

#[test]
fn info_magic_is_accepted_too() {
    let data = xing_stream(b"Info", 0x1, 50);
    let info = analyze_stream(&data).expect("valid stream");
    assert_eq!(info.duration_ms, 50 * 1152 * 1000 / 44100);
}

#[test]
fn xing_tag_with_zero_frames_falls_back_to_cbr() {
    let data = xing_stream(b"Xing", 0x1, 0);
    let info = analyze_stream(&data).expect("valid stream");
    // Region size 834 bytes at 128 kbps: floor(834 * 8000 / 128000) = 52 ms.
    assert_eq!(info.duration_ms, 52);
    assert_eq!(info.bitrate, 128000);
}

#[test]
fn xing_fields_are_read_back() {
    let data = xing_stream(b"Xing", 0x7, 100);
    let h = parse_frame_header(&data, 0).expect("valid header");
    match read_vbr_tag(&data, 0, &h) {
        VbrTag::Xing(x) => {
            assert_eq!(x.frames, 100);
            assert_eq!(x.bytes, 834);
            let toc = x.toc.expect("toc present");
            assert_eq!(toc.len(), 100);
            assert_eq!(toc[0], 0);
            assert_eq!(toc[99], 99);
            assert_eq!(x.quality, None);
        },
        other => panic!("expected a Xing tag, got {:?}", other),
    }
}

#[test]
fn truncated_xing_tag_is_ignored() {
    let mut data = xing_stream(b"Xing", 0x7, 100);
    data.truncate(50);
    let h = parse_frame_header(&data, 0).expect("valid header");
    assert_eq!(read_vbr_tag(&data, 0, &h), VbrTag::Absent);
}

#[test]
fn plain_frame_carries_no_tag() {
    let data = cbr_frame();
    let h = parse_frame_header(&data, 0).expect("valid header");
    assert_eq!(read_vbr_tag(&data, 0, &h), VbrTag::Absent);
}

#[test]
fn vbri_tag_gives_exact_frame_duration() {
    let mut data = cbr_frame();
    data[40..44].copy_from_slice(b"VBRI");
    data[44..46].copy_from_slice(&1u16.to_be_bytes());
    data[46..48].copy_from_slice(&5u16.to_be_bytes());
    data[48..50].copy_from_slice(&0u16.to_be_bytes());
    data[50..54].copy_from_slice(&834u32.to_be_bytes());
    data[54..58].copy_from_slice(&200u32.to_be_bytes());
    data.extend_from_slice(&cbr_frame());
    let h = parse_frame_header(&data, 0).expect("valid header");
    match read_vbr_tag(&data, 0, &h) {
        VbrTag::Vbri(v) => {
            assert_eq!(v.frames, 200);
            assert_eq!(v.bytes, 834);
            assert_eq!(v.delay_ms, 5);
        },
        other => panic!("expected a VBRI tag, got {:?}", other),
    }
    let info = analyze_stream(&data).expect("valid stream");
    // 200 * 1152 * 1000 / 44100 = 5224 ms.
    assert_eq!(info.duration_ms, 5224);
}

#[test]
fn zero_bitrate_header_is_rejected_before_division() {
    let h = FrameHeader {
        mpeg_version: MpegVersion::V1,
        layer: Layer::Layer3,
        bitrate_kbps: 0,
        sample_rate_hz: 44100,
        channel_mode: ChannelMode::Stereo,
        padding_bit: false,
        protected_by_crc: false,
        frame_length_bytes: 417,
    };
    assert_eq!(estimate(&h, &VbrTag::Absent, 41700), Err(FormatError::InvalidFormat));
}

#[test]
fn zero_sample_rate_header_is_rejected_before_division() {
    let h = FrameHeader {
        mpeg_version: MpegVersion::V1,
        layer: Layer::Layer3,
        bitrate_kbps: 128,
        sample_rate_hz: 0,
        channel_mode: ChannelMode::Stereo,
        padding_bit: false,
        protected_by_crc: false,
        frame_length_bytes: 417,
    };
    assert_eq!(estimate(&h, &VbrTag::Absent, 41700), Err(FormatError::InvalidFormat));
}
