//! End-to-end tests over synthetically constructed MPEG audio streams.

use mp3_duration::header::parse_frame_header;
use mp3_duration::session::{Session, SessionState, analyze_stream};
use mp3_duration::tags::skip_tags;
use mp3_duration::types::{ChannelMode, FormatError, Layer, MpegVersion};

/// One MPEG version 1, Layer III, 128 kbps, 44100 Hz stereo frame:
/// 417 bytes, the first four being the header.
fn cbr_frame() -> Vec<u8> {
    let mut f = vec![0u8; 417];
    f[0] = 0xff;
    f[1] = 0xfb;
    f[2] = 0x90;
    f[3] = 0x00;
    f
}

/// A stream of `k` identical CBR frames.
fn cbr_stream(k: usize) -> Vec<u8> {
    let mut data = Vec::new();
    for _ in 0..k {
        data.extend_from_slice(&cbr_frame());
    }
    data
}

#[test]
fn cbr_header_decodes_exactly() {
    let data = cbr_frame();
    let h = parse_frame_header(&data, 0).expect("valid header");
    assert!(matches!(h.mpeg_version, MpegVersion::V1));
    assert!(matches!(h.layer, Layer::Layer3));
    assert_eq!(h.bitrate_kbps, 128);
    assert_eq!(h.sample_rate_hz, 44100);
    assert!(matches!(h.channel_mode, ChannelMode::Stereo));
    assert!(!h.padding_bit);
    assert!(!h.protected_by_crc);
    assert_eq!(h.frame_length_bytes, 417);
}

#[test]
fn padded_header_is_one_byte_longer() {
    let mut data = cbr_frame();
    data[2] = 0x92;
    let h = parse_frame_header(&data, 0).expect("valid header");
    assert!(h.padding_bit);
    assert_eq!(h.frame_length_bytes, 418);
}

#[test]
fn v2_mono_header_decodes_exactly() {
    // Version 2, Layer III, 64 kbps, 22050 Hz, mono.
    let data = vec![0xff, 0xf3, 0x80, 0xc0];
    let h = parse_frame_header(&data, 0).expect("valid header");
    assert!(matches!(h.mpeg_version, MpegVersion::V2));
    assert!(matches!(h.layer, Layer::Layer3));
    assert_eq!(h.bitrate_kbps, 64);
    assert_eq!(h.sample_rate_hz, 22050);
    assert!(matches!(h.channel_mode, ChannelMode::Mono));
    assert_eq!(h.frame_length_bytes, 72 * 64000 / 22050);
}

#[test]
fn layer1_header_uses_slot_formula() {
    // Version 1, Layer I, 128 kbps, 48000 Hz: (12 * 128000 / 48000) * 4 = 128.
    let data = vec![0xff, 0xff, 0x44, 0x00];
    let h = parse_frame_header(&data, 0).expect("valid header");
    assert!(matches!(h.layer, Layer::Layer1));
    assert_eq!(h.bitrate_kbps, 128);
    assert_eq!(h.sample_rate_hz, 48000);
    assert_eq!(h.frame_length_bytes, 128);
}

#[test]
fn layer2_header_decodes_exactly() {
    // Version 1, Layer II, 80 kbps, 48000 Hz: 144 * 80000 / 48000 = 240.
    let data = vec![0xff, 0xfd, 0x54, 0x00];
    let h = parse_frame_header(&data, 0).expect("valid header");
    assert!(matches!(h.layer, Layer::Layer2));
    assert_eq!(h.bitrate_kbps, 80);
    assert_eq!(h.sample_rate_hz, 48000);
    assert_eq!(h.frame_length_bytes, 240);
}

#[test]
fn truncated_id3v2_header_is_inconsistent() {
    let data = vec![0x49, 0x44, 0x33, 0x04, 0x00, 0x00, 0x00];
    assert_eq!(skip_tags(&data), Err(FormatError::InconsistentTags));
}

#[test]
fn reserved_bitrate_index_rejected() {
    let data = vec![0xff, 0xfb, 0xf0, 0x00];
    assert!(parse_frame_header(&data, 0).is_none());
}

#[test]
fn reserved_sample_rate_index_rejected() {
    let data = vec![0xff, 0xfb, 0x9c, 0x00];
    assert!(parse_frame_header(&data, 0).is_none());
}

#[test]
fn free_bitrate_rejected() {
    let data = vec![0xff, 0xfb, 0x00, 0x00];
    assert!(parse_frame_header(&data, 0).is_none());
}

#[test]
fn cbr_stream_duration() {
    // 100 frames of 26.12 ms each; the region-size estimate gives
    // floor(41700 * 8000 / 128000) = 2606 ms, within one frame of
    // 100 * 1152 * 1000 / 44100 = 2612 ms.
    let data = cbr_stream(100);
    let info = analyze_stream(&data).expect("valid stream");
    assert_eq!(info.sample_rate, 44100);
    assert_eq!(info.channels, 2);
    assert_eq!(info.bits_per_sample, 16);
    assert_eq!(info.bitrate, 128000);
    assert_eq!(info.duration_ms, 2606);
    assert_eq!(info.data_size, 41700);
    assert_eq!(info.valid, 1);
}

#[test]
fn run_twice_is_idempotent() {
    let data = cbr_stream(10);
    let mut s = Session::init(&data);
    let first = s.run().expect("valid stream");
    let second = s.run().expect("valid stream");
    assert_eq!(first, second);
    assert_eq!(s.last_info(), Some(second));
}

#[test]
fn failed_run_caches_nothing() {
    let data = vec![0u8; 20];
    let mut s = Session::init(&data);
    assert_eq!(s.run(), Err(FormatError::NoAudioFrames));
    assert_eq!(s.last_info(), None);
    assert_eq!(s.run(), Err(FormatError::NoAudioFrames));
}

#[test]
fn empty_source_yields_no_audio_frames() {
    let data: Vec<u8> = Vec::new();
    assert_eq!(analyze_stream(&data), Err(FormatError::NoAudioFrames));
}

#[test]
fn short_source_yields_no_audio_frames() {
    let data = vec![0xffu8; 10];
    assert_eq!(analyze_stream(&data), Err(FormatError::NoAudioFrames));
}

#[test]
fn single_frame_without_second_sync_yields_no_audio_frames() {
    let data = cbr_frame();
    assert_eq!(analyze_stream(&data), Err(FormatError::NoAudioFrames));
}

#[test]
fn id3v2_tag_skipped_exactly() {
    // Declared synch-safe size 0x02 0x01 = 257, no footer: audio starts
    // at byte 10 + 257 = 267.
    let mut data = vec![0x49, 0x44, 0x33, 0x04, 0x00, 0x00, 0x00, 0x00, 0x02, 0x01];
    data.extend_from_slice(&vec![0u8; 257]);
    let frames_at = data.len();
    assert_eq!(frames_at, 267);
    data.extend_from_slice(&cbr_stream(100));
    let (start, end) = skip_tags(&data).expect("consistent tags");
    assert_eq!(start, 267);
    assert_eq!(end, data.len());
    let info = analyze_stream(&data).expect("valid stream");
    assert_eq!(info.data_size, 41700);
    assert_eq!(info.duration_ms, 2606);
}

#[test]
fn id3v2_footer_flag_adds_ten_bytes() {
    let mut data = vec![0x49, 0x44, 0x33, 0x04, 0x00, 0x10, 0x00, 0x00, 0x00, 0x05];
    data.extend_from_slice(&vec![0u8; 15]);
    let (start, _) = skip_tags(&data).expect("consistent tags");
    assert_eq!(start, 25);
}

#[test]
fn id3v2_size_beyond_stream_is_inconsistent() {
    let mut data = vec![0x49, 0x44, 0x33, 0x04, 0x00, 0x00, 0x00, 0x00, 0x7f, 0x7f];
    data.extend_from_slice(&vec![0u8; 8]);
    assert_eq!(skip_tags(&data), Err(FormatError::InconsistentTags));
    assert_eq!(analyze_stream(&data), Err(FormatError::InconsistentTags));
}

#[test]
fn id3v1_trailing_tag_excluded() {
    let mut data = cbr_stream(100);
    let mut tail = vec![0u8; 128];
    tail[0] = 0x54;
    tail[1] = 0x41;
    tail[2] = 0x47;
    data.extend_from_slice(&tail);
    let (start, end) = skip_tags(&data).expect("consistent tags");
    assert_eq!(start, 0);
    assert_eq!(end, data.len() - 128);
    let info = analyze_stream(&data).expect("valid stream");
    assert_eq!(info.data_size, 41700);
    assert_eq!(info.duration_ms, 2606);
}

#[test]
fn garbage_before_first_frame_resynchronizes() {
    // A sync candidate with a reserved bitrate index stands at offset 0;
    // scanning resumes one byte later and finds the true stream at 4.
    let mut data = vec![0xff, 0xfb, 0xf0, 0x00];
    data.extend_from_slice(&cbr_stream(100));
    let info = analyze_stream(&data).expect("valid stream");
    assert_eq!(info.sample_rate, 44100);
    assert_eq!(info.data_size, 41704);
    assert_eq!(info.duration_ms, 41704 * 8000 / 128000);
}
