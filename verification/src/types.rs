//! Core data types: decoded frame headers, VBR metadata tags, the final
//! stream-information record, and the error taxonomy for structural faults.

use vstd::prelude::*;

verus! {

/// MPEG audio version of a frame, decoded from the two version bits.
#[derive(Clone, Copy, PartialEq, Eq, Structural, Debug)]
pub enum MpegVersion {
    V1,
    V2,
    V25,
}

/// MPEG audio layer of a frame, decoded from the two layer bits.
#[derive(Clone, Copy, PartialEq, Eq, Structural, Debug)]
pub enum Layer {
    Layer1,
    Layer2,
    Layer3,
}

/// Channel mode of a frame, decoded from the two channel-mode bits.
#[derive(Clone, Copy, PartialEq, Eq, Structural, Debug)]
pub enum ChannelMode {
    Stereo,
    JointStereo,
    DualChannel,
    Mono,
}

/// A decoded MPEG frame header. `frame_length_bytes` is computed from the
/// other fields by the per-layer length formula; it is not stored in the
/// bitstream itself.
#[derive(Clone, Copy, PartialEq, Eq, Structural, Debug)]
pub struct FrameHeader {
    pub mpeg_version: MpegVersion,
    pub layer: Layer,
    pub bitrate_kbps: u32,
    pub sample_rate_hz: u32,
    pub channel_mode: ChannelMode,
    pub padding_bit: bool,
    pub protected_by_crc: bool,
    pub frame_length_bytes: u32,
}

/// Structural faults in a stream. A stream that merely lacks optional
/// metadata is never an error; only structural invalidity is.
#[derive(Clone, Copy, PartialEq, Eq, Structural, Debug)]
pub enum FormatError {
    /// A tag header declares a region larger than the byte source.
    InconsistentTags,
    /// No pair of consecutive valid frames was found in the audio region.
    NoAudioFrames,
    /// A zero bitrate or zero sample rate would force a division by zero.
    InvalidFormat,
}

/// Xing/Info VBR metadata found in the first valid frame. Fields whose flag
/// bit is clear are reported as `0` (counts) or `None` (table of contents
/// and quality indicator).
#[derive(Clone, PartialEq, Eq, Debug)]
pub struct XingTag {
    pub frames: u32,
    pub bytes: u32,
    pub toc: Option<Vec<u8>>,
    pub quality: Option<u32>,
}

/// VBRI metadata found in the first valid frame.
#[derive(Clone, Copy, PartialEq, Eq, Structural, Debug)]
pub struct VbriTag {
    pub frames: u32,
    pub bytes: u32,
    pub delay_ms: u32,
}

/// VBR metadata discovered inside the first structurally valid frame, if
/// any. Absence signals a constant-bitrate stream and is not an error.
#[derive(Clone, PartialEq, Eq, Debug)]
pub enum VbrTag {
    Absent,
    Xing(XingTag),
    Vbri(VbriTag),
}

/// Mathematical model of a `XingTag`: the table of contents is abstracted
/// to the sequence of its bytes.
pub struct XingModel {
    pub frames: u32,
    pub bytes: u32,
    pub toc: Option<Seq<u8>>,
    pub quality: Option<u32>,
}

/// Mathematical model of a `VbrTag`.
pub enum VbrTagModel {
    Absent,
    Xing(XingModel),
    Vbri(VbriTag),
}

impl View for XingTag {
    type V = XingModel;

    open spec fn view(&self) -> XingModel {
        XingModel {
            frames: self.frames,
            bytes: self.bytes,
            toc: match self.toc {
                Some(t) => Some(t@),
                None => None,
            },
            quality: self.quality,
        }
    }
}

impl View for VbrTag {
    type V = VbrTagModel;

    open spec fn view(&self) -> VbrTagModel {
        match self {
            VbrTag::Absent => VbrTagModel::Absent,
            VbrTag::Xing(x) => VbrTagModel::Xing(x@),
            VbrTag::Vbri(v) => VbrTagModel::Vbri(*v),
        }
    }
}

/// Final result of analysing one stream: sample rate in hertz, channel
/// count, PCM-equivalent bit depth (always 16 for MP3), bitrate in bits per
/// second, estimated duration in milliseconds, size of the audio region in
/// bytes, and a validity flag (`1` on success).
#[derive(Clone, Copy, PartialEq, Eq, Structural, Debug)]
pub struct Mp3AudioInfo {
    pub sample_rate: u32,
    pub channels: u16,
    pub bits_per_sample: u16,
    pub bitrate: u32,
    pub duration_ms: u32,
    pub data_size: u64,
    pub valid: u8,
}

} // verus!
