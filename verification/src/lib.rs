//! Frame-level MP3 stream analysis: synchronization scanning, frame header
//! decoding, Xing/Info and VBRI metadata detection, and duration estimation,
//! all without decoding audio samples.

pub mod estimate;
pub mod header;
pub mod laws;
pub mod scan;
pub mod session;
pub mod tags;
pub mod types;
pub mod vbr;
