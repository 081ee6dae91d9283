//! Session orchestration over one logical stream: tag skipping, the scan
//! for the first valid frame, VBR tag inspection and duration estimation,
//! assembled into the final `Mp3AudioInfo` record.

use vstd::prelude::*;

use crate::estimate::{estimate, spec_estimate};
use crate::scan::{find_first_frame, spec_find_frame};
use crate::tags::{skip_tags, spec_skip_tags};
use crate::types::{ChannelMode, FormatError, Mp3AudioInfo};
use crate::vbr::{read_vbr_tag, spec_read_vbr};

verus! {

/// The analysis result for a whole stream: the audio region is bounded,
/// the first structurally valid frame found, its payload inspected for VBR
/// metadata, and duration and bitrate estimated. The first error
/// encountered is propagated.
pub open spec fn spec_run(data: Seq<u8>) -> Result<Mp3AudioInfo, FormatError> {
    match spec_skip_tags(data) {
        Err(e) => Err(e),
        Ok(region) => match spec_find_frame(data, region.0, region.1) {
            None => Err(FormatError::NoAudioFrames),
            Some(found) => {
                let h = found.0;
                let t = spec_read_vbr(data, found.1, h.mpeg_version, h.channel_mode);
                match spec_estimate(h, t, (region.1 - region.0) as u64) {
                    Err(e) => Err(e),
                    Ok(db) => Ok(Mp3AudioInfo {
                        sample_rate: h.sample_rate_hz,
                        channels: if h.channel_mode == ChannelMode::Mono { 1 } else { 2 },
                        bits_per_sample: 16,
                        bitrate: db.1,
                        duration_ms: db.0,
                        data_size: (region.1 - region.0) as u64,
                        valid: 1,
                    }),
                }
            },
        },
    }
}

/// Runs the full analysis pipeline over one stream of bytes.
pub fn analyze_stream(data: &[u8]) -> (r: Result<Mp3AudioInfo, FormatError>)
    ensures
        r == spec_run(data@),
{
    let (start, end) = match skip_tags(data) {
        Ok(region) => region,
        Err(e) => { return Err(e); },
    };
    let (h, off) = match find_first_frame(data, start, end) {
        Ok(found) => found,
        Err(e) => { return Err(e); },
    };
    let t = read_vbr_tag(data, off, &h);
    let (duration_ms, bitrate) = match estimate(&h, &t, (end - start) as u64) {
        Ok(db) => db,
        Err(e) => { return Err(e); },
    };
    Ok(Mp3AudioInfo {
        sample_rate: h.sample_rate_hz,
        channels: if matches!(h.channel_mode, ChannelMode::Mono) { 1 } else { 2 },
        bits_per_sample: 16,
        bitrate,
        duration_ms,
        data_size: (end - start) as u64,
        valid: 1,
    })
}

/// Lifecycle states of a session: freshly created, finished successfully,
/// or finished with an error. A finished session may run again; scanning
/// restarts from the beginning of the stream.
#[derive(Clone, Copy, PartialEq, Eq, Structural, Debug)]
pub enum SessionState {
    Created,
    Done,
    Failed,
}

/// One analysis session over a borrowed byte source. The session never owns
/// the bytes; the caller keeps them valid for the session's lifetime.
pub struct Session<'a> {
    data: &'a [u8],
    state: SessionState,
    info: Option<Mp3AudioInfo>,
}

impl<'a> Session<'a> {
    /// The bytes this session analyses.
    pub closed spec fn spec_data(&self) -> Seq<u8> {
        self.data@
    }

    /// The lifecycle state of this session.
    pub closed spec fn spec_state(&self) -> SessionState {
        self.state
    }

    /// The cached result of the last successful run.
    pub closed spec fn spec_info(&self) -> Option<Mp3AudioInfo> {
        self.info
    }

    /// Opens a session over a borrowed byte source.
    pub fn init(data: &'a [u8]) -> (s: Session<'a>)
        ensures
            s.spec_data() == data@,
            s.spec_state() == SessionState::Created,
            s.spec_info() is None,
    {
        Session { data, state: SessionState::Created, info: None }
    }

    /// Runs the analysis pipeline. The result is a function of the stream
    /// bytes alone, so running a session repeatedly returns identical
    /// results; each run re-scans from the start.
    pub fn run(&mut self) -> (r: Result<Mp3AudioInfo, FormatError>)
        ensures
            r == spec_run(old(self).spec_data()),
            final(self).spec_data() == old(self).spec_data(),
            match r {
                Ok(info) => final(self).spec_state() == SessionState::Done
                    && final(self).spec_info() == Some(info),
                Err(_) => final(self).spec_state() == SessionState::Failed
                    && final(self).spec_info() is None,
            },
    {
        match analyze_stream(self.data) {
            Ok(info) => {
                self.state = SessionState::Done;
                self.info = Some(info);
                Ok(info)
            },
            Err(e) => {
                self.state = SessionState::Failed;
                self.info = None;
                Err(e)
            },
        }
    }

    /// The cached result of the last successful run, if any.
    pub fn last_info(&self) -> (r: Option<Mp3AudioInfo>)
        ensures
            r == self.spec_info(),
    {
        self.info
    }
}

} // verus!
