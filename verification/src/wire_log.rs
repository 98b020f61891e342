//! Wire-level diagnostics: a pure pass-through decorator that describes
//! every frame it sees — an index, a classification, and a size summary —
//! without altering data, ordering, or outcomes.
//!
//! The observers borrow the frames they describe, so they cannot change
//! them; a caller forwards the very frames it handed in. Insertable at any
//! stack position; disabled by default and intended for local diagnosis
//! only, so the records are handed back for the caller to print.

use vstd::prelude::*;
use crate::envelope::{StreamFrame, frame_data};

verus! {

/// The classification a frame record carries.
#[derive(Clone, Copy, Debug, PartialEq, Eq, Structural)]
pub enum FrameKind {
    /// A data chunk.
    DataKind,
    /// A trailer.
    TrailerKind,
    /// Anything else (the end marker).
    OtherKind,
}

/// What a frame is classified as.
pub open spec fn spec_classify(f: StreamFrame) -> FrameKind {
    match f {
        StreamFrame::Data(_) => FrameKind::DataKind,
        StreamFrame::Trailer(_) => FrameKind::TrailerKind,
        StreamFrame::End => FrameKind::OtherKind,
    }
}

/// The size summary of a frame: how many payload bytes it carries.
pub open spec fn spec_frame_size(f: StreamFrame) -> nat {
    frame_data(f).len()
}

/// One log line's worth of description of one observed frame.
#[derive(Clone, Copy, Debug, PartialEq, Eq, Structural)]
pub struct FrameRecord {
    /// One-based position of the frame in its stream.
    pub index: u64,
    /// The frame's classification.
    pub kind: FrameKind,
    /// How many payload bytes the frame carries.
    pub size: usize,
}

/// The diagnostic decorator's configuration. It holds nothing: enabling the
/// layer is the whole configuration.
#[derive(Clone, Copy, Debug)]
pub struct WireLogLayer;

impl WireLogLayer {
    /// Wraps an inner service: the returned observer starts with no frames
    /// seen.
    pub fn layer(&self) -> (s: WireLogService)
        ensures
            s.frame_count == 0,
    {
        WireLogService { frame_count: 0 }
    }
}

/// The per-body observer: counts frames and describes each one, altering
/// nothing.
#[derive(Clone, Copy, Debug)]
pub struct WireLogService {
    /// How many frames have been observed so far.
    pub frame_count: u64,
}

impl WireLogService {
    /// How many frames have been observed so far.
    pub fn frames_observed(&self) -> (n: u64)
        ensures
            n == self.frame_count,
    {
        self.frame_count
    }

    /// Describes one frame: the observation only increments the count and
    /// reports the frame's classification and size; the borrowed frame
    /// itself flows on unaltered.
    pub fn observe_frame(&mut self, f: &StreamFrame) -> (r: FrameRecord)
        requires
            old(self).frame_count < u64::MAX,
        ensures
            final(self).frame_count == old(self).frame_count + 1,
            r.index == final(self).frame_count,
            r.kind == spec_classify(*f),
            r.size == spec_frame_size(*f),
    {
        self.frame_count = self.frame_count + 1;
        let kind: FrameKind = match f {
            StreamFrame::Data(_) => FrameKind::DataKind,
            StreamFrame::Trailer(_) => FrameKind::TrailerKind,
            StreamFrame::End => FrameKind::OtherKind,
        };
        let size: usize = match f {
            StreamFrame::Data(d) => d.len(),
            _ => 0,
        };
        FrameRecord { index: self.frame_count, kind, size }
    }

    /// Describes a whole stream, one record per frame in order; the
    /// borrowed stream flows on unaltered.
    pub fn observe_stream(&mut self, frames: &Vec<StreamFrame>) -> (records: Vec<FrameRecord>)
        requires
            old(self).frame_count + frames@.len() <= u64::MAX,
        ensures
            final(self).frame_count == old(self).frame_count + frames@.len(),
            records@.len() == frames@.len(),
            forall|j: int|
                0 <= j < frames@.len() ==> #[trigger] records@[j] == (FrameRecord {
                    index: (old(self).frame_count + 1 + j) as u64,
                    kind: spec_classify(frames@[j]),
                    size: spec_frame_size(frames@[j]) as usize,
                }),
    {
        let mut records: Vec<FrameRecord> = Vec::new();
        let mut i: usize = 0;
        while i < frames.len()
            invariant
                i <= frames@.len(),
                old(self).frame_count + frames@.len() <= u64::MAX,
                self.frame_count == old(self).frame_count + i,
                records@.len() == i,
                forall|j: int|
                    0 <= j < i ==> #[trigger] records@[j] == (FrameRecord {
                        index: (old(self).frame_count + 1 + j) as u64,
                        kind: spec_classify(frames@[j]),
                        size: spec_frame_size(frames@[j]) as usize,
                    }),
            decreases frames@.len() - i,
        {
            let r = self.observe_frame(&frames[i]);
            records.push(r);
            i = i + 1;
        }
        records
    }
}

} // verus!
