//! Video frames and codec parameters as the pipeline sees them.
//!
//! A frame is an opaque buffer reference plus a timestamp and the time base
//! the timestamp is expressed in; the only transformation this layer performs
//! on a frame is rebasing that timestamp.  Codec parameters describe the
//! pixel geometry of a stream and are passed through unmodified to
//! source-endpoint creation.

use vstd::prelude::*;
use crate::time_base::{rescale_spec, rescale_timestamp, TimeBase};

verus! {

/// Parameters describing the pixel geometry of a video stream.  The pipeline
/// never interprets them; they are handed through to the engine when a source
/// endpoint is created.
#[derive(Clone, Copy, Debug, PartialEq, Eq, Structural)]
pub struct VideoCodecParameters {
    pub width: u32,
    pub height: u32,
    pub pixel_format: u32,
}

impl VideoCodecParameters {
    /// Describe a stream of `width` by `height` pixels in the given format.
    pub fn new(width: u32, height: u32, pixel_format: u32) -> (r: VideoCodecParameters)
        ensures
            r.width == width,
            r.height == height,
            r.pixel_format == pixel_format,
    {
        VideoCodecParameters { width, height, pixel_format }
    }
}

/// A decoded video frame: an opaque buffer reference (`payload`, never zero
/// for a real frame) with a timestamp expressed in `time_base` units.
#[derive(Clone, Copy, Debug, PartialEq, Eq, Structural)]
pub struct VideoFrame {
    pub pts: i64,
    pub time_base: TimeBase,
    pub payload: u64,
}

impl VideoFrame {
    /// A frame carries a real buffer and a well-defined time base.
    pub open spec fn valid(self) -> bool {
        self.payload != 0 && self.time_base.valid()
    }

    /// Wrap the buffer reference `payload` as a frame with timestamp `pts`
    /// in `time_base` units.
    pub fn new(pts: i64, time_base: TimeBase, payload: u64) -> (r: VideoFrame)
        requires
            time_base.valid(),
            payload != 0,
        ensures
            r.pts == pts,
            r.time_base == time_base,
            r.payload == payload,
            r.valid(),
    {
        VideoFrame { pts, time_base, payload }
    }

    /// The frame's timestamp, in `time_base` units.
    pub fn pts(&self) -> (r: i64)
        ensures
            r == self.pts,
    {
        self.pts
    }

    /// The time base the timestamp is expressed in.
    pub fn time_base(&self) -> (r: TimeBase)
        ensures
            r == self.time_base,
    {
        self.time_base
    }

    /// The opaque buffer reference.
    pub fn payload(&self) -> (r: u64)
        ensures
            r == self.payload,
    {
        self.payload
    }

    /// The same frame with its timestamp rebased into `time_base` units.
    pub fn with_time_base(self, time_base: TimeBase) -> (r: VideoFrame)
        requires
            self.valid(),
            time_base.valid(),
            i64::MIN <= rescale_spec(self.pts as int, self.time_base, time_base) <= i64::MAX,
        ensures
            r.pts == rescale_spec(self.pts as int, self.time_base, time_base),
            r.time_base == time_base,
            r.payload == self.payload,
            r.valid(),
    {
        let pts: i64 = rescale_timestamp(self.pts, self.time_base, time_base);
        VideoFrame { pts, time_base, payload: self.payload }
    }
}

} // verus!
