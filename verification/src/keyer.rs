//! The keyer: a dual-source compositor merging a primary and an overlay frame
//! stream into one output stream.
//!
//! Unlike the single-source filter, the keyer is configured incrementally —
//! codec parameters and input time base are mandatory, the output time base
//! falls back to the input one — and its runtime protocol exposes explicit
//! backpressure: each source owns an independently sized bounded buffer, and
//! a push against a full buffer answers with the retryable
//! [`CodecError::Again`] signal rather than dropping the frame.  The caller
//! owns the retry loop: drain output via `take`, then push again.
//!
//! Flushing signals end-of-stream on the primary source only.  That is a
//! deliberate choice of this protocol: the overlay stream is expected to be
//! shorter-lived and simply stops being pushed; primary frames without a
//! matching overlay frame stay buffered.

use vstd::prelude::*;
use crate::error::{CodecError, ConfigIssue, Error};
use crate::frame::{VideoCodecParameters, VideoFrame};
use crate::graph::{
    source_config_eq, EngineFrame, FeedOutcome, GraphHandle, SourceState, TakeOutcome, Topology,
    END_OF_STREAM_CODE,
};
use crate::time_base::{lemma_rescale_identity, rescale_spec, rescale_timestamp, TimeBase};

verus! {

/// How many frames the engine buffers for the primary source.
pub const PRIMARY_QUEUE_CAPACITY: usize = 4;

/// How many frames the engine buffers for the overlay source; sized
/// independently from the primary buffer.
pub const OVERLAY_QUEUE_CAPACITY: usize = 3;

/// An incremental, validated configuration object for a [`VideoKeyer`].  It
/// owns a fresh graph from the moment it is created; ownership transfers to
/// the keyer on a successful `build`, and a builder discarded before that —
/// also after a failed `build` — releases the graph exactly once, by
/// dropping it.
pub struct VideoKeyerBuilder {
    pub graph: GraphHandle,
    pub input_time_base: Option<TimeBase>,
    pub output_time_base: Option<TimeBase>,
    pub codec_parameters: Option<VideoCodecParameters>,
}

impl VideoKeyerBuilder {
    /// The builder still holds the fresh, unattached graph, and any time base
    /// supplied so far is well-defined.
    pub open spec fn inv(self) -> bool {
        &&& self.graph.inv()
        &&& !self.graph.finalized()
        &&& self.graph.sources@.len() == 0
        &&& self.graph.sinks == 0
        &&& self.graph.merges == 0
        &&& (match self.input_time_base {
            Some(t) => t.valid(),
            None => true,
        })
        &&& (match self.output_time_base {
            Some(t) => t.valid(),
            None => true,
        })
    }

    /// Allocate a fresh graph and an otherwise empty configuration.
    fn new() -> (b: VideoKeyerBuilder)
        ensures
            b.inv(),
            b.input_time_base is None,
            b.output_time_base is None,
            b.codec_parameters is None,
    {
        VideoKeyerBuilder {
            graph: GraphHandle::create(),
            input_time_base: None,
            output_time_base: None,
            codec_parameters: None,
        }
    }

    /// Set the codec parameters of both input streams.
    pub fn input_codec_parameters(self, codec_parameters: &VideoCodecParameters) -> (b:
        VideoKeyerBuilder)
        requires
            self.inv(),
        ensures
            b.inv(),
            b.codec_parameters == Some(*codec_parameters),
            b.input_time_base == self.input_time_base,
            b.output_time_base == self.output_time_base,
            b.graph == self.graph,
    {
        VideoKeyerBuilder {
            graph: self.graph,
            input_time_base: self.input_time_base,
            output_time_base: self.output_time_base,
            codec_parameters: Some(*codec_parameters),
        }
    }

    /// Set the input time base, shared by the primary and overlay sources.
    pub fn input_time_base(self, time_base: TimeBase) -> (b: VideoKeyerBuilder)
        requires
            self.inv(),
            time_base.valid(),
        ensures
            b.inv(),
            b.input_time_base == Some(time_base),
            b.output_time_base == self.output_time_base,
            b.codec_parameters == self.codec_parameters,
            b.graph == self.graph,
    {
        VideoKeyerBuilder {
            graph: self.graph,
            input_time_base: Some(time_base),
            output_time_base: self.output_time_base,
            codec_parameters: self.codec_parameters,
        }
    }

    /// Set the output time base; when left unset it defaults to the input
    /// time base.
    pub fn output_time_base(self, time_base: TimeBase) -> (b: VideoKeyerBuilder)
        requires
            self.inv(),
            time_base.valid(),
        ensures
            b.inv(),
            b.output_time_base == Some(time_base),
            b.input_time_base == self.input_time_base,
            b.codec_parameters == self.codec_parameters,
            b.graph == self.graph,
    {
        VideoKeyerBuilder {
            graph: self.graph,
            input_time_base: self.input_time_base,
            output_time_base: Some(time_base),
            codec_parameters: self.codec_parameters,
        }
    }

    /// Build the keyer.
    ///
    /// Validation is complete: building fails with a configuration error if
    /// and only if the codec parameters or the input time base is absent
    /// (checked in that order, before any endpoint is created), and the
    /// output time base defaults to the input time base exactly when it was
    /// left unset.  On success the primary source, overlay source, merge
    /// stage and sink are created in that order, the graph is finalized, and
    /// ownership of the graph transfers into the finished keyer; the consumed
    /// builder can never release it a second time.  On failure the builder —
    /// still the sole owner of the graph — is dropped, releasing it once.
    pub fn build(self) -> (r: Result<VideoKeyer, Error>)
        requires
            self.inv(),
        ensures
            r is Ok <==> (self.codec_parameters is Some && self.input_time_base is Some),
            self.codec_parameters is None ==> r == Err::<VideoKeyer, Error>(
                Error::Config(ConfigIssue::CodecParametersNotSet),
            ),
            (self.codec_parameters is Some && self.input_time_base is None) ==> r == Err::<
                VideoKeyer,
                Error,
            >(Error::Config(ConfigIssue::InputTimeBaseNotSet)),
            r matches Ok(k) ==> {
                &&& k.inv()
                &&& (self.input_time_base matches Some(itb) ==> k.input_time_base == itb
                    && k.output_time_base == (match self.output_time_base {
                    Some(o) => o,
                    None => itb,
                }))
                &&& (self.codec_parameters matches Some(cp) ==> k.primary_source().params == cp
                    && k.overlay_source().params == cp)
                &&& k.primary_source().queue@.len() == 0
                &&& k.overlay_source().queue@.len() == 0
                &&& k.primary_source().ended == false
                &&& k.overlay_source().ended == false
            },
    {
        let codec_parameters = match self.codec_parameters {
            Some(cp) => cp,
            None => {
                return Err(Error::Config(ConfigIssue::CodecParametersNotSet));
            },
        };
        let input_time_base = match self.input_time_base {
            Some(tb) => tb,
            None => {
                return Err(Error::Config(ConfigIssue::InputTimeBaseNotSet));
            },
        };
        let output_time_base = match self.output_time_base {
            Some(tb) => tb,
            None => input_time_base,
        };
        let mut graph = self.graph;
        let source: usize = graph.create_source(
            &codec_parameters,
            input_time_base,
            Some(PRIMARY_QUEUE_CAPACITY),
        );
        let overlay: usize = graph.create_source(
            &codec_parameters,
            input_time_base,
            Some(OVERLAY_QUEUE_CAPACITY),
        );
        let merge: usize = graph.create_merge();
        let sink: usize = graph.create_sink();
        match graph.finalize_merge(source, overlay, merge, sink) {
            Ok(()) => Ok(
                VideoKeyer { graph, source, overlay, sink, input_time_base, output_time_base },
            ),
            Err(code) => Err(Error::Graph(code)),
        }
    }
}

/// A built dual-source compositor, driven by push/push-overlay/flush/take.
/// It owns its graph exclusively for its whole lifetime; dropping it releases
/// the graph and, transitively, all endpoints.
pub struct VideoKeyer {
    pub graph: GraphHandle,
    pub source: usize,
    pub overlay: usize,
    pub sink: usize,
    pub input_time_base: TimeBase,
    pub output_time_base: TimeBase,
}

impl VideoKeyer {
    /// The state of the primary source endpoint.
    pub open spec fn primary_source(self) -> SourceState {
        self.graph.sources@[self.source as int]
    }

    /// The state of the overlay source endpoint.
    pub open spec fn overlay_source(self) -> SourceState {
        self.graph.sources@[self.overlay as int]
    }

    /// No merged frame is available: at least one of the two buffers is
    /// empty.
    pub open spec fn drained(self) -> bool {
        self.primary_source().queue@.len() == 0 || self.overlay_source().queue@.len() == 0
    }

    /// The keyer holds a sound graph, finalized as a merge over its own
    /// endpoints, both sources bound to the input time base and to their
    /// independent buffer bounds.
    pub open spec fn inv(self) -> bool {
        &&& self.graph.inv()
        &&& (self.graph.topology matches Some(Topology::Merge { primary, overlay, merge, sink })
            && primary == self.source && overlay == self.overlay && sink == self.sink)
        &&& self.input_time_base.valid()
        &&& self.output_time_base.valid()
        &&& self.primary_source().time_base == self.input_time_base
        &&& self.overlay_source().time_base == self.input_time_base
        &&& self.primary_source().capacity == Some(PRIMARY_QUEUE_CAPACITY)
        &&& self.overlay_source().capacity == Some(OVERLAY_QUEUE_CAPACITY)
    }

    /// Create an empty keyer configuration.
    pub fn builder() -> (b: VideoKeyerBuilder)
        ensures
            b.inv(),
            b.input_time_base is None,
            b.output_time_base is None,
            b.codec_parameters is None,
    {
        VideoKeyerBuilder::new()
    }

    /// The time base incoming frames are rebased into.
    pub fn input_time_base(&self) -> (r: TimeBase)
        ensures
            r == self.input_time_base,
    {
        self.input_time_base
    }

    /// The time base drained frames are rebased into.
    pub fn output_time_base(&self) -> (r: TimeBase)
        ensures
            r == self.output_time_base,
    {
        self.output_time_base
    }

    /// Push a frame to the primary source, rebased to the input time base.
    /// Exactly one of three things happens: the frame is queued; the primary
    /// buffer is full and the retryable [`CodecError::Again`] signal comes
    /// back with the keyer unchanged — drain via `take`, then retry, the
    /// frame is never silently dropped; or the source has seen end-of-stream
    /// and the engine refuses with an error code.  The overlay source is not
    /// touched in any of the three.
    pub fn try_push(&mut self, frame: VideoFrame) -> (r: Result<(), CodecError>)
        requires
            old(self).inv(),
            frame.valid(),
            i64::MIN <= rescale_spec(frame.pts as int, frame.time_base, old(self).input_time_base)
                <= i64::MAX,
        ensures
            final(self).inv(),
            final(self).source == old(self).source,
            final(self).overlay == old(self).overlay,
            final(self).sink == old(self).sink,
            final(self).input_time_base == old(self).input_time_base,
            final(self).output_time_base == old(self).output_time_base,
            final(self).overlay_source() == old(self).overlay_source(),
            r == (if old(self).primary_source().ended {
                Err::<(), CodecError>(CodecError::Graph(END_OF_STREAM_CODE))
            } else if !old(self).primary_source().has_room() {
                Err::<(), CodecError>(CodecError::Again)
            } else {
                Ok::<(), CodecError>(())
            }),
            r is Ok ==> {
                &&& final(self).primary_source().queue@ == old(self).primary_source().queue@.push(
                    (EngineFrame {
                        pts: rescale_spec(
                            frame.pts as int,
                            frame.time_base,
                            old(self).input_time_base,
                        ) as i64,
                        payload: frame.payload,
                    }),
                )
                &&& final(self).primary_source().ended == false
                &&& source_config_eq(final(self).primary_source(), old(self).primary_source())
            },
            !(r is Ok) ==> final(self).graph == old(self).graph,
    {
        let rebased = frame.with_time_base(self.input_time_base);
        match self.graph.feed_frame(self.source, rebased.pts(), rebased.payload()) {
            FeedOutcome::Accepted => Ok(()),
            FeedOutcome::Busy => Err(CodecError::Again),
            FeedOutcome::Failed(code) => Err(CodecError::Graph(code)),
        }
    }

    /// Push a frame to the overlay source, rebased to the input time base.
    /// Same three-way outcome as [`VideoKeyer::try_push`], against the
    /// overlay source's own, independently sized buffer; the primary source
    /// is not touched.
    pub fn try_push_overlay(&mut self, frame: VideoFrame) -> (r: Result<(), CodecError>)
        requires
            old(self).inv(),
            frame.valid(),
            i64::MIN <= rescale_spec(frame.pts as int, frame.time_base, old(self).input_time_base)
                <= i64::MAX,
        ensures
            final(self).inv(),
            final(self).source == old(self).source,
            final(self).overlay == old(self).overlay,
            final(self).sink == old(self).sink,
            final(self).input_time_base == old(self).input_time_base,
            final(self).output_time_base == old(self).output_time_base,
            final(self).primary_source() == old(self).primary_source(),
            r == (if old(self).overlay_source().ended {
                Err::<(), CodecError>(CodecError::Graph(END_OF_STREAM_CODE))
            } else if !old(self).overlay_source().has_room() {
                Err::<(), CodecError>(CodecError::Again)
            } else {
                Ok::<(), CodecError>(())
            }),
            r is Ok ==> {
                &&& final(self).overlay_source().queue@ == old(self).overlay_source().queue@.push(
                    (EngineFrame {
                        pts: rescale_spec(
                            frame.pts as int,
                            frame.time_base,
                            old(self).input_time_base,
                        ) as i64,
                        payload: frame.payload,
                    }),
                )
                &&& final(self).overlay_source().ended == false
                &&& source_config_eq(final(self).overlay_source(), old(self).overlay_source())
            },
            !(r is Ok) ==> final(self).graph == old(self).graph,
    {
        let rebased = frame.with_time_base(self.input_time_base);
        match self.graph.feed_frame(self.overlay, rebased.pts(), rebased.payload()) {
            FeedOutcome::Accepted => Ok(()),
            FeedOutcome::Busy => Err(CodecError::Again),
            FeedOutcome::Failed(code) => Err(CodecError::Graph(code)),
        }
    }

    /// Push the end-of-stream marker to the primary source only — the
    /// overlay stream has no flush entry point in this protocol (see the
    /// module documentation).  Same three-way outcome as a push: a full
    /// primary buffer must be drained before the marker is accepted, and a
    /// source already at end-of-stream refuses it with an error code.
    pub fn try_flush(&mut self) -> (r: Result<(), CodecError>)
        requires
            old(self).inv(),
        ensures
            final(self).inv(),
            final(self).source == old(self).source,
            final(self).overlay == old(self).overlay,
            final(self).sink == old(self).sink,
            final(self).input_time_base == old(self).input_time_base,
            final(self).output_time_base == old(self).output_time_base,
            final(self).overlay_source() == old(self).overlay_source(),
            r == (if old(self).primary_source().ended {
                Err::<(), CodecError>(CodecError::Graph(END_OF_STREAM_CODE))
            } else if !old(self).primary_source().has_room() {
                Err::<(), CodecError>(CodecError::Again)
            } else {
                Ok::<(), CodecError>(())
            }),
            r is Ok ==> {
                &&& final(self).primary_source().queue@ == old(self).primary_source().queue@
                &&& final(self).primary_source().ended == true
                &&& source_config_eq(final(self).primary_source(), old(self).primary_source())
            },
            !(r is Ok) ==> final(self).graph == old(self).graph,
    {
        match self.graph.feed_end(self.source) {
            FeedOutcome::Accepted => Ok(()),
            FeedOutcome::Busy => Err(CodecError::Again),
            FeedOutcome::Failed(code) => Err(CodecError::Graph(code)),
        }
    }

    /// Take the next merged frame from the sink, rebased to the output time
    /// base.  A frame is produced exactly when both buffers are non-empty:
    /// the oldest primary frame, carrying the merge of the two payloads, and
    /// one frame of each buffer is consumed.  Otherwise `Ok(None)` comes back
    /// — consistently, and never an error — and the keyer is left exactly as
    /// it was.  The engine's contract guarantees a produced frame carries a
    /// real payload, so the fatal empty-payload case cannot arise.
    pub fn take(&mut self) -> (r: Result<Option<VideoFrame>, Error>)
        requires
            old(self).inv(),
            !old(self).drained() ==> i64::MIN <= rescale_spec(
                old(self).primary_source().queue@[0].pts as int,
                old(self).input_time_base,
                old(self).output_time_base,
            ) <= i64::MAX,
        ensures
            final(self).inv(),
            final(self).source == old(self).source,
            final(self).overlay == old(self).overlay,
            final(self).sink == old(self).sink,
            final(self).input_time_base == old(self).input_time_base,
            final(self).output_time_base == old(self).output_time_base,
            !old(self).drained() ==> {
                let pq = old(self).primary_source().queue@;
                let oq = old(self).overlay_source().queue@;
                &&& r == Ok::<Option<VideoFrame>, Error>(
                    Some(
                        (VideoFrame {
                            pts: rescale_spec(
                                pq[0].pts as int,
                                old(self).input_time_base,
                                old(self).output_time_base,
                            ) as i64,
                            time_base: old(self).output_time_base,
                            payload: pq[0].payload,
                        }),
                    ),
                )
                &&& final(self).primary_source().queue@ == pq.remove(0)
                &&& final(self).overlay_source().queue@ == oq.remove(0)
                &&& final(self).primary_source().ended == old(self).primary_source().ended
                &&& final(self).overlay_source().ended == old(self).overlay_source().ended
                &&& source_config_eq(final(self).primary_source(), old(self).primary_source())
                &&& source_config_eq(final(self).overlay_source(), old(self).overlay_source())
            },
            old(self).drained() ==> {
                &&& r == Ok::<Option<VideoFrame>, Error>(None)
                &&& final(self).graph == old(self).graph
            },
    {
        match self.graph.take_frame() {
            TakeOutcome::Produced(f) => {
                let pts: i64 = rescale_timestamp(f.pts, self.input_time_base, self.output_time_base);
                Ok(Some(VideoFrame { pts, time_base: self.output_time_base, payload: f.payload }))
            },
            TakeOutcome::Pending => Ok(None),
            TakeOutcome::Failed(code) => Err(Error::Graph(code)),
        }
    }
}

/// Law: a frame pushed with its timestamp already in the input time base and
/// drained under the output time base has that timestamp rescaled by exactly
/// `(in.num * out.den) / (in.den * out.num)`, rounded toward negative
/// infinity — pushing rebases it into the input time base (which changes
/// nothing then) and taking rebases the buffered value into the output time
/// base.
pub proof fn lemma_timestamp_round_trip(t: int, input_tb: TimeBase, output_tb: TimeBase)
    requires
        input_tb.valid(),
        output_tb.valid(),
    ensures
        rescale_spec(rescale_spec(t, input_tb, input_tb), input_tb, output_tb) == (t * input_tb.num
            * output_tb.den) / (input_tb.den * output_tb.num),
{
    lemma_rescale_identity(t, input_tb);
}

/// Law: a full primary buffer forces backpressure.  When the buffer holds as
/// many frames as its bound and the stream is still open, the source does not
/// accept — by the push contract the caller then gets the retryable signal
/// and the keyer is unchanged; no data is dropped.
pub proof fn lemma_full_primary_forces_backpressure(k: VideoKeyer)
    requires
        k.inv(),
        !k.primary_source().ended,
        k.primary_source().queue@.len() == PRIMARY_QUEUE_CAPACITY as int,
    ensures
        !k.primary_source().has_room(),
        !k.primary_source().accepts(),
{
}

/// Law: draining reopens a pushed-back source.  The hypotheses are what the
/// take contract guarantees when it produces a frame; they imply that the
/// primary source has room again, so by the push contract the next push is
/// accepted.
pub proof fn lemma_drain_reopens_primary(before: VideoKeyer, after: VideoKeyer)
    requires
        before.inv(),
        after.inv(),
        !before.primary_source().ended,
        before.primary_source().queue@.len() > 0,
        after.primary_source().queue@ == before.primary_source().queue@.remove(0),
        after.primary_source().ended == before.primary_source().ended,
        source_config_eq(after.primary_source(), before.primary_source()),
    ensures
        after.primary_source().has_room(),
        after.primary_source().accepts(),
{
}

/// Law: backpressure on the primary source does not block the overlay
/// source.  Every primary-side operation leaves the overlay source untouched
/// (an ensures of each), and an untouched overlay source accepts afterwards
/// exactly when it accepted before.
pub proof fn lemma_overlay_independent_of_primary(before: VideoKeyer, after: VideoKeyer)
    requires
        after.overlay_source() == before.overlay_source(),
    ensures
        after.overlay_source().accepts() == before.overlay_source().accepts(),
        after.overlay_source().queue@ == before.overlay_source().queue@,
{
}

/// Law: backpressure on the overlay source does not block the primary
/// source; the mirror image of
/// [`lemma_overlay_independent_of_primary`].
pub proof fn lemma_primary_independent_of_overlay(before: VideoKeyer, after: VideoKeyer)
    requires
        after.primary_source() == before.primary_source(),
    ensures
        after.primary_source().accepts() == before.primary_source().accepts(),
        after.primary_source().queue@ == before.primary_source().queue@,
{
}

/// Law: draining to empty is idempotent.  Once either buffer is empty, the
/// take contract yields no frame — not an error — and leaves the keyer
/// exactly as it was; the keyer is then still drained, so every further take
/// keeps yielding no frame until new input arrives or the keyer is
/// destroyed.
pub proof fn lemma_drained_take_stable(before: VideoKeyer, after: VideoKeyer)
    requires
        before.drained(),
        after.graph == before.graph,
        after.source == before.source,
        after.overlay == before.overlay,
    ensures
        after.drained(),
{
}

} // verus!
