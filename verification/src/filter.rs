//! The single-source video filter: one input endpoint, one output endpoint
//! and a caller-described filter chain between them.
//!
//! A filter is built once — allocating a graph, a source bound to the
//! caller's time base, a sink, and finalizing the chain — and is then driven
//! synchronously: `push` rebases a frame's timestamp into the filter's time
//! base and feeds it, `flush` signals end-of-stream to the whole graph, and
//! `take` drains one output frame at a time.  The time base supplied at
//! construction is both the input and the output time base, so drained
//! timestamps come back unchanged.  The filter owns its graph exclusively for
//! its whole lifetime; dropping it releases the graph and, transitively, both
//! endpoints.

use vstd::prelude::*;
use crate::error::Error;
use crate::frame::{VideoCodecParameters, VideoFrame};
use crate::graph::{
    EngineFrame, FeedOutcome, GraphHandle, TakeOutcome, Topology, BAD_DESCRIPTION_CODE,
    END_OF_STREAM_CODE,
};
use crate::time_base::{lemma_rescale_identity, rescale_spec, rescale_timestamp, TimeBase};

verus! {

/// A builder for video filters: it owns the graph, already finalized with the
/// caller's filter chain, until `build` transfers that ownership into the
/// finished [`VideoFilter`].  A builder discarded without `build` releases
/// the graph exactly once, by dropping it.
pub struct VideoFilterBuilder {
    pub graph: GraphHandle,
    pub source: usize,
    pub sink: usize,
    pub time_base: TimeBase,
}

impl VideoFilterBuilder {
    /// The state of the builder's source endpoint.
    pub open spec fn source_state(self) -> crate::graph::SourceState {
        self.graph.sources@[self.source as int]
    }

    /// The builder holds a sound graph, finalized as a chain over its own
    /// endpoints, with the source bound to the builder's time base.
    pub open spec fn inv(self) -> bool {
        &&& self.graph.inv()
        &&& self.graph.topology == Some(
            Topology::Chain { source: self.source, sink: self.sink },
        )
        &&& self.time_base.valid()
        &&& self.source_state().time_base == self.time_base
        &&& self.source_state().capacity is None
    }

    /// Allocate a graph, attach a source bound to `time_base` and a sink, and
    /// finalize the chain compiled from `filters_description`.  The engine
    /// rejects a malformed (empty) description with a negative status code,
    /// surfaced as [`Error::Graph`]; the partially built graph is then
    /// released by dropping it.  The description is handed to the engine as a
    /// C string, so it must not contain an interior NUL character.
    fn new(
        codec_parameters: &VideoCodecParameters,
        filters_description: &str,
        time_base: TimeBase,
    ) -> (r: Result<VideoFilterBuilder, Error>)
        requires
            time_base.valid(),
            !filters_description@.contains('\0'),
        ensures
            r is Ok <==> filters_description@.len() > 0,
            r matches Ok(b) ==> {
                &&& b.inv()
                &&& b.time_base == time_base
                &&& b.source_state().params == *codec_parameters
                &&& b.source_state().queue@.len() == 0
                &&& b.source_state().ended == false
            },
            r matches Err(e) ==> e == Error::Graph(BAD_DESCRIPTION_CODE),
    {
        let mut graph = GraphHandle::create();
        let source: usize = graph.create_source(codec_parameters, time_base, None);
        let sink: usize = graph.create_sink();
        match graph.finalize_chain(source, sink, filters_description) {
            Ok(()) => Ok(VideoFilterBuilder { graph, source, sink, time_base }),
            Err(code) => Err(Error::Graph(code)),
        }
    }

    /// Build the filter: ownership of the graph and both endpoints transfers
    /// from the builder into the finished object, so the consumed builder can
    /// never release them a second time.  Validation already happened when
    /// the builder was created, so building cannot fail; the `Result` is kept
    /// for future per-filter option validation.
    pub fn build(self) -> (r: Result<VideoFilter, Error>)
        requires
            self.inv(),
        ensures
            r is Ok,
            r matches Ok(f) ==> {
                &&& f.inv()
                &&& f.graph == self.graph
                &&& f.source == self.source
                &&& f.sink == self.sink
                &&& f.time_base == self.time_base
            },
    {
        Ok(
            VideoFilter {
                graph: self.graph,
                source: self.source,
                sink: self.sink,
                time_base: self.time_base,
            },
        )
    }
}

/// A built single-source filter, driven by push/flush/take.  It owns its
/// graph exclusively; no reference to the graph or its endpoints is ever
/// handed out.
pub struct VideoFilter {
    pub graph: GraphHandle,
    pub source: usize,
    pub sink: usize,
    pub time_base: TimeBase,
}

impl VideoFilter {
    /// The state of the filter's source endpoint.
    pub open spec fn source_state(self) -> crate::graph::SourceState {
        self.graph.sources@[self.source as int]
    }

    /// The filter holds a sound graph, finalized as a chain over its own
    /// endpoints, with the source bound to the filter's time base and an
    /// unbounded source buffer.
    pub open spec fn inv(self) -> bool {
        &&& self.graph.inv()
        &&& self.graph.topology == Some(
            Topology::Chain { source: self.source, sink: self.sink },
        )
        &&& self.time_base.valid()
        &&& self.source_state().time_base == self.time_base
        &&& self.source_state().capacity is None
    }

    /// Create a builder for a filter with the given description, codec
    /// parameters and time base.  See [`VideoFilterBuilder::new`] for when
    /// this fails.
    pub fn builder(
        codec_parameters: &VideoCodecParameters,
        filters_description: &str,
        time_base: TimeBase,
    ) -> (r: Result<VideoFilterBuilder, Error>)
        requires
            time_base.valid(),
            !filters_description@.contains('\0'),
        ensures
            r is Ok <==> filters_description@.len() > 0,
            r matches Ok(b) ==> {
                &&& b.inv()
                &&& b.time_base == time_base
                &&& b.source_state().params == *codec_parameters
                &&& b.source_state().queue@.len() == 0
                &&& b.source_state().ended == false
            },
            r matches Err(e) ==> e == Error::Graph(BAD_DESCRIPTION_CODE),
    {
        VideoFilterBuilder::new(codec_parameters, filters_description, time_base)
    }

    /// The filter's (input and output) time base.
    pub fn time_base(&self) -> (r: TimeBase)
        ensures
            r == self.time_base,
    {
        self.time_base
    }

    /// Push a frame: its timestamp is rebased into the filter's time base and
    /// the frame is fed to the source.  The engine buffers it without bound,
    /// so a push succeeds whenever the stream is still open; pushing after
    /// `flush` is refused by the engine with a negative status code.  The
    /// rebased timestamp must fit the timestamp's machine representation.
    pub fn push(&mut self, frame: VideoFrame) -> (r: Result<(), Error>)
        requires
            old(self).inv(),
            frame.valid(),
            i64::MIN <= rescale_spec(frame.pts as int, frame.time_base, old(self).time_base)
                <= i64::MAX,
        ensures
            final(self).inv(),
            final(self).source == old(self).source,
            final(self).sink == old(self).sink,
            final(self).time_base == old(self).time_base,
            !old(self).source_state().ended ==> {
                &&& r == Ok::<(), Error>(())
                &&& final(self).source_state().queue@ == old(self).source_state().queue@.push(
                    (EngineFrame {
                        pts: rescale_spec(
                            frame.pts as int,
                            frame.time_base,
                            old(self).time_base,
                        ) as i64,
                        payload: frame.payload,
                    }),
                )
                &&& final(self).source_state().ended == false
            },
            old(self).source_state().ended ==> {
                &&& r == Err::<(), Error>(Error::Graph(END_OF_STREAM_CODE))
                &&& final(self).graph == old(self).graph
            },
    {
        let rebased = frame.with_time_base(self.time_base);
        match self.graph.feed_frame(self.source, rebased.pts(), rebased.payload()) {
            FeedOutcome::Accepted => Ok(()),
            FeedOutcome::Busy => Ok(()),
            FeedOutcome::Failed(code) => Err(Error::Graph(code)),
        }
    }

    /// Flush the filter: signal end-of-stream to the whole graph, letting
    /// internally buffered frames drain on subsequent `take` calls.  Distinct
    /// from pushing an end-of-stream marker to one source — it operates on
    /// the whole graph, and the engine always accepts it.
    pub fn flush(&mut self) -> (r: Result<(), Error>)
        requires
            old(self).inv(),
        ensures
            final(self).inv(),
            final(self).source == old(self).source,
            final(self).sink == old(self).sink,
            final(self).time_base == old(self).time_base,
            r == Ok::<(), Error>(()),
            final(self).source_state().ended == true,
            final(self).source_state().queue@ == old(self).source_state().queue@,
    {
        self.graph.end_all();
        Ok(())
    }

    /// Take the next output frame from the filter, rebased to the filter's
    /// output time base (which equals its input time base, so timestamps come
    /// back unchanged).  Yields the oldest buffered frame, or `None` when no
    /// frame is available yet — the caller must push more or is at
    /// end-of-stream.  The engine's contract guarantees that a produced frame
    /// carries a real payload, so the fatal empty-payload case cannot arise.
    pub fn take(&mut self) -> (r: Result<Option<VideoFrame>, Error>)
        requires
            old(self).inv(),
        ensures
            final(self).inv(),
            final(self).source == old(self).source,
            final(self).sink == old(self).sink,
            final(self).time_base == old(self).time_base,
            old(self).source_state().queue@.len() > 0 ==> {
                let q = old(self).source_state().queue@;
                &&& r == Ok::<Option<VideoFrame>, Error>(
                    Some(
                        (VideoFrame {
                            pts: q[0].pts,
                            time_base: old(self).time_base,
                            payload: q[0].payload,
                        }),
                    ),
                )
                &&& final(self).source_state().queue@ == q.remove(0)
                &&& final(self).source_state().ended == old(self).source_state().ended
            },
            old(self).source_state().queue@.len() == 0 ==> {
                &&& r == Ok::<Option<VideoFrame>, Error>(None)
                &&& final(self).graph == old(self).graph
            },
    {
        match self.graph.take_frame() {
            TakeOutcome::Produced(f) => {
                proof {
                    lemma_rescale_identity(f.pts as int, self.time_base);
                }
                let pts: i64 = rescale_timestamp(f.pts, self.time_base, self.time_base);
                Ok(Some(VideoFrame { pts, time_base: self.time_base, payload: f.payload }))
            },
            TakeOutcome::Pending => Ok(None),
            TakeOutcome::Failed(code) => Err(Error::Graph(code)),
        }
    }
}

} // verus!
