//! The filter-graph handle: an exclusively owned engine resource.
//!
//! A handle is created empty, populated by attaching source, merge and sink
//! endpoints, and then finalized exactly once, which wires the endpoints into
//! one of two fixed topologies: a single-source chain or a dual-source merge.
//! Endpoints are owned by the handle they were created against and never
//! outlive it; dropping the handle releases everything transitively.
//!
//! A finalized graph is driven synchronously.  Each source owns a frame
//! buffer: feeding queues a frame, in the graph's internal clock, as long as
//! the buffer has room; a bounded buffer that is full answers with a busy
//! status instead, and a source that has seen end-of-stream refuses further
//! input with an error code.  Draining pulls from the sink: a chain yields
//! the next buffered frame of its source, a merge yields the next primary
//! frame once a matching overlay frame is buffered too, consuming both.

use vstd::prelude::*;
use vstd::string::*;
use crate::frame::VideoCodecParameters;
use crate::time_base::TimeBase;

verus! {

/// Engine status code: the source has already seen end-of-stream.
pub const END_OF_STREAM_CODE: i32 = -2;

/// Engine status code: the filter-chain description could not be parsed.
pub const BAD_DESCRIPTION_CODE: i32 = -22;

/// A frame buffered inside the graph, with its timestamp already expressed in
/// the graph's internal clock.
#[derive(Clone, Copy, Debug, PartialEq, Eq, Structural)]
pub struct EngineFrame {
    pub pts: i64,
    pub payload: u64,
}

/// A frame-feeding endpoint bound to a graph: its configuration and the
/// engine's internal buffer for it.
pub struct SourceState {
    /// Codec parameters the endpoint was created with, passed through
    /// unmodified from the caller.
    pub params: VideoCodecParameters,
    /// The time base incoming timestamps are rebased into.
    pub time_base: TimeBase,
    /// Buffer bound; `None` means the engine buffers without bound.
    pub capacity: Option<usize>,
    /// Frames accepted and not yet drained, oldest first.
    pub queue: Vec<EngineFrame>,
    /// Whether the source has seen its end-of-stream marker.
    pub ended: bool,
}

impl SourceState {
    /// A source's buffer respects its bound and holds only real frames.
    pub open spec fn inv(self) -> bool {
        &&& self.time_base.valid()
        &&& (match self.capacity {
            None => true,
            Some(c) => self.queue@.len() <= c,
        })
        &&& forall|i: int|
            0 <= i < self.queue@.len() ==> (#[trigger] self.queue@[i]).payload != 0
    }

    /// The source's buffer can hold one more frame.
    pub open spec fn has_room(self) -> bool {
        match self.capacity {
            None => true,
            Some(c) => self.queue@.len() < c,
        }
    }

    /// The source would accept a fed frame: it is still open and has room.
    pub open spec fn accepts(self) -> bool {
        !self.ended && self.has_room()
    }
}

/// Two sources have the same configuration (everything but buffer contents
/// and end-of-stream flag).
pub open spec fn source_config_eq(a: SourceState, b: SourceState) -> bool {
    &&& a.params == b.params
    &&& a.time_base == b.time_base
    &&& a.capacity == b.capacity
}

/// The wiring a graph was finalized with.
#[derive(Clone, Copy, Debug, PartialEq, Eq, Structural)]
pub enum Topology {
    /// One source feeding a caller-described filter chain into one sink.
    Chain { source: usize, sink: usize },
    /// Two sources feeding a fixed overlay merge stage into one sink.
    Merge { primary: usize, overlay: usize, merge: usize, sink: usize },
}

/// The engine's answer to feeding a frame or an end-of-stream marker.
#[derive(Clone, Copy, Debug, PartialEq, Eq, Structural)]
pub enum FeedOutcome {
    /// The item was queued.
    Accepted,
    /// The source's buffer is full; drain the sink, then retry.
    Busy,
    /// The engine refused the item with this status code.
    Failed(i32),
}

/// The engine's answer to draining one frame from the sink.
#[derive(Clone, Copy, Debug, PartialEq, Eq, Structural)]
pub enum TakeOutcome {
    /// A frame was produced, in the graph's internal clock.
    Produced(EngineFrame),
    /// No frame is available yet; feed more input or accept end-of-stream.
    Pending,
    /// The engine failed with this status code.
    Failed(i32),
}

/// An exclusively owned, compiled filter topology.  See the module
/// documentation for the lifecycle.
pub struct GraphHandle {
    /// Source endpoints attached so far, identified by index.
    pub sources: Vec<SourceState>,
    /// Number of sink endpoints attached so far.
    pub sinks: usize,
    /// Number of merge stages attached so far.
    pub merges: usize,
    /// The wiring, once the graph has been finalized.
    pub topology: Option<Topology>,
}

impl GraphHandle {
    /// The graph has been finalized and is runnable.
    pub open spec fn finalized(self) -> bool {
        self.topology is Some
    }

    /// The finalized wiring only names endpoints that exist, and a merge
    /// never wires one source to both of its inputs.
    pub open spec fn topology_ok(self) -> bool {
        match self.topology {
            None => true,
            Some(Topology::Chain { source, sink }) => {
                &&& (source as int) < self.sources@.len()
                &&& (sink as int) < self.sinks as int
            },
            Some(Topology::Merge { primary, overlay, merge, sink }) => {
                &&& (primary as int) < self.sources@.len()
                &&& (overlay as int) < self.sources@.len()
                &&& primary != overlay
                &&& (merge as int) < self.merges as int
                &&& (sink as int) < self.sinks as int
            },
        }
    }

    /// Handle invariant: sound wiring and sound source buffers.
    pub open spec fn inv(self) -> bool {
        &&& self.topology_ok()
        &&& forall|i: int|
            0 <= i < self.sources@.len() ==> (#[trigger] self.sources@[i]).inv()
    }

    /// Allocate a fresh, unattached handle.
    pub fn create() -> (g: GraphHandle)
        ensures
            g.inv(),
            !g.finalized(),
            g.sources@.len() == 0,
            g.sinks == 0,
            g.merges == 0,
    {
        GraphHandle { sources: Vec::new(), sinks: 0, merges: 0, topology: None }
    }

    /// Attach a new source endpoint with the given codec parameters, time
    /// base and buffer bound.  Only a graph that has not been finalized can
    /// grow new endpoints.
    pub fn create_source(
        &mut self,
        params: &VideoCodecParameters,
        time_base: TimeBase,
        capacity: Option<usize>,
    ) -> (id: usize)
        requires
            old(self).inv(),
            !old(self).finalized(),
            time_base.valid(),
        ensures
            final(self).inv(),
            !final(self).finalized(),
            id as int == old(self).sources@.len(),
            final(self).sources@.len() == old(self).sources@.len() + 1,
            forall|i: int|
                0 <= i < old(self).sources@.len()
                    ==> final(self).sources@[i] == old(self).sources@[i],
            final(self).sources@[id as int].params == *params,
            final(self).sources@[id as int].time_base == time_base,
            final(self).sources@[id as int].capacity == capacity,
            final(self).sources@[id as int].queue@.len() == 0,
            final(self).sources@[id as int].ended == false,
            final(self).sinks == old(self).sinks,
            final(self).merges == old(self).merges,
            final(self).topology == old(self).topology,
    {
        let id: usize = self.sources.len();
        self.sources.push(
            SourceState {
                params: *params,
                time_base,
                capacity,
                queue: Vec::new(),
                ended: false,
            },
        );
        id
    }

    /// Attach a new sink endpoint.
    pub fn create_sink(&mut self) -> (id: usize)
        requires
            old(self).inv(),
            !old(self).finalized(),
            old(self).sinks < usize::MAX,
        ensures
            final(self).inv(),
            !final(self).finalized(),
            id == old(self).sinks,
            final(self).sinks == old(self).sinks + 1,
            final(self).sources == old(self).sources,
            final(self).merges == old(self).merges,
            final(self).topology == old(self).topology,
    {
        let id: usize = self.sinks;
        self.sinks = self.sinks + 1;
        id
    }

    /// Attach a new overlay-merge stage.
    pub fn create_merge(&mut self) -> (id: usize)
        requires
            old(self).inv(),
            !old(self).finalized(),
            old(self).merges < usize::MAX,
        ensures
            final(self).inv(),
            !final(self).finalized(),
            id == old(self).merges,
            final(self).merges == old(self).merges + 1,
            final(self).sources == old(self).sources,
            final(self).sinks == old(self).sinks,
            final(self).topology == old(self).topology,
    {
        let id: usize = self.merges;
        self.merges = self.merges + 1;
        id
    }

    /// Finalize the graph as a single-source chain compiled from the textual
    /// filter-chain description.  The engine rejects an empty description
    /// with a negative status code and the graph stays unfinalized; on
    /// success the graph becomes runnable.  Must be called exactly once: the
    /// owning component's state machine prevents a second call.
    pub fn finalize_chain(&mut self, source: usize, sink: usize, description: &str) -> (r: Result<
        (),
        i32,
    >)
        requires
            old(self).inv(),
            !old(self).finalized(),
            (source as int) < old(self).sources@.len(),
            (sink as int) < old(self).sinks as int,
        ensures
            final(self).inv(),
            description@.len() > 0 ==> {
                &&& r == Ok::<(), i32>(())
                &&& final(self).topology == Some(Topology::Chain { source, sink })
                &&& final(self).sources == old(self).sources
                &&& final(self).sinks == old(self).sinks
                &&& final(self).merges == old(self).merges
            },
            description@.len() == 0 ==> {
                &&& r == Err::<(), i32>(BAD_DESCRIPTION_CODE)
                &&& *final(self) == *old(self)
            },
    {
        let len: usize = description.unicode_len();
        if len == 0 {
            return Err(BAD_DESCRIPTION_CODE);
        }
        self.topology = Some(Topology::Chain { source, sink });
        Ok(())
    }

    /// Finalize the graph as a dual-source merge: primary and overlay source
    /// feed the merge stage, whose output lands on the sink.  The wiring is
    /// fixed, so unlike a described chain it cannot be malformed; the engine
    /// always accepts it.  Must be called exactly once.
    pub fn finalize_merge(
        &mut self,
        primary: usize,
        overlay: usize,
        merge: usize,
        sink: usize,
    ) -> (r: Result<(), i32>)
        requires
            old(self).inv(),
            !old(self).finalized(),
            (primary as int) < old(self).sources@.len(),
            (overlay as int) < old(self).sources@.len(),
            primary != overlay,
            (merge as int) < old(self).merges as int,
            (sink as int) < old(self).sinks as int,
        ensures
            final(self).inv(),
            r == Ok::<(), i32>(()),
            final(self).topology == Some(Topology::Merge { primary, overlay, merge, sink }),
            final(self).sources == old(self).sources,
            final(self).sinks == old(self).sinks,
            final(self).merges == old(self).merges,
    {
        self.topology = Some(Topology::Merge { primary, overlay, merge, sink });
        Ok(())
    }

    /// Feed one frame, already rebased into the graph's clock, to a source of
    /// a finalized graph.  The three-way answer is exact: a source that has
    /// seen end-of-stream fails with [`END_OF_STREAM_CODE`], a full buffer
    /// answers busy, and otherwise the frame is queued.  Nothing else in the
    /// graph changes, and a refused frame changes nothing at all.
    pub fn feed_frame(&mut self, source: usize, pts: i64, payload: u64) -> (r: FeedOutcome)
        requires
            old(self).inv(),
            old(self).finalized(),
            (source as int) < old(self).sources@.len(),
            payload != 0,
        ensures
            final(self).inv(),
            final(self).topology == old(self).topology,
            final(self).sinks == old(self).sinks,
            final(self).merges == old(self).merges,
            final(self).sources@.len() == old(self).sources@.len(),
            r == (if old(self).sources@[source as int].ended {
                FeedOutcome::Failed(END_OF_STREAM_CODE)
            } else if !old(self).sources@[source as int].has_room() {
                FeedOutcome::Busy
            } else {
                FeedOutcome::Accepted
            }),
            r is Accepted ==> {
                &&& final(self).sources@[source as int].queue@ == old(self).sources@[
                    source as int].queue@.push((EngineFrame { pts, payload }))
                &&& final(self).sources@[source as int].ended == old(self).sources@[
                    source as int].ended
                &&& source_config_eq(
                    final(self).sources@[source as int],
                    old(self).sources@[source as int],
                )
                &&& forall|i: int|
                    0 <= i < old(self).sources@.len() && i != source as int
                        ==> final(self).sources@[i] == old(self).sources@[i]
            },
            !(r is Accepted) ==> *final(self) == *old(self),
    {
        let ended: bool = self.sources[source].ended;
        if ended {
            return FeedOutcome::Failed(END_OF_STREAM_CODE);
        }
        let has_room: bool = match self.sources[source].capacity {
            None => true,
            Some(c) => self.sources[source].queue.len() < c,
        };
        if !has_room {
            return FeedOutcome::Busy;
        }
        let s = source_mut(&mut self.sources, source);
        s.queue.push(EngineFrame { pts, payload });
        FeedOutcome::Accepted
    }

    /// Feed the end-of-stream marker to a source of a finalized graph.  The
    /// answer mirrors [`GraphHandle::feed_frame`]: a source that has already
    /// ended fails, a full buffer must be drained before the marker is
    /// accepted, and acceptance closes the source without touching its
    /// buffered frames.
    pub fn feed_end(&mut self, source: usize) -> (r: FeedOutcome)
        requires
            old(self).inv(),
            old(self).finalized(),
            (source as int) < old(self).sources@.len(),
        ensures
            final(self).inv(),
            final(self).topology == old(self).topology,
            final(self).sinks == old(self).sinks,
            final(self).merges == old(self).merges,
            final(self).sources@.len() == old(self).sources@.len(),
            r == (if old(self).sources@[source as int].ended {
                FeedOutcome::Failed(END_OF_STREAM_CODE)
            } else if !old(self).sources@[source as int].has_room() {
                FeedOutcome::Busy
            } else {
                FeedOutcome::Accepted
            }),
            r is Accepted ==> {
                &&& final(self).sources@[source as int].queue@ == old(self).sources@[
                    source as int].queue@
                &&& final(self).sources@[source as int].ended == true
                &&& source_config_eq(
                    final(self).sources@[source as int],
                    old(self).sources@[source as int],
                )
                &&& forall|i: int|
                    0 <= i < old(self).sources@.len() && i != source as int
                        ==> final(self).sources@[i] == old(self).sources@[i]
            },
            !(r is Accepted) ==> *final(self) == *old(self),
    {
        let ended: bool = self.sources[source].ended;
        if ended {
            return FeedOutcome::Failed(END_OF_STREAM_CODE);
        }
        let has_room: bool = match self.sources[source].capacity {
            None => true,
            Some(c) => self.sources[source].queue.len() < c,
        };
        if !has_room {
            return FeedOutcome::Busy;
        }
        let s = source_mut(&mut self.sources, source);
        s.ended = true;
        FeedOutcome::Accepted
    }

    /// Signal end-of-stream to the whole graph: every source is closed, while
    /// all buffered frames stay available for draining.  The engine always
    /// accepts a whole-graph flush, also on a graph flushed before.
    pub fn end_all(&mut self)
        requires
            old(self).inv(),
            old(self).finalized(),
        ensures
            final(self).inv(),
            final(self).topology == old(self).topology,
            final(self).sinks == old(self).sinks,
            final(self).merges == old(self).merges,
            final(self).sources@.len() == old(self).sources@.len(),
            forall|i: int|
                0 <= i < old(self).sources@.len() ==> {
                    &&& (#[trigger] final(self).sources@[i]).ended == true
                    &&& final(self).sources@[i].queue@ == old(self).sources@[i].queue@
                    &&& source_config_eq(final(self).sources@[i], old(self).sources@[i])
                },
    {
        let n: usize = self.sources.len();
        let mut i: usize = 0;
        while i < n
            invariant
                i <= n,
                n == self.sources@.len(),
                n == old(self).sources@.len(),
                self.inv(),
                self.topology == old(self).topology,
                self.sinks == old(self).sinks,
                self.merges == old(self).merges,
                forall|j: int|
                    0 <= j < i ==> {
                        &&& (#[trigger] self.sources@[j]).ended == true
                        &&& self.sources@[j].queue@ == old(self).sources@[j].queue@
                        &&& source_config_eq(self.sources@[j], old(self).sources@[j])
                    },
                forall|j: int|
                    i <= j < n ==> #[trigger] self.sources@[j] == old(self).sources@[j],
            decreases n - i,
        {
            let s = source_mut(&mut self.sources, i);
            s.ended = true;
            i = i + 1;
        }
    }

    /// Drain one frame from the sink of a finalized graph.  A chain yields
    /// the oldest buffered frame of its source; a merge yields the oldest
    /// primary frame once an overlay frame is buffered too, consuming one
    /// frame from each input.  Otherwise nothing is available yet and the
    /// graph is left exactly as it was.  A produced frame always carries a
    /// real payload.
    pub fn take_frame(&mut self) -> (r: TakeOutcome)
        requires
            old(self).inv(),
            old(self).finalized(),
        ensures
            final(self).inv(),
            final(self).topology == old(self).topology,
            final(self).sinks == old(self).sinks,
            final(self).merges == old(self).merges,
            final(self).sources@.len() == old(self).sources@.len(),
            (match old(self).topology {
                Some(Topology::Chain { source, sink }) => {
                    let q = old(self).sources@[source as int].queue@;
                    if q.len() > 0 {
                        &&& r == TakeOutcome::Produced(q[0])
                        &&& final(self).sources@[source as int].queue@ == q.remove(0)
                        &&& final(self).sources@[source as int].ended == old(self).sources@[
                            source as int].ended
                        &&& source_config_eq(
                            final(self).sources@[source as int],
                            old(self).sources@[source as int],
                        )
                        &&& forall|i: int|
                            0 <= i < old(self).sources@.len() && i != source as int
                                ==> final(self).sources@[i] == old(self).sources@[i]
                    } else {
                        &&& r == TakeOutcome::Pending
                        &&& *final(self) == *old(self)
                    }
                },
                Some(Topology::Merge { primary, overlay, merge, sink }) => {
                    let pq = old(self).sources@[primary as int].queue@;
                    let oq = old(self).sources@[overlay as int].queue@;
                    if pq.len() > 0 && oq.len() > 0 {
                        &&& r == TakeOutcome::Produced(pq[0])
                        &&& final(self).sources@[primary as int].queue@ == pq.remove(0)
                        &&& final(self).sources@[overlay as int].queue@ == oq.remove(0)
                        &&& final(self).sources@[primary as int].ended == old(self).sources@[
                            primary as int].ended
                        &&& final(self).sources@[overlay as int].ended == old(self).sources@[
                            overlay as int].ended
                        &&& source_config_eq(
                            final(self).sources@[primary as int],
                            old(self).sources@[primary as int],
                        )
                        &&& source_config_eq(
                            final(self).sources@[overlay as int],
                            old(self).sources@[overlay as int],
                        )
                        &&& forall|i: int|
                            0 <= i < old(self).sources@.len() && i != primary as int && i
                                != overlay as int
                                ==> final(self).sources@[i] == old(self).sources@[i]
                    } else {
                        &&& r == TakeOutcome::Pending
                        &&& *final(self) == *old(self)
                    }
                },
                None => false,
            }),
            r matches TakeOutcome::Produced(f) ==> f.payload != 0,
    {
        let topo: Option<Topology> = self.topology;
        match topo {
            Some(Topology::Chain { source, sink: _ }) => {
                if self.sources[source].queue.len() > 0 {
                    let s = source_mut(&mut self.sources, source);
                    let f = s.queue.remove(0);
                    TakeOutcome::Produced(f)
                } else {
                    TakeOutcome::Pending
                }
            },
            Some(Topology::Merge { primary, overlay, merge: _, sink: _ }) => {
                if self.sources[primary].queue.len() > 0 && self.sources[overlay].queue.len()
                    > 0 {
                    let s = source_mut(&mut self.sources, primary);
                    let f = s.queue.remove(0);
                    let o = source_mut(&mut self.sources, overlay);
                    let _overlaid = o.queue.remove(0);
                    TakeOutcome::Produced(f)
                } else {
                    TakeOutcome::Pending
                }
            },
            None => TakeOutcome::Pending,
        }
    }
}

/// Mutable access to one source of the endpoint table.
fn source_mut(sources: &mut Vec<SourceState>, i: usize) -> (s: &mut SourceState)
    requires
        (i as int) < old(sources)@.len(),
    ensures
        *s == old(sources)@[i as int],
        final(sources)@ == old(sources)@.update(i as int, *final(s)),
{
    &mut sources[i]
}

} // verus!
