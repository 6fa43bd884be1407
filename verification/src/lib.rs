//! A verified model of a video compositing pipeline sitting in front of a
//! frame-filtering engine.
//!
//! The library wraps a filter graph behind two driver components: a
//! single-source [`filter::VideoFilter`] and a dual-source
//! [`keyer::VideoKeyer`] that merges a primary and an overlay frame stream.
//! Both are driven synchronously through a push/flush/take protocol and both
//! own their graph exclusively; the engine's buffering behaviour at that
//! boundary is captured by [`graph::GraphHandle`].

pub mod error;
pub mod filter;
pub mod frame;
pub mod graph;
pub mod keyer;
pub mod time_base;
