//! Driving the single-source filter through its push/flush/take protocol.

use filtergraph::error::Error;
use filtergraph::filter::VideoFilter;
use filtergraph::frame::{VideoCodecParameters, VideoFrame};
use filtergraph::graph::{BAD_DESCRIPTION_CODE, END_OF_STREAM_CODE};
use filtergraph::time_base::TimeBase;

fn params() -> VideoCodecParameters {
    VideoCodecParameters::new(1920, 1080, 0)
}

#[test]
fn empty_description_is_rejected() {
    let tb = TimeBase::new(1, 1000);
    let r = VideoFilter::builder(&params(), "", tb);
    assert!(matches!(r, Err(Error::Graph(BAD_DESCRIPTION_CODE))));
}

#[test]
fn identity_chain_round_trip() {
    let tb = TimeBase::new(1, 1000);
    let builder = VideoFilter::builder(&params(), "null", tb).unwrap();
    let mut filter = builder.build().unwrap();
    assert_eq!(filter.time_base(), tb);

    filter.push(VideoFrame::new(100, tb, 7)).unwrap();
    let out = filter.take().unwrap().unwrap();
    assert_eq!(out.pts(), 100);
    assert_eq!(out.payload(), 7);
    assert_eq!(out.time_base(), tb);
    assert!(filter.take().unwrap().is_none());
}

#[test]
fn frames_drain_in_push_order() {
    let tb = TimeBase::new(1, 1000);
    let mut filter = VideoFilter::builder(&params(), "null", tb).unwrap().build().unwrap();
    for pts in [10_i64, 20, 30] {
        filter.push(VideoFrame::new(pts, tb, pts as u64)).unwrap();
    }
    assert_eq!(filter.take().unwrap().unwrap().pts(), 10);
    assert_eq!(filter.take().unwrap().unwrap().pts(), 20);
    assert_eq!(filter.take().unwrap().unwrap().pts(), 30);
    assert!(filter.take().unwrap().is_none());
}

#[test]
fn push_rebases_into_filter_time_base() {
    let millis = TimeBase::new(1, 1000);
    let ninety_k = TimeBase::new(1, 90000);
    let mut filter = VideoFilter::builder(&params(), "null", millis).unwrap().build().unwrap();
    // 90000 ticks of 1/90000 s = 1000 ticks of 1/1000 s.
    filter.push(VideoFrame::new(90000, ninety_k, 3)).unwrap();
    let out = filter.take().unwrap().unwrap();
    assert_eq!(out.pts(), 1000);
    assert_eq!(out.time_base(), millis);
}

#[test]
fn drain_to_empty_is_idempotent() {
    let tb = TimeBase::new(1, 1000);
    let mut filter = VideoFilter::builder(&params(), "null", tb).unwrap().build().unwrap();
    filter.push(VideoFrame::new(1, tb, 1)).unwrap();
    filter.push(VideoFrame::new(2, tb, 2)).unwrap();
    filter.flush().unwrap();
    assert_eq!(filter.take().unwrap().unwrap().pts(), 1);
    assert_eq!(filter.take().unwrap().unwrap().pts(), 2);
    for _ in 0..3 {
        let r = filter.take();
        assert!(matches!(r, Ok(None)));
    }
}

#[test]
fn push_after_flush_is_an_error() {
    let tb = TimeBase::new(1, 1000);
    let mut filter = VideoFilter::builder(&params(), "null", tb).unwrap().build().unwrap();
    filter.flush().unwrap();
    let r = filter.push(VideoFrame::new(1, tb, 1));
    assert!(matches!(r, Err(Error::Graph(END_OF_STREAM_CODE))));
}

#[test]
fn flush_twice_is_accepted() {
    let tb = TimeBase::new(1, 1000);
    let mut filter = VideoFilter::builder(&params(), "null", tb).unwrap().build().unwrap();
    filter.flush().unwrap();
    filter.flush().unwrap();
    assert!(filter.take().unwrap().is_none());
}
