//! Driving the keyer through its build and push/push-overlay/flush/take
//! protocol.

use filtergraph::error::{CodecError, ConfigIssue, Error};
use filtergraph::frame::{VideoCodecParameters, VideoFrame};
use filtergraph::graph::END_OF_STREAM_CODE;
use filtergraph::keyer::{VideoKeyer, OVERLAY_QUEUE_CAPACITY, PRIMARY_QUEUE_CAPACITY};
use filtergraph::time_base::TimeBase;

fn params() -> VideoCodecParameters {
    VideoCodecParameters::new(1280, 720, 1)
}

fn built_keyer(input: TimeBase) -> VideoKeyer {
    VideoKeyer::builder()
        .input_codec_parameters(&params())
        .input_time_base(input)
        .build()
        .unwrap()
}

#[test]
fn build_without_codec_parameters_fails() {
    let r = VideoKeyer::builder().build();
    assert!(matches!(r, Err(Error::Config(ConfigIssue::CodecParametersNotSet))));
}

#[test]
fn codec_parameters_are_checked_before_time_base() {
    let tb = TimeBase::new(1, 1000);
    let r = VideoKeyer::builder().input_time_base(tb).build();
    assert!(matches!(r, Err(Error::Config(ConfigIssue::CodecParametersNotSet))));
}

#[test]
fn build_without_input_time_base_fails() {
    let r = VideoKeyer::builder().input_codec_parameters(&params()).build();
    assert!(matches!(r, Err(Error::Config(ConfigIssue::InputTimeBaseNotSet))));
}

#[test]
fn output_time_base_defaults_to_input() {
    let tb = TimeBase::new(1, 1000);
    let keyer = built_keyer(tb);
    assert_eq!(keyer.input_time_base(), tb);
    assert_eq!(keyer.output_time_base(), tb);
}

#[test]
fn output_time_base_overrides_the_default() {
    let input = TimeBase::new(1, 1000);
    let output = TimeBase::new(1, 25);
    let keyer = VideoKeyer::builder()
        .input_codec_parameters(&params())
        .input_time_base(input)
        .output_time_base(output)
        .build()
        .unwrap();
    assert_eq!(keyer.input_time_base(), input);
    assert_eq!(keyer.output_time_base(), output);
}

#[test]
fn failed_build_leaves_builder_reusable_path() {
    // A failed build consumes the builder, which releases its graph; a fresh
    // builder afterwards builds a fully working keyer.
    let r = VideoKeyer::builder().build();
    assert!(r.is_err());
    let tb = TimeBase::new(1, 1000);
    let mut keyer = built_keyer(tb);
    keyer.try_push(VideoFrame::new(1, tb, 1)).unwrap();
}

#[test]
fn timestamp_rebase_round_trip() {
    // Input base 1/1000 s, output base 1/25 s: pts 1000 comes out as 25.
    let input = TimeBase::new(1, 1000);
    let output = TimeBase::new(1, 25);
    let mut keyer = VideoKeyer::builder()
        .input_codec_parameters(&params())
        .input_time_base(input)
        .output_time_base(output)
        .build()
        .unwrap();
    keyer.try_push(VideoFrame::new(1000, input, 2)).unwrap();
    keyer.try_push_overlay(VideoFrame::new(1000, input, 3)).unwrap();
    let out = keyer.take().unwrap().unwrap();
    assert_eq!(out.pts(), 25);
    assert_eq!(out.time_base(), output);
    assert_eq!(out.payload(), 2);
}

#[test]
fn timestamp_rebase_rounds_toward_negative_infinity() {
    // pts 100 in 1/1000 s is 2.5 ticks of 1/25 s; floor gives 2.
    let input = TimeBase::new(1, 1000);
    let output = TimeBase::new(1, 25);
    let mut keyer = VideoKeyer::builder()
        .input_codec_parameters(&params())
        .input_time_base(input)
        .output_time_base(output)
        .build()
        .unwrap();
    keyer.try_push(VideoFrame::new(100, input, 2)).unwrap();
    keyer.try_push_overlay(VideoFrame::new(100, input, 3)).unwrap();
    assert_eq!(keyer.take().unwrap().unwrap().pts(), 2);
}

#[test]
fn primary_backpressure_then_drain_then_accept() {
    let tb = TimeBase::new(1, 1000);
    let mut keyer = built_keyer(tb);
    for i in 0..PRIMARY_QUEUE_CAPACITY {
        keyer.try_push(VideoFrame::new(i as i64, tb, 10 + i as u64)).unwrap();
    }
    // The buffer is full: the engine answers with the retryable signal.
    let r = keyer.try_push(VideoFrame::new(99, tb, 99));
    assert!(matches!(r, Err(CodecError::Again)));

    // Drain one merged frame, then the same source accepts again.
    keyer.try_push_overlay(VideoFrame::new(0, tb, 50)).unwrap();
    let out = keyer.take().unwrap().unwrap();
    assert_eq!(out.pts(), 0);
    assert_eq!(out.payload(), 10);
    keyer.try_push(VideoFrame::new(99, tb, 99)).unwrap();

    // No frame was lost: the remaining primary frames drain in push order.
    for i in 1..PRIMARY_QUEUE_CAPACITY {
        keyer.try_push_overlay(VideoFrame::new(i as i64, tb, 50)).unwrap();
        let f = keyer.take().unwrap().unwrap();
        assert_eq!(f.pts(), i as i64);
        assert_eq!(f.payload(), 10 + i as u64);
    }
}

#[test]
fn overlay_backpressure_does_not_block_primary() {
    let tb = TimeBase::new(1, 1000);
    let mut keyer = built_keyer(tb);
    for i in 0..OVERLAY_QUEUE_CAPACITY {
        keyer.try_push_overlay(VideoFrame::new(i as i64, tb, 1)).unwrap();
    }
    let r = keyer.try_push_overlay(VideoFrame::new(99, tb, 1));
    assert!(matches!(r, Err(CodecError::Again)));
    // The primary source accepts regardless.
    keyer.try_push(VideoFrame::new(0, tb, 2)).unwrap();
}

#[test]
fn primary_backpressure_does_not_block_overlay() {
    let tb = TimeBase::new(1, 1000);
    let mut keyer = built_keyer(tb);
    for i in 0..PRIMARY_QUEUE_CAPACITY {
        keyer.try_push(VideoFrame::new(i as i64, tb, 1)).unwrap();
    }
    let r = keyer.try_push(VideoFrame::new(99, tb, 1));
    assert!(matches!(r, Err(CodecError::Again)));
    // The overlay source accepts regardless.
    keyer.try_push_overlay(VideoFrame::new(0, tb, 2)).unwrap();
}

#[test]
fn take_on_fresh_keyer_yields_no_frame() {
    let tb = TimeBase::new(1, 1000);
    let mut keyer = built_keyer(tb);
    for _ in 0..3 {
        assert!(matches!(keyer.take(), Ok(None)));
    }
}

#[test]
fn take_waits_for_overlay_frame() {
    let tb = TimeBase::new(1, 1000);
    let mut keyer = built_keyer(tb);
    keyer.try_push(VideoFrame::new(1, tb, 1)).unwrap();
    // No overlay frame is buffered yet, so no merged frame is available.
    assert!(matches!(keyer.take(), Ok(None)));
}

#[test]
fn flush_signals_primary_only() {
    let tb = TimeBase::new(1, 1000);
    let mut keyer = built_keyer(tb);
    keyer.try_flush().unwrap();
    // The primary source refuses input after its end-of-stream marker ...
    let r = keyer.try_push(VideoFrame::new(1, tb, 1));
    assert!(matches!(r, Err(CodecError::Graph(END_OF_STREAM_CODE))));
    // ... and a second flush is refused the same way ...
    let r = keyer.try_flush();
    assert!(matches!(r, Err(CodecError::Graph(END_OF_STREAM_CODE))));
    // ... while the overlay source, never flushed, keeps accepting.
    keyer.try_push_overlay(VideoFrame::new(1, tb, 1)).unwrap();
}

#[test]
fn flush_against_full_primary_signals_backpressure() {
    let tb = TimeBase::new(1, 1000);
    let mut keyer = built_keyer(tb);
    for i in 0..PRIMARY_QUEUE_CAPACITY {
        keyer.try_push(VideoFrame::new(i as i64, tb, 1)).unwrap();
    }
    let r = keyer.try_flush();
    assert!(matches!(r, Err(CodecError::Again)));
}

#[test]
fn drain_after_flush_until_empty() {
    let tb = TimeBase::new(1, 1000);
    let mut keyer = built_keyer(tb);
    keyer.try_push(VideoFrame::new(1, tb, 4)).unwrap();
    keyer.try_push_overlay(VideoFrame::new(1, tb, 5)).unwrap();
    keyer.try_flush().unwrap();
    // Frames buffered before the flush still drain.
    assert_eq!(keyer.take().unwrap().unwrap().payload(), 4);
    for _ in 0..3 {
        assert!(matches!(keyer.take(), Ok(None)));
    }
}
