//! Timestamp rebasing on concrete values.

use filtergraph::frame::VideoFrame;
use filtergraph::time_base::{rescale_timestamp, TimeBase};

#[test]
fn rescale_downscales_with_floor() {
    // 100 ticks of 1/1000 s are 2.5 ticks of 1/25 s; rounded toward -inf.
    let from = TimeBase::new(1, 1000);
    let to = TimeBase::new(1, 25);
    assert_eq!(rescale_timestamp(100, from, to), 2);
}

#[test]
fn rescale_exact_value() {
    let from = TimeBase::new(1, 1000);
    let to = TimeBase::new(1, 25);
    assert_eq!(rescale_timestamp(1000, from, to), 25);
}

#[test]
fn rescale_negative_rounds_toward_negative_infinity() {
    // -3 ticks of 1/2 s are -1.5 ticks of 1 s; the floor is -2.
    let from = TimeBase::new(1, 2);
    let to = TimeBase::new(1, 1);
    assert_eq!(rescale_timestamp(-3, from, to), -2);
}

#[test]
fn rescale_identity_keeps_timestamp() {
    let tb = TimeBase::new(1001, 30000);
    assert_eq!(rescale_timestamp(12345, tb, tb), 12345);
    assert_eq!(rescale_timestamp(-12345, tb, tb), -12345);
}

#[test]
fn rescale_upscales() {
    let from = TimeBase::new(1, 25);
    let to = TimeBase::new(1, 1000);
    assert_eq!(rescale_timestamp(2, from, to), 80);
}

#[test]
fn time_base_accessors() {
    let tb = TimeBase::new(1001, 30000);
    assert_eq!(tb.num(), 1001);
    assert_eq!(tb.den(), 30000);
}

#[test]
fn frame_rebase_changes_base_and_pts() {
    let ninety_k = TimeBase::new(1, 90000);
    let millis = TimeBase::new(1, 1000);
    let f = VideoFrame::new(90000, ninety_k, 5);
    let g = f.with_time_base(millis);
    assert_eq!(g.pts(), 1000);
    assert_eq!(g.time_base(), millis);
    assert_eq!(g.payload(), 5);
}
