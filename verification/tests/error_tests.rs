//! The engine status-code mapping for the dual-source push protocol.

use filtergraph::error::{feed_result_from_code, CodecError};

#[test]
fn positive_feed_code_means_accepted() {
    assert!(matches!(feed_result_from_code(1), Ok(())));
}

#[test]
fn zero_feed_code_means_backpressure() {
    assert!(matches!(feed_result_from_code(0), Err(CodecError::Again)));
}

#[test]
fn negative_feed_code_is_passed_through() {
    assert!(matches!(feed_result_from_code(-5), Err(CodecError::Graph(-5))));
}
