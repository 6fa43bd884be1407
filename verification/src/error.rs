//! Error kinds surfaced by the pipeline.
//!
//! Construction can fail because a required builder field is missing
//! ([`Error::Config`]), because the engine refused a graph operation with a
//! negative status code ([`Error::Graph`]), or because the engine handed back
//! an empty resource ([`Error::Allocation`]).  At runtime the dual-source
//! protocol additionally distinguishes a retryable buffer-full condition
//! ([`CodecError::Again`]) from a terminal engine error: backpressure means
//! "drain output, then retry the push", never data loss.

use vstd::prelude::*;

verus! {

/// A required builder field that was left unset.
#[derive(Clone, Copy, Debug, PartialEq, Eq, Structural)]
pub enum ConfigIssue {
    /// `build` was called without codec parameters.
    CodecParametersNotSet,
    /// `build` was called without an input time base.
    InputTimeBaseNotSet,
}

/// A construction or drain failure.
#[derive(Clone, Copy, Debug, PartialEq, Eq, Structural)]
pub enum Error {
    /// A required builder field is missing; caller-correctable and surfaced
    /// before any engine resource is touched.
    Config(ConfigIssue),
    /// The engine reported a negative status code; the code is passed through
    /// uninterpreted.
    Graph(i32),
    /// The engine returned an empty resource while creating a graph or an
    /// endpoint.  The in-memory engine of this library never does, so no
    /// operation of the library produces this kind; it is kept for callers
    /// that drive a native engine through the same protocol.
    Allocation,
}

/// The outcome of pushing a frame or an end-of-stream marker to one source of
/// a dual-source graph.
#[derive(Clone, Copy, Debug, PartialEq, Eq, Structural)]
pub enum CodecError {
    /// The source's internal buffer is full: drain output via `take`, then
    /// retry the same push.  Retryable, never data loss.
    Again,
    /// The engine reported a negative status code; passed through
    /// uninterpreted.
    Graph(i32),
}

/// Map an engine feed status code onto the dual-source push outcome: the
/// engine answers a push with a positive code when the frame was queued, zero
/// when the source's buffer is full, and a negative code on failure.
pub fn feed_result_from_code(code: i32) -> (r: Result<(), CodecError>)
    ensures
        code == 1 ==> r == Ok::<(), CodecError>(()),
        code == 0 ==> r == Err::<(), CodecError>(CodecError::Again),
        (code != 0 && code != 1) ==> r == Err::<(), CodecError>(CodecError::Graph(code)),
{
    match code {
        1 => Ok(()),
        0 => Err(CodecError::Again),
        e => Err(CodecError::Graph(e)),
    }
}

} // verus!
