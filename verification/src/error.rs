//! Errors of the segmenting engine.  Every error is fatal for the write call
//! that produced it; cancellation is not an error.

use vstd::prelude::*;

verus! {

/// No part duration compatible with every observed sample duration exists
/// within the bounded search.
#[derive(Clone, Copy, PartialEq, Eq, Structural, Debug)]
pub enum AdjustPartDurationError {
    Error,
}

/// A write call failed; the engine stays usable for the next call.
#[derive(Clone, Copy, PartialEq, Eq, Structural, Debug)]
pub enum SegmenterWriteH264Error {
    /// Part-duration adaptation failed for the sample about to be written.
    AdjustPartDuration(AdjustPartDurationError),
    /// The span between consecutive decode times cannot be represented.
    ComputeSampleDuration,
    /// The elapsed time since the open segment's start cannot be represented.
    SwitchSegment,
}

} // verus!
