//! Segmenting engine for live HLS delivery of an H.264 elementary stream.
//!
//! Incoming samples are buffered one at a time so that each sample's duration
//! can be computed from the following sample's decode time.  The engine then
//! decides when to adapt the target part duration, when to cut a new segment,
//! and what must be handed to the segment and playlist collaborators.  All of
//! those decisions are made here, synchronously and fully verified; a caller
//! performs the I/O they call for and reports the outcome back.

pub mod error;
pub mod segmenter;
pub mod solver;
pub mod time;
pub mod writer;
