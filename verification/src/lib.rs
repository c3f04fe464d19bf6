//! Voice-triggered audio segmenter.
//!
//! A capture callback hands the pipeline blocks of raw samples at a
//! device-dependent rate.  They are resampled to the 8 kHz target rate,
//! queued through a fixed-capacity ring buffer, cut into 10 ms frames,
//! classified as speech or silence, and accumulated by a hysteresis
//! state machine that emits complete utterances.

use vstd::prelude::*;

pub mod classifier;
pub mod pipeline;
pub mod resampler;
pub mod ring_buffer;
pub mod segmenter;

verus! {

/// Samples per classifier frame: 10 ms of mono audio at the 8 kHz target rate.
pub const FRAME_SIZE: usize = 80;

/// Sample rate, in Hz, that every stage past the capture boundary works at.
pub const TARGET_SAMPLE_RATE: usize = 8000;

/// Ceiling on consecutive inactive frames kept inside a growing segment;
/// one more inactive frame ends the segment (emitted or discarded).
pub const MAXIMUM_INACTIVE_CNT: usize = 35;

/// A segment that silence ends is emitted only when more than this many
/// active frames were accumulated; with fewer it is discarded.
pub const MINIMUM_SAMPLE_CNT: usize = 4800;

/// A segment never accumulates more than this many active frames; at the
/// ceiling the next active frame forces emission instead of growth.
pub const MAXIMUM_SAMPLE_CNT: usize = 8000;

} // verus!
