//! Per-frame glue of the segmentation loop.
//!
//! The loop that the orchestrator runs does the same two things over
//! and over: drain exactly one whole frame once enough samples are
//! buffered, and run it through the classifier into the state machine.
//! Both steps live here as verified functions from plain values to
//! plain values; the surrounding tasks only schedule them.

use crate::classifier::{Classifier, ClassifierError};
use crate::ring_buffer::RingBuffer;
use crate::segmenter::{step_post, Segmenter};
use crate::{FRAME_SIZE, MINIMUM_SAMPLE_CNT};
use vstd::prelude::*;

verus! {

/// Runs one whole frame through the classifier and feeds the verdict
/// into the machine.  A whole frame is always valid to the classifier,
/// so some verdict is obtained and the machine moves by exactly one
/// row of the decision table; which row depends on the decoder's
/// internal state.
pub fn process_frame(
    classifier: &mut Classifier,
    segmenter: &mut Segmenter,
    frame: &Vec<i16>,
) -> (emitted: Option<Vec<i16>>)
    requires
        old(segmenter).wf(),
        frame@.len() == FRAME_SIZE,
    ensures
        final(segmenter).wf(),
        exists|is_active: bool|
            step_post(*old(segmenter), *final(segmenter), is_active, frame@, emitted),
        final(segmenter).errors() == old(segmenter).errors(),
        emitted matches Some(s) ==> s@.len() > MINIMUM_SAMPLE_CNT as int * FRAME_SIZE as int,
{
    let verdict = classifier.classify(frame);
    match verdict {
        Ok(is_active) => {
            let emitted = segmenter.step(is_active, frame);
            proof {
                assert(step_post(*old(segmenter), *segmenter, is_active, frame@, emitted));
            }
            emitted
        },
        Err(ClassifierError) => {
            proof {
                assert(false);
            }
            None
        },
    }
}

/// One iteration of the segmentation loop: when at least one whole
/// frame is buffered, drains exactly one and processes it, handing back
/// whatever the machine emitted; with fewer samples buffered it leaves
/// everything untouched, so the caller may yield and poll again.
pub fn segmentation_tick(
    buffer: &mut RingBuffer,
    classifier: &mut Classifier,
    segmenter: &mut Segmenter,
) -> (emitted: Option<Vec<i16>>)
    requires
        old(buffer).wf(),
        old(segmenter).wf(),
    ensures
        final(buffer).wf(),
        final(buffer).capacity_spec() == old(buffer).capacity_spec(),
        final(segmenter).wf(),
        old(buffer)@.len() < FRAME_SIZE ==> {
            &&& final(buffer)@ == old(buffer)@
            &&& *final(segmenter) == *old(segmenter)
            &&& emitted is None
        },
        old(buffer)@.len() >= FRAME_SIZE ==> {
            &&& final(buffer)@ == old(buffer)@.skip(FRAME_SIZE as int)
            &&& exists|is_active: bool|
                step_post(
                    *old(segmenter),
                    *final(segmenter),
                    is_active,
                    old(buffer)@.take(FRAME_SIZE as int),
                    emitted,
                )
            &&& final(segmenter).errors() == old(segmenter).errors()
        },
        emitted matches Some(s) ==> s@.len() > MINIMUM_SAMPLE_CNT as int * FRAME_SIZE as int,
{
    if buffer.available_slots() < FRAME_SIZE {
        return None;
    }
    let frame = buffer.pop_frame(FRAME_SIZE);
    process_frame(classifier, segmenter, &frame)
}

} // verus!
