//! Hysteresis-based segmentation state machine.
//!
//! Consumes one classified 10 ms frame at a time and accumulates,
//! emits or discards candidate utterances.  The whole state is two
//! counters and the growing segment; the per-frame decision is an
//! ordered match on the classifier verdict and the counters, encoded
//! below exactly as the five rows of the decision table.

use crate::classifier::ClassifierError;
use crate::{FRAME_SIZE, MAXIMUM_INACTIVE_CNT, MAXIMUM_SAMPLE_CNT, MINIMUM_SAMPLE_CNT};
use vstd::prelude::*;

verus! {

/// Row 1: an active frame while the segment may still grow.
pub open spec fn grows(active: int, is_active: bool) -> bool {
    is_active && active < MAXIMUM_SAMPLE_CNT as int
}

/// Rows 2 and 4: the segment is emitted, either because an active frame
/// arrives at the growth ceiling, or because silence has lasted past the
/// inactive ceiling over a segment that grew past the minimum.
pub open spec fn emits(active: int, inactive: int, is_active: bool) -> bool {
    ||| (is_active && active >= MAXIMUM_SAMPLE_CNT as int)
    ||| (!is_active && inactive > MAXIMUM_INACTIVE_CNT as int && active
        > MINIMUM_SAMPLE_CNT as int)
}

/// Row 3: an inactive frame while silence is still below its ceiling;
/// the segment is retained unchanged and the silence is counted.
pub open spec fn waits(inactive: int, is_active: bool) -> bool {
    !is_active && inactive <= MAXIMUM_INACTIVE_CNT as int
}

/// Row 5: silence past its ceiling over a segment that never grew past
/// the minimum; the segment is discarded without emission.
pub open spec fn discards(active: int, inactive: int, is_active: bool) -> bool {
    !is_active && inactive > MAXIMUM_INACTIVE_CNT as int && active <= MINIMUM_SAMPLE_CNT as int
}

/// State of the segmentation machine: the segment being grown, the
/// count of active frames accumulated into it, the count of consecutive
/// inactive frames since activity last held, and the running count of
/// classifier failures.
pub struct Segmenter {
    active_count: usize,
    inactive_count: usize,
    segment: Vec<i16>,
    classifier_errors: usize,
}

/// Per-frame transition relation of the segmentation machine: the five
/// rows of the decision table, as guards over the pre-state.  Whichever
/// row emits or discards resets both counters and empties the segment,
/// so every utterance starts from the same blank state.
pub open spec fn step_post(
    pre: Segmenter,
    post: Segmenter,
    is_active: bool,
    frame: Seq<i16>,
    emitted: Option<Vec<i16>>,
) -> bool {
    &&& (grows(pre.active(), is_active) ==> {
        &&& post.seg() == pre.seg() + frame
        &&& post.active() == pre.active() + 1
        &&& post.inactive() == pre.inactive()
        &&& emitted is None
    })
    &&& (waits(pre.inactive(), is_active) ==> {
        &&& post.seg() == pre.seg()
        &&& post.active() == pre.active()
        &&& post.inactive() == pre.inactive() + 1
        &&& emitted is None
    })
    &&& (emits(pre.active(), pre.inactive(), is_active) ==> (emitted matches Some(s) && s@
        == pre.seg()))
    &&& (discards(pre.active(), pre.inactive(), is_active) ==> emitted is None)
    &&& ((emits(pre.active(), pre.inactive(), is_active) || discards(
        pre.active(),
        pre.inactive(),
        is_active,
    )) ==> {
        &&& post.active() == 0
        &&& post.inactive() == 0
        &&& post.seg() == Seq::<i16>::empty()
    })
    &&& (emitted is Some ==> emits(pre.active(), pre.inactive(), is_active))
    &&& post.errors() == pre.errors()
}

impl Segmenter {
    /// Count of active frames accumulated into the current segment.
    pub closed spec fn active(&self) -> int {
        self.active_count as int
    }

    /// Count of consecutive inactive frames since activity last held.
    pub closed spec fn inactive(&self) -> int {
        self.inactive_count as int
    }

    /// Samples of the segment being grown.
    pub closed spec fn seg(&self) -> Seq<i16> {
        self.segment@
    }

    /// Running count of classifier failures, surfaced upward.
    pub closed spec fn errors(&self) -> int {
        self.classifier_errors as int
    }

    /// The machine is intact: the accumulation count never passes its
    /// ceiling, the segment holds exactly one frame per accumulated
    /// count, and the silence count never passes one past its ceiling.
    pub open spec fn wf(&self) -> bool {
        &&& self.active() <= MAXIMUM_SAMPLE_CNT as int
        &&& self.seg().len() == self.active() * FRAME_SIZE as int
        &&& self.inactive() <= MAXIMUM_INACTIVE_CNT as int + 1
    }

    /// A fresh machine: empty segment, both counters and the failure
    /// count at zero.
    pub fn new() -> (s: Segmenter)
        ensures
            s.wf(),
            s.active() == 0,
            s.inactive() == 0,
            s.seg() == Seq::<i16>::empty(),
            s.errors() == 0,
    {
        let s = Segmenter {
            active_count: 0,
            inactive_count: 0,
            segment: Vec::new(),
            classifier_errors: 0,
        };
        proof {
            assert(s.seg() =~= Seq::<i16>::empty());
        }
        s
    }

    /// Feeds one classified frame through the decision table.  Returns
    /// the emitted segment when a row emits; after an emission or a
    /// discard both counters are zero and the segment is empty again.
    pub fn step(&mut self, is_active: bool, frame: &Vec<i16>) -> (emitted: Option<Vec<i16>>)
        requires
            old(self).wf(),
            frame@.len() == FRAME_SIZE,
        ensures
            final(self).wf(),
            step_post(*old(self), *final(self), is_active, frame@, emitted),
            emitted matches Some(s) ==> s@.len() > MINIMUM_SAMPLE_CNT as int * FRAME_SIZE as int,
    {
        if is_active && self.active_count < MAXIMUM_SAMPLE_CNT {
            let mut j: usize = 0;
            while j < frame.len()
                invariant
                    j <= frame@.len(),
                    self.segment@ == old(self).seg() + frame@.take(j as int),
                    self.active_count == old(self).active(),
                    self.inactive_count == old(self).inactive(),
                    self.classifier_errors == old(self).errors(),
                    frame@.len() == FRAME_SIZE,
                decreases frame@.len() - j,
            {
                self.segment.push(frame[j]);
                j = j + 1;
                proof {
                    assert(self.segment@ =~= old(self).seg() + frame@.take(j as int));
                }
            }
            proof {
                assert(frame@.take(frame@.len() as int) =~= frame@);
            }
            self.active_count = self.active_count + 1;
            None
        } else if is_active {
            let mut emitted_segment: Vec<i16> = Vec::new();
            core::mem::swap(&mut emitted_segment, &mut self.segment);
            self.active_count = 0;
            self.inactive_count = 0;
            Some(emitted_segment)
        } else if self.inactive_count <= MAXIMUM_INACTIVE_CNT {
            self.inactive_count = self.inactive_count + 1;
            None
        } else if self.active_count > MINIMUM_SAMPLE_CNT {
            let mut emitted_segment: Vec<i16> = Vec::new();
            core::mem::swap(&mut emitted_segment, &mut self.segment);
            self.active_count = 0;
            self.inactive_count = 0;
            Some(emitted_segment)
        } else {
            self.segment.clear();
            self.active_count = 0;
            self.inactive_count = 0;
            None
        }
    }

    /// Feeds one classifier verdict through the machine.  A failed
    /// classification advances time without touching the counters or
    /// the segment: it only adds to the failure count (which saturates
    /// rather than wraps), and nothing is emitted.
    pub fn step_classified(
        &mut self,
        classified: Result<bool, ClassifierError>,
        frame: &Vec<i16>,
    ) -> (emitted: Option<Vec<i16>>)
        requires
            old(self).wf(),
            frame@.len() == FRAME_SIZE,
        ensures
            final(self).wf(),
            classified matches Ok(is_active) ==> step_post(
                *old(self),
                *final(self),
                is_active,
                frame@,
                emitted,
            ),
            classified matches Ok(_) ==> (emitted matches Some(s) ==> s@.len()
                > MINIMUM_SAMPLE_CNT as int * FRAME_SIZE as int),
            classified is Err ==> {
                &&& final(self).active() == old(self).active()
                &&& final(self).inactive() == old(self).inactive()
                &&& final(self).seg() == old(self).seg()
                &&& emitted is None
                &&& final(self).errors() == if old(self).errors() == usize::MAX as int {
                    usize::MAX as int
                } else {
                    old(self).errors() + 1
                }
            },
    {
        match classified {
            Ok(is_active) => self.step(is_active, frame),
            Err(ClassifierError) => {
                if self.classifier_errors < usize::MAX {
                    self.classifier_errors = self.classifier_errors + 1;
                }
                None
            },
        }
    }

    /// Count of active frames accumulated into the current segment.
    pub fn active_count(&self) -> (n: usize)
        ensures
            n == self.active(),
    {
        self.active_count
    }

    /// Count of consecutive inactive frames since activity last held.
    pub fn inactive_count(&self) -> (n: usize)
        ensures
            n == self.inactive(),
    {
        self.inactive_count
    }

    /// Number of samples in the segment being grown.
    pub fn segment_len(&self) -> (n: usize)
        ensures
            n == self.seg().len(),
    {
        self.segment.len()
    }

    /// Running count of classifier failures.
    pub fn classifier_errors(&self) -> (n: usize)
        ensures
            n == self.errors(),
    {
        self.classifier_errors
    }
}

} // verus!
