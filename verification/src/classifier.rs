//! Voice-activity classifier adapter.
//!
//! Wraps the external classifier capability behind a fixed-size-frame
//! interface.  The decoder is stateful across calls, its aggressiveness
//! mode and sample rate are fixed at construction, and one segmentation
//! loop calls it sequentially, one frame at a time.

use crate::FRAME_SIZE;
use vstd::prelude::*;

verus! {

#[verifier::external_type_specification]
#[verifier::external_body]
pub struct ExVad(webrtc_vad::Vad);

/// Per-frame classification failure: the classifier rejected the frame.
#[derive(Clone, Copy, Debug, PartialEq, Eq, Structural)]
pub struct ClassifierError;

/// Relies on `webrtc_vad::Vad::new_with_rate_and_mode`: builds a fresh
/// decoder, here always fixed at the 8 kHz sample rate in the default
/// Quality aggressiveness mode, as this crate's pipeline runs at 8 kHz.
#[verifier::external_body]
fn fresh_vad() -> webrtc_vad::Vad {
    webrtc_vad::Vad::new_with_rate_and_mode(
        webrtc_vad::SampleRate::Rate8kHz,
        webrtc_vad::VadMode::Quality,
    )
}

/// Relies on `webrtc_vad::Vad::is_voice_segment`: it indexes the first
/// sample, so the frame must not be empty, and it reports an error
/// exactly on an invalid frame length.  At the 8 kHz rate that every
/// decoder of this crate is built with, the valid lengths are the
/// 10, 20 and 30 ms frames of 80, 160 and 240 samples.  Whether a valid
/// frame counts as speech depends on the decoder's internal state, so
/// nothing is stated about which boolean comes back.
#[verifier::external_body]
fn vad_is_voice(vad: &mut webrtc_vad::Vad, frame: &Vec<i16>) -> (r: Result<bool, ClassifierError>)
    requires
        frame@.len() > 0,
    ensures
        (r is Ok) <==> (frame@.len() == 80 || frame@.len() == 160 || frame@.len() == 240),
{
    match vad.is_voice_segment(frame.as_slice()) {
        Ok(is_active) => Ok(is_active),
        Err(()) => Err(ClassifierError),
    }
}

/// Adapter that owns one classifier decoder.  Only whole 10 ms frames
/// at the pipeline's 8 kHz rate are handed to it.
pub struct Classifier {
    vad: webrtc_vad::Vad,
}

impl Classifier {
    /// Builds the adapter around a fresh decoder at 8 kHz, Quality mode.
    pub fn new() -> (c: Classifier) {
        Classifier { vad: fresh_vad() }
    }

    /// Classifies one frame as speech (`true`) or silence (`false`).
    /// A whole 10 ms frame is always a valid input to the decoder, so
    /// classification itself cannot fail; which answer comes back
    /// depends on the decoder's internal state.
    pub fn classify(&mut self, frame: &Vec<i16>) -> (r: Result<bool, ClassifierError>)
        requires
            frame@.len() == FRAME_SIZE,
        ensures
            r is Ok,
    {
        vad_is_voice(&mut self.vad, frame)
    }
}

} // verus!
