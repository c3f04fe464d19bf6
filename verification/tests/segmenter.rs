use voice_segmenter::classifier::ClassifierError;
use voice_segmenter::segmenter::Segmenter;
use voice_segmenter::{FRAME_SIZE, MAXIMUM_INACTIVE_CNT, MAXIMUM_SAMPLE_CNT, MINIMUM_SAMPLE_CNT};

fn frame_of(value: i16) -> Vec<i16> {
    vec![value; FRAME_SIZE]
}

#[test]
fn eighty_active_frames_accumulate_without_emission() {
    let mut s = Segmenter::new();
    let frame = frame_of(100);
    for _ in 0..80 {
        assert_eq!(s.step(true, &frame), None);
    }
    assert_eq!(s.active_count(), 80);
    assert_eq!(s.inactive_count(), 0);
    assert_eq!(s.segment_len(), 80 * FRAME_SIZE);
}

#[test]
fn active_frame_at_the_growth_ceiling_forces_emission() {
    let mut s = Segmenter::new();
    let frame = frame_of(7);
    for _ in 0..MAXIMUM_SAMPLE_CNT {
        assert_eq!(s.step(true, &frame), None);
    }
    assert_eq!(s.active_count(), MAXIMUM_SAMPLE_CNT);
    let emitted = s.step(true, &frame).expect("the ceiling frame must emit");
    assert_eq!(emitted.len(), MAXIMUM_SAMPLE_CNT * FRAME_SIZE);
    assert!(emitted.iter().all(|&x| x == 7));
    assert_eq!(s.active_count(), 0);
    assert_eq!(s.inactive_count(), 0);
    assert_eq!(s.segment_len(), 0);
}

#[test]
fn silence_after_a_long_segment_emits_it() {
    let mut s = Segmenter::new();
    let active_frame = frame_of(9);
    let silent_frame = frame_of(0);
    for _ in 0..5000 {
        assert_eq!(s.step(true, &active_frame), None);
    }
    assert!(s.active_count() > MINIMUM_SAMPLE_CNT);
    for k in 1..=(MAXIMUM_INACTIVE_CNT + 1) {
        assert_eq!(s.step(false, &silent_frame), None);
        assert_eq!(s.inactive_count(), k);
        assert_eq!(s.active_count(), 5000);
    }
    let emitted = s
        .step(false, &silent_frame)
        .expect("silence past its ceiling must emit the long segment");
    assert_eq!(emitted.len(), 5000 * FRAME_SIZE);
    assert!(emitted.iter().all(|&x| x == 9));
    assert_eq!(s.active_count(), 0);
    assert_eq!(s.inactive_count(), 0);
    assert_eq!(s.segment_len(), 0);
}

#[test]
fn silence_after_a_short_segment_discards_it() {
    let mut s = Segmenter::new();
    let active_frame = frame_of(3);
    let silent_frame = frame_of(0);
    for _ in 0..100 {
        assert_eq!(s.step(true, &active_frame), None);
    }
    assert_eq!(s.active_count(), 100);
    for _ in 0..(MAXIMUM_INACTIVE_CNT + 1) {
        assert_eq!(s.step(false, &silent_frame), None);
    }
    assert_eq!(s.inactive_count(), MAXIMUM_INACTIVE_CNT + 1);
    assert_eq!(
        s.step(false, &silent_frame),
        None,
        "a short segment is discarded, never emitted"
    );
    assert_eq!(s.active_count(), 0);
    assert_eq!(s.inactive_count(), 0);
    assert_eq!(s.segment_len(), 0);
}

#[test]
fn boundary_exactly_at_the_minimum_is_discarded() {
    let mut s = Segmenter::new();
    let active_frame = frame_of(1);
    let silent_frame = frame_of(0);
    for _ in 0..MINIMUM_SAMPLE_CNT {
        assert_eq!(s.step(true, &active_frame), None);
    }
    for _ in 0..(MAXIMUM_INACTIVE_CNT + 1) {
        assert_eq!(s.step(false, &silent_frame), None);
    }
    assert_eq!(
        s.step(false, &silent_frame),
        None,
        "a segment of exactly the minimum count falls on the discard side"
    );
    assert_eq!(s.active_count(), 0);
    assert_eq!(s.segment_len(), 0);
}

#[test]
fn waiting_frames_leave_the_segment_unchanged() {
    let mut s = Segmenter::new();
    let active_frame = frame_of(4);
    let silent_frame = frame_of(0);
    for _ in 0..10 {
        assert_eq!(s.step(true, &active_frame), None);
    }
    for _ in 0..5 {
        assert_eq!(s.step(false, &silent_frame), None);
    }
    assert_eq!(s.active_count(), 10);
    assert_eq!(s.inactive_count(), 5);
    assert_eq!(s.segment_len(), 10 * FRAME_SIZE);
    assert_eq!(s.step(true, &active_frame), None);
    assert_eq!(s.active_count(), 11);
    assert_eq!(
        s.inactive_count(),
        5,
        "the silence count clears only on emission or discard"
    );
}

#[test]
fn classifier_failure_advances_time_without_touching_state() {
    let mut s = Segmenter::new();
    let frame = frame_of(2);
    for _ in 0..12 {
        assert_eq!(s.step(true, &frame), None);
    }
    assert_eq!(s.classifier_errors(), 0);
    assert_eq!(s.step_classified(Err(ClassifierError), &frame), None);
    assert_eq!(s.classifier_errors(), 1);
    assert_eq!(s.active_count(), 12);
    assert_eq!(s.inactive_count(), 0);
    assert_eq!(s.segment_len(), 12 * FRAME_SIZE);
    assert_eq!(s.step_classified(Err(ClassifierError), &frame), None);
    assert_eq!(s.classifier_errors(), 2);
}

#[test]
fn step_classified_ok_behaves_like_step() {
    let mut s = Segmenter::new();
    let frame = frame_of(6);
    assert_eq!(s.step_classified(Ok(true), &frame), None);
    assert_eq!(s.active_count(), 1);
    assert_eq!(s.step_classified(Ok(false), &frame), None);
    assert_eq!(s.inactive_count(), 1);
    assert_eq!(s.classifier_errors(), 0);
}

#[test]
fn emitted_segment_is_the_accumulated_samples_in_order() {
    let mut s = Segmenter::new();
    let silent_frame = frame_of(0);
    for value in 0..5000i16 {
        let frame = frame_of(value);
        assert_eq!(s.step(true, &frame), None);
    }
    for _ in 0..(MAXIMUM_INACTIVE_CNT + 2) {
        if let Some(emitted) = s.step(false, &silent_frame) {
            assert_eq!(emitted.len(), 5000 * FRAME_SIZE);
            for (i, &sample) in emitted.iter().enumerate() {
                assert_eq!(sample, (i / FRAME_SIZE) as i16);
            }
            assert_eq!(s.active_count(), 0);
            assert_eq!(s.inactive_count(), 0);
            assert_eq!(s.segment_len(), 0);
            return;
        }
    }
    panic!("the accumulated segment was never emitted");
}
