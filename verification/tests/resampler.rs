use voice_segmenter::resampler::{normalize_audio_data_to_16k, normalize_audio_data_to_8k, resample};

#[test]
fn identity_ratio_returns_input_exactly() {
    let input: Vec<i16> = vec![0, 1, -2, 3, 100, -32768, 32767, 8, 9, 10];
    let out = resample(&input, 8000, 8000);
    assert_eq!(out, input);
}

#[test]
fn identity_ratio_at_other_rates() {
    let input: Vec<i16> = (0..441).map(|i| (i * 3 - 500) as i16).collect();
    let out = resample(&input, 44100, 44100);
    assert_eq!(out, input);
}

#[test]
fn halving_a_ramp_takes_every_other_sample() {
    let input: Vec<i16> = (0..16).collect();
    let out = resample(&input, 16000, 8000);
    assert_eq!(out, vec![0, 2, 4, 6, 8, 10, 12, 14]);
}

#[test]
fn non_integer_ratio_interpolates_between_neighbours() {
    let input: Vec<i16> = vec![0, 30, 60];
    let out = resample(&input, 3, 2);
    assert_eq!(out, vec![0, 45]);
}

#[test]
fn upsampling_interpolates_midpoints() {
    let input: Vec<i16> = vec![0, 10, 20];
    let out = resample(&input, 1, 2);
    assert_eq!(out, vec![0, 5, 10, 15, 20]);
}

#[test]
fn trailing_partial_window_is_dropped_not_padded() {
    let input: Vec<i16> = vec![0, 100];
    let out = resample(&input, 1, 4);
    assert_eq!(out, vec![0, 25, 50, 75, 100]);
}

#[test]
fn empty_input_resamples_to_empty_output() {
    let input: Vec<i16> = Vec::new();
    let out = resample(&input, 48000, 8000);
    assert!(out.is_empty());
}

#[test]
fn normalize_to_8k_matches_general_resample() {
    let input: Vec<i16> = (0..160).map(|i| (i * 7 % 101) as i16).collect();
    assert_eq!(
        normalize_audio_data_to_8k(&input, 16000),
        resample(&input, 16000, 8000)
    );
    assert_eq!(normalize_audio_data_to_8k(&input, 8000), input);
}

#[test]
fn normalize_to_16k_matches_general_resample() {
    let input: Vec<i16> = (0..160).map(|i| (i * 13 % 67) as i16).collect();
    assert_eq!(
        normalize_audio_data_to_16k(&input, 48000),
        resample(&input, 48000, 16000)
    );
    assert_eq!(normalize_audio_data_to_16k(&input, 16000), input);
}

#[test]
fn interpolation_rounds_toward_the_lower_neighbour() {
    let input: Vec<i16> = vec![0, -3];
    let out = resample(&input, 1, 2);
    assert_eq!(out, vec![0, -1, -3]);
}
