use classroom_transcriber::resample::{frame_span, mono_len, needs_resampling, resampled_len, tap, Tap};

#[test]
fn halving_the_rate_halves_the_length() {
    assert_eq!(mono_len(100, 1), 100);
    assert_eq!(resampled_len(100, 32000), Some(50));
    assert_eq!(tap(0, 100, 32000), Tap::Blend { index: 0, weight: 0 });
    assert_eq!(tap(49, 100, 32000), Tap::Blend { index: 98, weight: 0 });
}

#[test]
fn canonical_input_needs_no_resampling() {
    assert!(!needs_resampling(16000, 1));
    assert!(needs_resampling(16000, 2));
    assert!(needs_resampling(44100, 1));
    assert_eq!(resampled_len(7, 16000), Some(7));
    for i in 0..6 {
        assert_eq!(tap(i, 7, 16000), Tap::Blend { index: i, weight: 0 });
    }
    assert_eq!(tap(6, 7, 16000), Tap::Hold { index: 6 });
}

#[test]
fn stereo_frames_are_pairs() {
    assert_eq!(mono_len(4, 2), 2);
    assert_eq!(frame_span(0, 4, 2), (0, 2));
    assert_eq!(frame_span(1, 4, 2), (2, 4));
}

#[test]
fn a_trailing_group_counts_as_a_frame() {
    assert_eq!(mono_len(5, 2), 3);
    assert_eq!(frame_span(2, 5, 2), (4, 5));
    assert_eq!(mono_len(0, 2), 0);
}

#[test]
fn fractional_positions_carry_a_weight() {
    // 44.1 kHz: position of sample 1 is 2.75625.
    assert_eq!(resampled_len(441, 44100), Some(160));
    assert_eq!(tap(1, 441, 44100), Tap::Blend { index: 2, weight: 12100 });
    // Upsampling from 8 kHz doubles the length; the last sample has no successor.
    assert_eq!(resampled_len(3, 8000), Some(6));
    assert_eq!(tap(3, 3, 8000), Tap::Blend { index: 1, weight: 8000 });
    assert_eq!(tap(4, 3, 8000), Tap::Hold { index: 2 });
    assert_eq!(tap(5, 3, 8000), Tap::Hold { index: 2 });
}
