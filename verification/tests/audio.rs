use classroom_transcriber::audio::{AudioError, AudioRecorder, CapturePlan, SampleFormat};

#[test]
fn a_new_session_is_idle() {
    let r = AudioRecorder::new().unwrap();
    assert!(!r.is_recording());
}

#[test]
fn starting_marks_the_session_active_and_stopping_ends_it() {
    let mut r = AudioRecorder::new().unwrap();
    assert!(r.start_recording().is_ok());
    assert!(r.is_recording());
    assert!(r.start_recording().is_ok());
    assert!(r.is_recording());
    r.stop_recording();
    assert!(!r.is_recording());
    assert_eq!(r.capture_plan(10), Some(CapturePlan::Keep { len: 10 }));
}

#[test]
fn stopping_before_starting_gives_nothing() {
    let mut r = AudioRecorder::new().unwrap();
    r.stop_recording();
    let plan = r.capture_plan(0);
    assert_eq!(plan, Some(CapturePlan::Keep { len: 0 }));
    assert_eq!(plan.unwrap().len(), 0);
    assert!(!r.is_recording());
}

#[test]
fn canonical_audio_is_kept_as_it_is() {
    let mut r = AudioRecorder::new().unwrap();
    r.start_recording().unwrap();
    assert!(r.device_opened(SampleFormat::F32, 16000, 1));
    r.stop_recording();
    assert_eq!(r.capture_plan(12345), Some(CapturePlan::Keep { len: 12345 }));
}

#[test]
fn other_audio_is_mixed_down_and_resampled() {
    let mut r = AudioRecorder::new().unwrap();
    r.start_recording().unwrap();
    assert!(r.device_opened(SampleFormat::I16, 48000, 2));
    assert!(r.is_recording());
    r.stop_recording();
    assert!(!r.is_recording());
    assert_eq!(
        r.capture_plan(96000),
        Some(CapturePlan::Resample { rate: 48000, channels: 2, frames: 48000, len: 16000 })
    );
    let mut mono = AudioRecorder::new().unwrap();
    assert!(mono.device_opened(SampleFormat::U16, 32000, 1));
    assert_eq!(
        mono.capture_plan(100),
        Some(CapturePlan::Resample { rate: 32000, channels: 1, frames: 100, len: 50 })
    );
    let mut stereo = AudioRecorder::new().unwrap();
    assert!(stereo.device_opened(SampleFormat::F32, 16000, 2));
    assert_eq!(
        stereo.capture_plan(4),
        Some(CapturePlan::Resample { rate: 16000, channels: 2, frames: 2, len: 2 })
    );
}

#[test]
fn a_rate_of_zero_gives_no_plan() {
    let mut r = AudioRecorder::new().unwrap();
    assert!(r.device_opened(SampleFormat::F32, 0, 1));
    assert_eq!(r.capture_plan(10), None);
}

#[test]
fn only_three_sample_formats_are_taken() {
    assert!(SampleFormat::F32.is_supported());
    assert!(SampleFormat::I16.is_supported());
    assert!(SampleFormat::U16.is_supported());
    for f in [
        SampleFormat::I8,
        SampleFormat::I32,
        SampleFormat::I64,
        SampleFormat::U8,
        SampleFormat::U32,
        SampleFormat::U64,
        SampleFormat::F64,
    ] {
        assert!(!f.is_supported());
    }
}

#[test]
fn a_refused_format_changes_nothing() {
    let mut r = AudioRecorder::new().unwrap();
    r.start_recording().unwrap();
    assert!(!r.device_opened(SampleFormat::I32, 44100, 2));
    assert!(r.is_recording());
    assert_eq!(r.capture_plan(7), Some(CapturePlan::Keep { len: 7 }));
}

#[test]
fn audio_errors_have_their_texts() {
    assert_eq!(AudioError::NoInputDevice.message(), "No input device available");
    assert_eq!(AudioError::ConfigError("c".to_string()).message(), "Failed to get device config: c");
    assert_eq!(AudioError::StreamError("s".to_string()).message(), "Stream error: s");
    assert_eq!(AudioError::IoError("denied".to_string()).message(), "IO error: denied");
    assert_eq!(AudioError::HoundError("h".to_string()).message(), "Hound error: h");
    assert_eq!(AudioError::RecordingError("r".to_string()).message(), "Recording error: r");
}
