//! The capture session.
//!
//! The device is driven by the caller's capture thread. This module keeps the
//! session's state and settles which sample formats are taken and what has to
//! happen to the captured samples when the session stops.

use crate::resample::{
    mono_len, needs_resampling, resampled_len, spec_mono_len, spec_needs_resampling,
    spec_resampled_len,
};
use vstd::prelude::*;
use vstd::string::*;

verus! {

/// Why audio could not be captured or written.
#[derive(Debug)]
pub enum AudioError {
    NoInputDevice,
    ConfigError(String),
    StreamError(String),
    IoError(String),
    HoundError(String),
    RecordingError(String),
}

/// The text shown for an [`AudioError`].
pub open spec fn spec_audio_message(e: AudioError) -> Seq<char> {
    match e {
        AudioError::NoInputDevice => "No input device available"@,
        AudioError::ConfigError(m) => "Failed to get device config: "@ + m@,
        AudioError::StreamError(m) => "Stream error: "@ + m@,
        AudioError::IoError(m) => "IO error: "@ + m@,
        AudioError::HoundError(m) => "Hound error: "@ + m@,
        AudioError::RecordingError(m) => "Recording error: "@ + m@,
    }
}

fn prefixed(prefix: &str, detail: &String) -> (s: String)
    ensures
        s@ == prefix@ + detail@,
{
    let mut s = String::from_str(prefix);
    s.append(detail.as_str());
    s
}

impl AudioError {
    /// The text shown for the error.
    pub fn message(&self) -> (s: String)
        ensures
            s@ == spec_audio_message(*self),
    {
        match self {
            AudioError::NoInputDevice => String::from_str("No input device available"),
            AudioError::ConfigError(m) => prefixed("Failed to get device config: ", m),
            AudioError::StreamError(m) => prefixed("Stream error: ", m),
            AudioError::IoError(m) => prefixed("IO error: ", m),
            AudioError::HoundError(m) => prefixed("Hound error: ", m),
            AudioError::RecordingError(m) => prefixed("Recording error: ", m),
        }
    }
}

/// The sample formats that an input device may deliver.
#[derive(Clone, Copy, Debug, PartialEq, Eq, Structural)]
pub enum SampleFormat {
    I8,
    I16,
    I32,
    I64,
    U8,
    U16,
    U32,
    U64,
    F32,
    F64,
}

impl SampleFormat {
    /// Whether the capture takes samples of this format: 32-bit floating
    /// point, and signed and unsigned 16-bit integers.
    pub open spec fn spec_is_supported(self) -> bool {
        self == SampleFormat::F32 || self == SampleFormat::I16 || self == SampleFormat::U16
    }

    /// Whether the capture takes samples of this format.
    #[verifier::when_used_as_spec(spec_is_supported)]
    pub fn is_supported(self) -> (b: bool)
        ensures
            b == self.spec_is_supported(),
    {
        match self {
            SampleFormat::F32 | SampleFormat::I16 | SampleFormat::U16 => true,
            _ => false,
        }
    }
}

/// What has to happen to the samples of a stopped session.
#[derive(Clone, Copy, Debug, PartialEq, Eq, Structural)]
pub enum CapturePlan {
    /// The samples are canonical audio as they stand.
    Keep { len: usize },
    /// The samples are mixed down to `frames` mono frames and resampled to
    /// `len` samples.
    Resample { rate: u32, channels: u16, frames: usize, len: usize },
}

impl CapturePlan {
    /// Number of samples of the canonical audio.
    pub open spec fn spec_len(self) -> usize {
        match self {
            CapturePlan::Keep { len } => len,
            CapturePlan::Resample { len, .. } => len,
        }
    }

    /// Number of samples of the canonical audio.
    #[verifier::when_used_as_spec(spec_len)]
    pub fn len(self) -> (n: usize)
        ensures
            n == self.spec_len(),
    {
        match self {
            CapturePlan::Keep { len } => len,
            CapturePlan::Resample { len, .. } => len,
        }
    }
}

/// The plan for `samples` samples captured at `rate` with `channels`
/// channels, where the canonical audio fits the machine's word.
pub open spec fn spec_capture_plan(samples: usize, rate: u32, channels: u16) -> Option<
    CapturePlan,
> {
    if !spec_needs_resampling(rate, channels) {
        Some(CapturePlan::Keep { len: samples })
    } else {
        let frames = spec_mono_len(samples as int, channels as int);
        let len = spec_resampled_len(frames, rate as int);
        if rate == 0 || len > usize::MAX {
            None
        } else {
            Some(
                CapturePlan::Resample {
                    rate,
                    channels,
                    frames: frames as usize,
                    len: len as usize,
                },
            )
        }
    }
}

/// The state of the capture session: whether it is active, and the rate and
/// channel count that the device was opened with.
#[derive(Debug)]
pub struct AudioRecorder {
    is_recording: bool,
    sample_rate: u32,
    channels: u16,
}

/// Mathematical value of an [`AudioRecorder`].
pub struct AudioRecorderView {
    pub is_recording: bool,
    pub sample_rate: u32,
    pub channels: u16,
}

impl View for AudioRecorder {
    type V = AudioRecorderView;

    closed spec fn view(&self) -> AudioRecorderView {
        AudioRecorderView {
            is_recording: self.is_recording,
            sample_rate: self.sample_rate,
            channels: self.channels,
        }
    }
}

impl AudioRecorder {
    /// An idle session; until a device reports otherwise, audio counts as
    /// canonical.
    pub fn new() -> (r: Result<AudioRecorder, AudioError>)
        ensures
            r matches Ok(rec) && rec@ == (AudioRecorderView {
                is_recording: false,
                sample_rate: 16000,
                channels: 1,
            }),
    {
        Ok(AudioRecorder { is_recording: false, sample_rate: 16000, channels: 1 })
    }

    /// Marks the session active. The caller clears its buffer and starts the
    /// capture thread; starting an active session starts it over.
    pub fn start_recording(&mut self) -> (r: Result<(), AudioError>)
        ensures
            r is Ok,
            final(self)@ == (AudioRecorderView { is_recording: true, ..old(self)@ }),
    {
        self.is_recording = true;
        Ok(())
    }

    /// Takes note of what the device delivers. A format that the capture does
    /// not take is refused and nothing changes: the capture thread then
    /// ends without collecting a sample.
    pub fn device_opened(&mut self, format: SampleFormat, sample_rate: u32, channels: u16) -> (taken:
        bool)
        ensures
            taken == format.spec_is_supported(),
            taken ==> final(self)@ == (AudioRecorderView { sample_rate, channels, ..old(self)@ }),
            !taken ==> final(self)@ == old(self)@,
    {
        if format.is_supported() {
            self.sample_rate = sample_rate;
            self.channels = channels;
            true
        } else {
            false
        }
    }

    /// Ends the session: the capture thread sees the cleared flag and ends.
    /// The rate and the channel count stay as the device reported them.
    pub fn stop_recording(&mut self)
        ensures
            final(self)@ == (AudioRecorderView { is_recording: false, ..old(self)@ }),
    {
        self.is_recording = false;
    }

    /// What has to happen to the `samples` samples that the session
    /// collected: nothing where the device delivered canonical audio, else
    /// the downmix and the resampling. `None` where the device reported a
    /// rate of zero or the canonical audio would not fit the machine's word.
    pub fn capture_plan(&self, samples: usize) -> (plan: Option<CapturePlan>)
        ensures
            plan == spec_capture_plan(samples, self@.sample_rate, self@.channels),
    {
        if !needs_resampling(self.sample_rate, self.channels) {
            return Some(CapturePlan::Keep { len: samples });
        }
        let frames = mono_len(samples, self.channels);
        match resampled_len(frames, self.sample_rate) {
            Some(len) => Some(
                CapturePlan::Resample {
                    rate: self.sample_rate,
                    channels: self.channels,
                    frames,
                    len,
                },
            ),
            None => None,
        }
    }

    /// Whether the session is active.
    pub fn is_recording(&self) -> (b: bool)
        ensures
            b == self@.is_recording,
    {
        self.is_recording
    }
}

} // verus!
