//! Capture, process and sync pipeline of a classroom recording client.
//!
//! The crate holds the decisions of the pipeline: how captured audio is
//! brought to the canonical rate, how a diarized transcript is labelled,
//! how a submission is judged, and in which order the stages run.

pub mod audio;
pub mod pipeline;
pub mod recording;
pub mod resample;
pub mod settings;
pub mod sync;
pub mod text;
pub mod whisper;
