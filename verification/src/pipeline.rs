//! The processing pipeline: save, transcribe, sync.
//!
//! The pipeline is a state machine. The caller does the work that touches the
//! device, the disk, the engine and the network, and reports what came of it
//! as an [`Event`]; the machine answers with the status events to publish and
//! the next thing to do. A failed transcription or a refused submission
//! degrades the result, and the pipeline still ends in `done`.

use crate::recording::{
    audio_file_name, clone_text, fresh_uuid, spec_audio_file_name, spec_text,
    spec_unknown_student, utc_timestamp, Recording, RecordingView,
};
use crate::whisper::WhisperError;
use vstd::prelude::*;
use vstd::string::*;

verus! {

/// The stage that a status event reports.
#[derive(Clone, Copy, Debug, PartialEq, Eq, Structural)]
pub enum Stage {
    Idle,
    Saving,
    Transcribing,
    Syncing,
    Done,
    Error,
}

impl Stage {
    /// The tag of the stage in a status event.
    pub open spec fn spec_tag(self) -> Seq<char> {
        match self {
            Stage::Idle => "idle"@,
            Stage::Saving => "saving"@,
            Stage::Transcribing => "transcribing"@,
            Stage::Syncing => "syncing"@,
            Stage::Done => "done"@,
            Stage::Error => "error"@,
        }
    }

    /// The tag of the stage in a status event.
    pub fn tag(self) -> (t: &'static str)
        ensures
            t@ == self.spec_tag(),
    {
        match self {
            Stage::Idle => "idle",
            Stage::Saving => "saving",
            Stage::Transcribing => "transcribing",
            Stage::Syncing => "syncing",
            Stage::Done => "done",
            Stage::Error => "error",
        }
    }

    /// Place of the stage in the order of the pipeline.
    pub open spec fn spec_order(self) -> nat {
        match self {
            Stage::Idle => 0,
            Stage::Saving => 1,
            Stage::Transcribing => 2,
            Stage::Syncing => 3,
            Stage::Done => 4,
            Stage::Error => 5,
        }
    }
}

/// A status event: what the pipeline is doing, for the caller to show.
#[derive(Debug)]
pub struct ProcessingStatus {
    pub stage: Stage,
    pub message: String,
    pub recording_id: Option<String>,
    pub transcript: Option<String>,
    pub synced: bool,
}

/// Mathematical value of a [`ProcessingStatus`].
pub struct StatusView {
    pub stage: Stage,
    pub message: Seq<char>,
    pub recording_id: Option<Seq<char>>,
    pub transcript: Option<Seq<char>>,
    pub synced: bool,
}

impl View for ProcessingStatus {
    type V = StatusView;

    open spec fn view(&self) -> StatusView {
        StatusView {
            stage: self.stage,
            message: self.message@,
            recording_id: spec_text(self.recording_id),
            transcript: spec_text(self.transcript),
            synced: self.synced,
        }
    }
}

impl DeepView for ProcessingStatus {
    type V = StatusView;

    open spec fn deep_view(&self) -> StatusView {
        self@
    }
}

impl Clone for ProcessingStatus {
    fn clone(&self) -> (r: Self)
        ensures
            r == *self,
    {
        ProcessingStatus {
            stage: self.stage,
            message: self.message.clone(),
            recording_id: clone_text(&self.recording_id),
            transcript: clone_text(&self.transcript),
            synced: self.synced,
        }
    }
}

/// What the caller reports to the pipeline.
#[derive(Debug)]
pub enum Event {
    /// The capture is to stop and be processed.
    Stop,
    /// The audio was written: where, how many canonical samples, and the
    /// student that is set up, if any.
    Saved { audio_path: String, samples: u64, student_id: Option<String> },
    /// The store did what it was last asked to do.
    Stored,
    /// Writing the audio or the store failed; the text says why.
    Failed(String),
    /// The engine produced this transcript.
    Transcribed(String),
    /// The engine failed.
    TranscriptionFailed(WhisperError),
    /// No engine is loaded.
    EngineMissing,
    /// The server accepted the transcript.
    Accepted,
    /// The server did not accept the transcript, or could not be reached.
    Refused,
}

/// What the pipeline asks the caller to do next.
#[derive(Debug)]
pub enum Action {
    /// Nothing: the event was not one that the pipeline waits for.
    Wait,
    /// Stop the capture and write its audio under `file_name` in the audio
    /// directory; then report `Saved` or `Failed`.
    SaveAudio { id: String, file_name: String },
    /// Write the record to the store; then report `Stored` or `Failed`.
    Store(Recording),
    /// Run the engine on the file; then report the transcript or the failure.
    Transcribe { audio_path: String },
    /// Submit the record to the server; then report `Accepted` or `Refused`.
    Submit(Recording),
    /// Mark the record as synced in the store; then report `Stored` or
    /// `Failed`.
    MarkSynced { id: String },
    /// The pipeline is done; this is its last status.
    Finish(ProcessingStatus),
    /// The pipeline gave up; the text says why.
    Abort(String),
}

/// Mathematical value of an [`Action`].
pub enum ActionView {
    Wait,
    SaveAudio { id: Seq<char>, file_name: Seq<char> },
    Store(RecordingView),
    Transcribe { audio_path: Seq<char> },
    Submit(RecordingView),
    MarkSynced { id: Seq<char> },
    Finish(StatusView),
    Abort(Seq<char>),
}

impl View for Action {
    type V = ActionView;

    open spec fn view(&self) -> ActionView {
        match self {
            Action::Wait => ActionView::Wait,
            Action::SaveAudio { id, file_name } => ActionView::SaveAudio {
                id: id@,
                file_name: file_name@,
            },
            Action::Store(r) => ActionView::Store(r@),
            Action::Transcribe { audio_path } => ActionView::Transcribe { audio_path: audio_path@ },
            Action::Submit(r) => ActionView::Submit(r@),
            Action::MarkSynced { id } => ActionView::MarkSynced { id: id@ },
            Action::Finish(s) => ActionView::Finish(s@),
            Action::Abort(why) => ActionView::Abort(why@),
        }
    }
}

/// The answer of the pipeline to one event.
#[derive(Debug)]
pub struct Step {
    /// The status events to publish, in order.
    pub emitted: Vec<ProcessingStatus>,
    /// What to do next.
    pub action: Action,
}

/// Mathematical value of a [`Step`].
pub struct StepView {
    pub emitted: Seq<StatusView>,
    pub action: ActionView,
}

impl View for Step {
    type V = StepView;

    open spec fn view(&self) -> StepView {
        StepView { emitted: self.emitted.deep_view(), action: self.action@ }
    }
}

/// The state of the pipeline: what it waits for, with what it has so far.
#[derive(Debug)]
pub enum Pipeline {
    /// Nothing is being processed.
    Idle,
    /// The audio of the recording `id` is being written.
    Saving { id: String },
    /// The new record is being written to the store.
    Persisting { recording: Recording },
    /// The engine is running.
    Transcribing { recording: Recording },
    /// The record with its transcript is being written to the store.
    Attaching { recording: Recording },
    /// The record is being submitted to the server.
    Submitting { recording: Recording },
    /// The store is marking the record as synced.
    Marking { recording: Recording },
    /// The pipeline ended with this status.
    Done { status: ProcessingStatus },
    /// The pipeline gave up.
    Aborted { why: String },
}

/// Mathematical value of a [`Pipeline`].
pub enum PipelineView {
    Idle,
    Saving { id: Seq<char> },
    Persisting { recording: RecordingView },
    Transcribing { recording: RecordingView },
    Attaching { recording: RecordingView },
    Submitting { recording: RecordingView },
    Marking { recording: RecordingView },
    Done { status: StatusView },
    Aborted { why: Seq<char> },
}

impl View for Pipeline {
    type V = PipelineView;

    open spec fn view(&self) -> PipelineView {
        match self {
            Pipeline::Idle => PipelineView::Idle,
            Pipeline::Saving { id } => PipelineView::Saving { id: id@ },
            Pipeline::Persisting { recording } => PipelineView::Persisting { recording: recording@ },
            Pipeline::Transcribing { recording } => PipelineView::Transcribing {
                recording: recording@,
            },
            Pipeline::Attaching { recording } => PipelineView::Attaching { recording: recording@ },
            Pipeline::Submitting { recording } => PipelineView::Submitting { recording: recording@ },
            Pipeline::Marking { recording } => PipelineView::Marking { recording: recording@ },
            Pipeline::Done { status } => PipelineView::Done { status: status@ },
            Pipeline::Aborted { why } => PipelineView::Aborted { why: why@ },
        }
    }
}

impl PipelineView {
    /// The stage that the state belongs to. A pipeline that gave up counts as
    /// in error.
    pub open spec fn stage(self) -> Stage {
        match self {
            PipelineView::Idle => Stage::Idle,
            PipelineView::Saving { .. } => Stage::Saving,
            PipelineView::Persisting { .. } => Stage::Saving,
            PipelineView::Transcribing { .. } => Stage::Transcribing,
            PipelineView::Attaching { .. } => Stage::Transcribing,
            PipelineView::Submitting { .. } => Stage::Syncing,
            PipelineView::Marking { .. } => Stage::Syncing,
            PipelineView::Done { .. } => Stage::Done,
            PipelineView::Aborted { .. } => Stage::Error,
        }
    }

    /// Whether the pipeline has ended, one way or the other.
    pub open spec fn ended(self) -> bool {
        self is Done || self is Aborted
    }
}

/// The status of a stage that is under way.
pub open spec fn spec_status(
    stage: Stage,
    message: Seq<char>,
    recording: Option<RecordingView>,
    synced: bool,
) -> StatusView {
    StatusView {
        stage,
        message,
        recording_id: match recording {
            Some(r) => Some(r.id),
            None => None,
        },
        transcript: match recording {
            Some(r) => r.transcript,
            None => None,
        },
        synced,
    }
}

/// The last status of a pipeline that ends with the record `r`.
pub open spec fn spec_done(r: RecordingView) -> StatusView {
    let message = if r.synced {
        "Done! Transcript synced to server."@
    } else if r.transcript is Some {
        "Done! Transcript saved locally (sync pending)."@
    } else {
        "Recording saved. Transcription failed."@
    };
    spec_status(Stage::Done, message, Some(r), r.synced)
}

/// The step that ends the pipeline with the record `r`, after the status
/// events `before`.
pub open spec fn spec_finish(before: Seq<StatusView>, r: RecordingView) -> (PipelineView, StepView) {
    (
        PipelineView::Done { status: spec_done(r) },
        StepView { emitted: before.push(spec_done(r)), action: ActionView::Finish(spec_done(r)) },
    )
}

/// The step that gives up.
pub open spec fn spec_abort(why: Seq<char>) -> (PipelineView, StepView) {
    (
        PipelineView::Aborted { why },
        StepView { emitted: Seq::empty(), action: ActionView::Abort(why) },
    )
}

/// The step on an event that the state does not wait for: nothing changes.
pub open spec fn spec_stay(state: PipelineView) -> (PipelineView, StepView) {
    (state, StepView { emitted: Seq::empty(), action: ActionView::Wait })
}

/// The text of the error status for a failed transcription.
pub open spec fn spec_transcription_failure(e: WhisperError) -> Seq<char> {
    "Transcription failed: "@ + e@.message()
}

/// The text of the error status where no engine is loaded.
pub open spec fn spec_engine_missing() -> Seq<char> {
    "Model not loaded. Please load the model in Settings."@
}

/// The transition of the pipeline: the next state and the step, for a state
/// and an event. `fresh_id` is the identifier that a new recording gets, `now`
/// the time that it is stamped with.
pub open spec fn spec_step(state: PipelineView, event: Event, fresh_id: Seq<char>, now: Seq<char>) -> (
    PipelineView,
    StepView,
) {
    match state {
        PipelineView::Idle => match event {
            Event::Stop => (
                PipelineView::Saving { id: fresh_id },
                StepView {
                    emitted: seq![spec_status(Stage::Saving, "Saving audio..."@, None, false)],
                    action: ActionView::SaveAudio {
                        id: fresh_id,
                        file_name: spec_audio_file_name(fresh_id),
                    },
                },
            ),
            _ => spec_stay(state),
        },
        PipelineView::Saving { id } => match event {
            Event::Saved { audio_path, samples, student_id } => {
                let recording = RecordingView {
                    id,
                    student_id: match student_id {
                        Some(s) => s@,
                        None => spec_unknown_student(),
                    },
                    audio_path: audio_path@,
                    transcript: None,
                    duration_samples: samples,
                    recorded_at: now,
                    synced: false,
                };
                (
                    PipelineView::Persisting { recording },
                    StepView { emitted: Seq::empty(), action: ActionView::Store(recording) },
                )
            },
            Event::Failed(why) => spec_abort(why@),
            _ => spec_stay(state),
        },
        PipelineView::Persisting { recording } => match event {
            Event::Stored => (
                PipelineView::Transcribing { recording },
                StepView {
                    emitted: seq![
                        spec_status(
                            Stage::Transcribing,
                            "Transcribing audio..."@,
                            Some(recording),
                            false,
                        ),
                    ],
                    action: ActionView::Transcribe { audio_path: recording.audio_path },
                },
            ),
            Event::Failed(why) => spec_abort(why@),
            _ => spec_stay(state),
        },
        PipelineView::Transcribing { recording } => match event {
            Event::Transcribed(text) => {
                let updated = RecordingView { transcript: Some(text@), ..recording };
                (
                    PipelineView::Attaching { recording: updated },
                    StepView { emitted: Seq::empty(), action: ActionView::Store(updated) },
                )
            },
            Event::TranscriptionFailed(e) => spec_finish(
                seq![
                    spec_status(Stage::Error, spec_transcription_failure(e), Some(recording), false),
                ],
                recording,
            ),
            Event::EngineMissing => spec_finish(
                seq![spec_status(Stage::Error, spec_engine_missing(), Some(recording), false)],
                recording,
            ),
            _ => spec_stay(state),
        },
        PipelineView::Attaching { recording } => match event {
            Event::Stored => (
                PipelineView::Submitting { recording },
                StepView {
                    emitted: seq![
                        spec_status(Stage::Syncing, "Syncing to server..."@, Some(recording), false),
                    ],
                    action: ActionView::Submit(recording),
                },
            ),
            Event::Failed(why) => spec_abort(why@),
            _ => spec_stay(state),
        },
        PipelineView::Submitting { recording } => match event {
            Event::Accepted => (
                PipelineView::Marking { recording },
                StepView {
                    emitted: Seq::empty(),
                    action: ActionView::MarkSynced { id: recording.id },
                },
            ),
            Event::Refused => spec_finish(Seq::empty(), recording),
            _ => spec_stay(state),
        },
        PipelineView::Marking { recording } => match event {
            Event::Stored => spec_finish(
                Seq::empty(),
                RecordingView { synced: true, ..recording },
            ),
            Event::Failed(why) => spec_abort(why@),
            _ => spec_stay(state),
        },
        PipelineView::Done { .. } => spec_stay(state),
        PipelineView::Aborted { .. } => spec_stay(state),
    }
}

fn status(stage: Stage, message: String, recording: Option<&Recording>, synced: bool) -> (s:
    ProcessingStatus)
    ensures
        s@ == spec_status(
            stage,
            message@,
            match recording {
                Some(r) => Some(r@),
                None => None,
            },
            synced,
        ),
{
    match recording {
        Some(r) => ProcessingStatus {
            stage,
            message,
            recording_id: Some(r.id.clone()),
            transcript: clone_text(&r.transcript),
            synced,
        },
        None => ProcessingStatus { stage, message, recording_id: None, transcript: None, synced },
    }
}

fn finish(before: Vec<ProcessingStatus>, recording: &Recording) -> (r: (Pipeline, Step))
    ensures
        (r.0@, r.1@) == spec_finish(before.deep_view(), recording@),
{
    let message = if recording.synced {
        String::from_str("Done! Transcript synced to server.")
    } else if recording.transcript.is_some() {
        String::from_str("Done! Transcript saved locally (sync pending).")
    } else {
        String::from_str("Recording saved. Transcription failed.")
    };
    let last = status(Stage::Done, message, Some(recording), recording.synced);
    let mut emitted = before;
    let ghost earlier = emitted.deep_view();
    emitted.push(last.clone());
    assert(emitted.deep_view() =~= earlier.push(last@));
    (Pipeline::Done { status: last.clone() }, Step { emitted, action: Action::Finish(last) })
}

fn abort(why: String) -> (r: (Pipeline, Step))
    ensures
        (r.0@, r.1@) == spec_abort(why@),
{
    let emitted: Vec<ProcessingStatus> = Vec::new();
    assert(emitted.deep_view() =~= Seq::empty());
    (Pipeline::Aborted { why: why.clone() }, Step { emitted, action: Action::Abort(why) })
}

fn stay(state: Pipeline) -> (r: (Pipeline, Step))
    ensures
        (r.0@, r.1@) == spec_stay(state@),
{
    let emitted: Vec<ProcessingStatus> = Vec::new();
    assert(emitted.deep_view() =~= Seq::empty());
    (state, Step { emitted, action: Action::Wait })
}

fn one(s: ProcessingStatus) -> (v: Vec<ProcessingStatus>)
    ensures
        v.deep_view() == seq![s@],
{
    let mut v: Vec<ProcessingStatus> = Vec::new();
    v.push(s);
    assert(v.deep_view() =~= seq![s@]);
    v
}

fn none() -> (v: Vec<ProcessingStatus>)
    ensures
        v.deep_view() == Seq::<StatusView>::empty(),
{
    let v: Vec<ProcessingStatus> = Vec::new();
    assert(v.deep_view() =~= Seq::<StatusView>::empty());
    v
}

impl Pipeline {
    /// A pipeline that waits for a capture to stop.
    pub fn new() -> (p: Pipeline)
        ensures
            p@ == PipelineView::Idle,
    {
        Pipeline::Idle
    }

    /// Whether the pipeline has ended, done or given up.
    pub fn has_ended(&self) -> (b: bool)
        ensures
            b == self@.ended(),
    {
        match self {
            Pipeline::Done { .. } => true,
            Pipeline::Aborted { .. } => true,
            _ => false,
        }
    }

    /// The transition for `event`, where a new recording gets the identifier
    /// `fresh_id` and the time stamp `now`.
    pub fn advance(self, event: Event, fresh_id: String, now: String) -> (r: (Pipeline, Step))
        ensures
            (r.0@, r.1@) == spec_step(self@, event, fresh_id@, now@),
    {
        match self {
            Pipeline::Idle => match event {
                Event::Stop => {
                    let first = status(
                        Stage::Saving,
                        String::from_str("Saving audio..."),
                        None,
                        false,
                    );
                    let file_name = audio_file_name(fresh_id.as_str());
                    (
                        Pipeline::Saving { id: fresh_id.clone() },
                        Step {
                            emitted: one(first),
                            action: Action::SaveAudio { id: fresh_id, file_name },
                        },
                    )
                },
                _ => stay(Pipeline::Idle),
            },
            Pipeline::Saving { id } => match event {
                Event::Saved { audio_path, samples, student_id } => {
                    let recording = Recording::captured(id, student_id, audio_path, samples, now);
                    (
                        Pipeline::Persisting { recording: recording.clone() },
                        Step { emitted: none(), action: Action::Store(recording) },
                    )
                },
                Event::Failed(why) => abort(why),
                _ => stay(Pipeline::Saving { id }),
            },
            Pipeline::Persisting { recording } => match event {
                Event::Stored => {
                    let next = status(
                        Stage::Transcribing,
                        String::from_str("Transcribing audio..."),
                        Some(&recording),
                        false,
                    );
                    let audio_path = recording.audio_path.clone();
                    (
                        Pipeline::Transcribing { recording },
                        Step { emitted: one(next), action: Action::Transcribe { audio_path } },
                    )
                },
                Event::Failed(why) => abort(why),
                _ => stay(Pipeline::Persisting { recording }),
            },
            Pipeline::Transcribing { recording } => match event {
                Event::Transcribed(text) => {
                    let updated = recording.with_transcript(text);
                    (
                        Pipeline::Attaching { recording: updated.clone() },
                        Step { emitted: none(), action: Action::Store(updated) },
                    )
                },
                Event::TranscriptionFailed(e) => {
                    let mut message = String::from_str("Transcription failed: ");
                    message.append(e.message().as_str());
                    let error = status(Stage::Error, message, Some(&recording), false);
                    finish(one(error), &recording)
                },
                Event::EngineMissing => {
                    let error = status(
                        Stage::Error,
                        String::from_str("Model not loaded. Please load the model in Settings."),
                        Some(&recording),
                        false,
                    );
                    finish(one(error), &recording)
                },
                _ => stay(Pipeline::Transcribing { recording }),
            },
            Pipeline::Attaching { recording } => match event {
                Event::Stored => {
                    let next = status(
                        Stage::Syncing,
                        String::from_str("Syncing to server..."),
                        Some(&recording),
                        false,
                    );
                    (
                        Pipeline::Submitting { recording: recording.clone() },
                        Step { emitted: one(next), action: Action::Submit(recording) },
                    )
                },
                Event::Failed(why) => abort(why),
                _ => stay(Pipeline::Attaching { recording }),
            },
            Pipeline::Submitting { recording } => match event {
                Event::Accepted => {
                    let id = recording.id.clone();
                    (
                        Pipeline::Marking { recording },
                        Step { emitted: none(), action: Action::MarkSynced { id } },
                    )
                },
                Event::Refused => finish(none(), &recording),
                _ => stay(Pipeline::Submitting { recording }),
            },
            Pipeline::Marking { recording } => match event {
                Event::Stored => {
                    let mut synced = recording;
                    synced.synced = true;
                    finish(none(), &synced)
                },
                Event::Failed(why) => abort(why),
                _ => stay(Pipeline::Marking { recording }),
            },
            Pipeline::Done { status } => stay(Pipeline::Done { status }),
            Pipeline::Aborted { why } => stay(Pipeline::Aborted { why }),
        }
    }

    /// The transition for `event`. A capture that stops gets a fresh
    /// identifier, and its record the current time: whatever these are, the
    /// step is the one that [`spec_step`] gives for them.
    pub fn step(self, event: Event) -> (r: (Pipeline, Step))
        ensures
            exists|fresh_id: Seq<char>, now: Seq<char>|
                fresh_id.len() == 36 && (r.0@, r.1@) == #[trigger] spec_step(
                    self@,
                    event,
                    fresh_id,
                    now,
                ),
    {
        let stops = match (&self, &event) {
            (Pipeline::Idle, Event::Stop) => true,
            _ => false,
        };
        let saved = match (&self, &event) {
            (Pipeline::Saving { .. }, Event::Saved { .. }) => true,
            _ => false,
        };
        if stops {
            let fresh_id = fresh_uuid();
            self.advance(event, fresh_id, String::new())
        } else if saved {
            let now = utc_timestamp();
            let ghost any_id = Seq::new(36, |i: int| '0');
            assert(spec_step(self@, event, Seq::empty(), now@) == spec_step(
                self@,
                event,
                any_id,
                now@,
            ));
            self.advance(event, String::new(), now)
        } else {
            let ghost any_id = Seq::new(36, |i: int| '0');
            assert(spec_step(self@, event, Seq::empty(), Seq::empty()) == spec_step(
                self@,
                event,
                any_id,
                Seq::empty(),
            ));
            self.advance(event, String::new(), String::new())
        }
    }
}

/// The state after `events`, one after the other, from `state`.
pub open spec fn spec_run(
    state: PipelineView,
    events: Seq<Event>,
    fresh_id: Seq<char>,
    now: Seq<char>,
) -> PipelineView
    decreases events.len(),
{
    if events.len() == 0 {
        state
    } else {
        spec_step(spec_run(state, events.drop_last(), fresh_id, now), events.last(), fresh_id, now).0
    }
}

/// The status events that `events` bring about from `state`, in order.
pub open spec fn spec_trace(
    state: PipelineView,
    events: Seq<Event>,
    fresh_id: Seq<char>,
    now: Seq<char>,
) -> Seq<StatusView>
    decreases events.len(),
{
    if events.len() == 0 {
        Seq::empty()
    } else {
        spec_trace(state, events.drop_last(), fresh_id, now) + spec_step(
            spec_run(state, events.drop_last(), fresh_id, now),
            events.last(),
            fresh_id,
            now,
        ).1.emitted
    }
}

/// What holds of every state that a pipeline reaches from `Idle`: a record
/// has a transcript exactly from the moment one was attached, it is marked
/// synced only in the last status, and a last status is a `done` status.
pub open spec fn spec_consistent(state: PipelineView) -> bool {
    match state {
        PipelineView::Idle => true,
        PipelineView::Saving { .. } => true,
        PipelineView::Persisting { recording } => recording.transcript is None
            && !recording.synced,
        PipelineView::Transcribing { recording } => recording.transcript is None
            && !recording.synced,
        PipelineView::Attaching { recording } => recording.transcript is Some
            && !recording.synced,
        PipelineView::Submitting { recording } => recording.transcript is Some
            && !recording.synced,
        PipelineView::Marking { recording } => recording.transcript is Some && !recording.synced,
        PipelineView::Done { status } => {
            &&& status.stage == Stage::Done
            &&& status.recording_id is Some
            &&& status.synced ==> status.transcript is Some
        },
        PipelineView::Aborted { .. } => true,
    }
}

/// No step goes back: the stage of the next state is the stage of the state
/// or a later one, and a pipeline that has ended stays as it is.
pub proof fn lemma_step_moves_forward(
    state: PipelineView,
    event: Event,
    fresh_id: Seq<char>,
    now: Seq<char>,
)
    ensures
        state.stage().spec_order() <= spec_step(state, event, fresh_id, now).0.stage().spec_order(),
        state.ended() ==> spec_step(state, event, fresh_id, now) == spec_stay(state),
{
}

/// A step keeps what holds of every reachable state, and its statuses tell
/// the truth about it: every status but the last reports `synced` as false,
/// and the action `Finish` carries the last status, which is the state's.
pub proof fn lemma_step_keeps_consistent(
    state: PipelineView,
    event: Event,
    fresh_id: Seq<char>,
    now: Seq<char>,
)
    requires
        spec_consistent(state),
    ensures
        spec_consistent(spec_step(state, event, fresh_id, now).0),
        spec_step(state, event, fresh_id, now).1.action matches ActionView::Finish(last) ==> {
            let next = spec_step(state, event, fresh_id, now);
            &&& next.0 == (PipelineView::Done { status: last })
            &&& next.1.emitted.len() > 0
            &&& next.1.emitted.last() == last
            &&& last.stage == Stage::Done
            &&& last.synced ==> last.transcript is Some
        },
        forall|k: int|
            0 <= k < spec_step(state, event, fresh_id, now).1.emitted.len() - 1 ==> !(
            #[trigger] spec_step(state, event, fresh_id, now).1.emitted[k]).synced,
{
}

/// Progress is visible in the events: a step that brings the pipeline to
/// another stage reports that stage in its last status, unless it gives up.
/// No status reports `idle`, and a status that is not an `error` reports the
/// stage that the pipeline is in after the step.
pub proof fn lemma_stage_change_is_reported(
    state: PipelineView,
    event: Event,
    fresh_id: Seq<char>,
    now: Seq<char>,
)
    ensures
        ({
            let next = spec_step(state, event, fresh_id, now);
            &&& next.0.stage() != state.stage() && !(next.0 is Aborted) ==> next.1.emitted.len() > 0
                && next.1.emitted.last().stage == next.0.stage()
            &&& forall|k: int|
                0 <= k < next.1.emitted.len() ==> (#[trigger] next.1.emitted[k]).stage
                    != Stage::Idle && (next.1.emitted[k].stage == Stage::Error
                    || next.1.emitted[k].stage == next.0.stage())
        }),
{
}

/// The pipeline gives up only where writing the audio or the store failed:
/// neither the engine nor the server can keep it from ending in `done`.
pub proof fn lemma_abort_only_on_failure(
    state: PipelineView,
    event: Event,
    fresh_id: Seq<char>,
    now: Seq<char>,
)
    requires
        !(state is Aborted),
        spec_step(state, event, fresh_id, now).0 is Aborted,
    ensures
        event is Failed,
{
}

/// Every run from `Idle` moves forward only and ends up in a state that is
/// consistent.
pub proof fn lemma_run_consistent(events: Seq<Event>, fresh_id: Seq<char>, now: Seq<char>)
    ensures
        spec_consistent(spec_run(PipelineView::Idle, events, fresh_id, now)),
    decreases events.len(),
{
    if events.len() > 0 {
        lemma_run_consistent(events.drop_last(), fresh_id, now);
        lemma_step_keeps_consistent(
            spec_run(PipelineView::Idle, events.drop_last(), fresh_id, now),
            events.last(),
            fresh_id,
            now,
        );
    }
}

/// The events of a capture that is saved and stored, up to the engine's run.
pub open spec fn spec_saved_run(audio_path: String, samples: u64, student_id: Option<String>) -> Seq<
    Event,
> {
    seq![Event::Stop, Event::Saved { audio_path, samples, student_id }, Event::Stored]
}

/// The record of a capture that was saved under `fresh_id` at `now`.
pub open spec fn spec_saved_record(
    audio_path: String,
    samples: u64,
    student_id: Option<String>,
    fresh_id: Seq<char>,
    now: Seq<char>,
) -> RecordingView {
    RecordingView {
        id: fresh_id,
        student_id: match student_id {
            Some(s) => s@,
            None => spec_unknown_student(),
        },
        audio_path: audio_path@,
        transcript: None,
        duration_samples: samples,
        recorded_at: now,
        synced: false,
    }
}

/// A capture that is saved and stored reaches the engine: the pipeline then
/// is transcribing, and has reported `saving` and `transcribing`.
pub proof fn lemma_saved_run(
    audio_path: String,
    samples: u64,
    student_id: Option<String>,
    fresh_id: Seq<char>,
    now: Seq<char>,
)
    ensures
        spec_run(
            PipelineView::Idle,
            spec_saved_run(audio_path, samples, student_id),
            fresh_id,
            now,
        ) == (PipelineView::Transcribing {
            recording: spec_saved_record(audio_path, samples, student_id, fresh_id, now),
        }),
        spec_trace(
            PipelineView::Idle,
            spec_saved_run(audio_path, samples, student_id),
            fresh_id,
            now,
        ) == seq![
            spec_status(Stage::Saving, "Saving audio..."@, None, false),
            spec_status(
                Stage::Transcribing,
                "Transcribing audio..."@,
                Some(spec_saved_record(audio_path, samples, student_id, fresh_id, now)),
                false,
            ),
        ],
{
    let e = spec_saved_run(audio_path, samples, student_id);
    let e2 = e.drop_last();
    let e1 = e2.drop_last();
    let e0 = e1.drop_last();
    assert(e0.len() == 0);
    assert(e1.last() == e[0] && e2.last() == e[1] && e.last() == e[2]);
    assert(spec_run(PipelineView::Idle, e0, fresh_id, now) == PipelineView::Idle);
    assert(spec_run(PipelineView::Idle, e1, fresh_id, now) == (PipelineView::Saving {
        id: fresh_id,
    }));
    assert(spec_trace(PipelineView::Idle, e0, fresh_id, now).len() == 0);
    let t1 = spec_trace(PipelineView::Idle, e1, fresh_id, now);
    assert(t1 =~= seq![spec_status(Stage::Saving, "Saving audio..."@, None, false)]);
    assert(spec_trace(PipelineView::Idle, e2, fresh_id, now) =~= t1);
    assert(spec_trace(PipelineView::Idle, e, fresh_id, now) =~= seq![
        spec_status(Stage::Saving, "Saving audio..."@, None, false),
        spec_status(
            Stage::Transcribing,
            "Transcribing audio..."@,
            Some(spec_saved_record(audio_path, samples, student_id, fresh_id, now)),
            false,
        ),
    ]);
}

/// Where the engine fails, or none is loaded, the pipeline still ends in
/// `done`: it reports `saving`, `transcribing`, `error` and `done`, and the
/// last status carries the recording's identifier, no transcript, and
/// `synced` as false. Nothing is submitted.
pub proof fn lemma_failed_transcription_ends_done(
    audio_path: String,
    samples: u64,
    student_id: Option<String>,
    failure: Event,
    fresh_id: Seq<char>,
    now: Seq<char>,
)
    requires
        failure is TranscriptionFailed || failure is EngineMissing,
    ensures
        ({
            let events = spec_saved_run(audio_path, samples, student_id).push(failure);
            let trace = spec_trace(PipelineView::Idle, events, fresh_id, now);
            let last = spec_step(
                spec_run(PipelineView::Idle, events.drop_last(), fresh_id, now),
                failure,
                fresh_id,
                now,
            );
            &&& trace.len() == 4
            &&& trace[0].stage == Stage::Saving
            &&& trace[1].stage == Stage::Transcribing
            &&& trace[2].stage == Stage::Error
            &&& trace[3].stage == Stage::Done
            &&& trace[3].recording_id == Some(fresh_id)
            &&& trace[3].transcript is None
            &&& !trace[3].synced
            &&& last.1.action == ActionView::Finish(trace[3])
            &&& spec_run(PipelineView::Idle, events, fresh_id, now) == (PipelineView::Done {
                status: trace[3],
            })
        }),
{
    let saved = spec_saved_run(audio_path, samples, student_id);
    let events = saved.push(failure);
    lemma_saved_run(audio_path, samples, student_id, fresh_id, now);
    assert(events.drop_last() =~= saved);
    assert(events.last() == failure);
}

/// Where the server refuses a transcript, or cannot be reached, the pipeline
/// ends in `done` with the transcript and with `synced` as false: it reports
/// `saving`, `transcribing`, `syncing` and `done`, and no `error`.
pub proof fn lemma_refused_submission_keeps_transcript(
    audio_path: String,
    samples: u64,
    student_id: Option<String>,
    text: String,
    fresh_id: Seq<char>,
    now: Seq<char>,
)
    ensures
        ({
            let events = spec_saved_run(audio_path, samples, student_id).push(
                Event::Transcribed(text),
            ).push(Event::Stored).push(Event::Refused);
            let trace = spec_trace(PipelineView::Idle, events, fresh_id, now);
            &&& trace.len() == 4
            &&& trace[0].stage == Stage::Saving
            &&& trace[1].stage == Stage::Transcribing
            &&& trace[2].stage == Stage::Syncing
            &&& trace[2].transcript == Some(text@)
            &&& trace[3].stage == Stage::Done
            &&& trace[3].recording_id == Some(fresh_id)
            &&& trace[3].transcript == Some(text@)
            &&& !trace[3].synced
            &&& spec_run(PipelineView::Idle, events, fresh_id, now) == (PipelineView::Done {
                status: trace[3],
            })
        }),
{
    let saved = spec_saved_run(audio_path, samples, student_id);
    let e4 = saved.push(Event::Transcribed(text));
    let e5 = e4.push(Event::Stored);
    let e6 = e5.push(Event::Refused);
    lemma_saved_run(audio_path, samples, student_id, fresh_id, now);
    assert(e4.drop_last() =~= saved && e5.drop_last() =~= e4 && e6.drop_last() =~= e5);
    assert(e4.last() == Event::Transcribed(text));
    assert(e5.last() == Event::Stored);
    assert(e6.last() == Event::Refused);
    assert(spec_trace(PipelineView::Idle, e4, fresh_id, now).len() == 2);
    assert(spec_trace(PipelineView::Idle, e5, fresh_id, now).len() == 3);
}

/// Where the server accepts the transcript and the store marks the record,
/// the pipeline ends in `done` with the transcript and with `synced` as true.
pub proof fn lemma_accepted_submission_is_synced(
    audio_path: String,
    samples: u64,
    student_id: Option<String>,
    text: String,
    fresh_id: Seq<char>,
    now: Seq<char>,
)
    ensures
        ({
            let events = spec_saved_run(audio_path, samples, student_id).push(
                Event::Transcribed(text),
            ).push(Event::Stored).push(Event::Accepted).push(Event::Stored);
            let trace = spec_trace(PipelineView::Idle, events, fresh_id, now);
            &&& trace.len() == 4
            &&& trace[2].stage == Stage::Syncing
            &&& trace[3].stage == Stage::Done
            &&& trace[3].recording_id == Some(fresh_id)
            &&& trace[3].transcript == Some(text@)
            &&& trace[3].synced
            &&& spec_run(PipelineView::Idle, events, fresh_id, now) == (PipelineView::Done {
                status: trace[3],
            })
        }),
{
    let saved = spec_saved_run(audio_path, samples, student_id);
    let e4 = saved.push(Event::Transcribed(text));
    let e5 = e4.push(Event::Stored);
    let e6 = e5.push(Event::Accepted);
    let e7 = e6.push(Event::Stored);
    lemma_saved_run(audio_path, samples, student_id, fresh_id, now);
    assert(e4.drop_last() =~= saved && e5.drop_last() =~= e4 && e6.drop_last() =~= e5
        && e7.drop_last() =~= e6);
    assert(e4.last() == Event::Transcribed(text));
    assert(e5.last() == Event::Stored);
    assert(e6.last() == Event::Accepted);
    assert(e7.last() == Event::Stored);
    assert(spec_trace(PipelineView::Idle, e4, fresh_id, now).len() == 2);
    assert(spec_trace(PipelineView::Idle, e5, fresh_id, now).len() == 3);
    assert(spec_trace(PipelineView::Idle, e6, fresh_id, now).len() == 3);
}

} // verus!
