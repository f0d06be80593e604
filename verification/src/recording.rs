//! The durable record of one capture.

use vstd::prelude::*;
use vstd::string::*;

verus! {

/// The student identifier of a capture made before setup gave one.
pub open spec fn spec_unknown_student() -> Seq<char> {
    "unknown"@
}

/// One captured recording, as the store keeps it.
#[derive(Debug)]
pub struct Recording {
    /// Unique identifier, made when the capture stops.
    pub id: String,
    /// Who was recorded.
    pub student_id: String,
    /// Where the audio file lies.
    pub audio_path: String,
    /// The transcript, once there is one.
    pub transcript: Option<String>,
    /// Length of the audio in samples at the canonical rate of 16 kHz: the
    /// duration in seconds is this number over 16000.
    pub duration_samples: u64,
    /// When the capture stopped, as an RFC 3339 timestamp.
    pub recorded_at: String,
    /// Whether the server has acknowledged the transcript.
    pub synced: bool,
}

/// Mathematical value of a [`Recording`].
pub struct RecordingView {
    pub id: Seq<char>,
    pub student_id: Seq<char>,
    pub audio_path: Seq<char>,
    pub transcript: Option<Seq<char>>,
    pub duration_samples: u64,
    pub recorded_at: Seq<char>,
    pub synced: bool,
}

/// Mathematical value of an optional text.
pub open spec fn spec_text(t: Option<String>) -> Option<Seq<char>> {
    match t {
        Some(s) => Some(s@),
        None => None,
    }
}

impl View for Recording {
    type V = RecordingView;

    open spec fn view(&self) -> RecordingView {
        RecordingView {
            id: self.id@,
            student_id: self.student_id@,
            audio_path: self.audio_path@,
            transcript: spec_text(self.transcript),
            duration_samples: self.duration_samples,
            recorded_at: self.recorded_at@,
            synced: self.synced,
        }
    }
}

impl DeepView for Recording {
    type V = RecordingView;

    open spec fn deep_view(&self) -> RecordingView {
        self@
    }
}

/// A copy of an optional text.
pub fn clone_text(t: &Option<String>) -> (r: Option<String>)
    ensures
        r == *t,
{
    match t {
        Some(s) => Some(s.clone()),
        None => None,
    }
}

impl Clone for Recording {
    fn clone(&self) -> (r: Self)
        ensures
            r == *self,
    {
        Recording {
            id: self.id.clone(),
            student_id: self.student_id.clone(),
            audio_path: self.audio_path.clone(),
            transcript: clone_text(&self.transcript),
            duration_samples: self.duration_samples,
            recorded_at: self.recorded_at.clone(),
            synced: self.synced,
        }
    }
}

/// A fresh identifier for a recording.
///
/// Calls `uuid::Uuid::new_v4` and writes the identifier with its `Display`
/// impl, which gives the hyphenated lower-case form: always 36 characters.
/// Which identifier comes back is left open: it is random. `new_v4` panics
/// where the operating system hands out no random bytes.
#[verifier::external_body]
pub(crate) fn fresh_uuid() -> (id: String)
    ensures
        id@.len() == 36,
{
    uuid::Uuid::new_v4().to_string()
}

/// The current time as an RFC 3339 timestamp in UTC.
///
/// Calls `chrono::Utc::now` and `DateTime::to_rfc3339`. Nothing is claimed of
/// the text: it depends on the clock. `Utc::now` panics where the system's
/// clock stands before 1970.
#[verifier::external_body]
pub(crate) fn utc_timestamp() -> (now: String) {
    chrono::Utc::now().to_rfc3339()
}

/// Name of the audio file of the recording `id`.
pub open spec fn spec_audio_file_name(id: Seq<char>) -> Seq<char> {
    id + ".wav"@
}

/// Name of the audio file of the recording `id`, inside the audio directory.
pub fn audio_file_name(id: &str) -> (name: String)
    ensures
        name@ == spec_audio_file_name(id@),
{
    let mut name = String::from_str(id);
    name.append(".wav");
    name
}

impl Recording {
    /// The record of a capture that was just written: without a transcript,
    /// not synced, and under `unknown` where no student is set up.
    pub fn captured(
        id: String,
        student_id: Option<String>,
        audio_path: String,
        samples: u64,
        recorded_at: String,
    ) -> (r: Recording)
        ensures
            r@ == (RecordingView {
                id: id@,
                student_id: match student_id {
                    Some(s) => s@,
                    None => spec_unknown_student(),
                },
                audio_path: audio_path@,
                transcript: None,
                duration_samples: samples,
                recorded_at: recorded_at@,
                synced: false,
            }),
    {
        let student_id = match student_id {
            Some(s) => s,
            None => String::from_str("unknown"),
        };
        Recording {
            id,
            student_id,
            audio_path,
            transcript: None,
            duration_samples: samples,
            recorded_at,
            synced: false,
        }
    }

    /// The same record with `transcript` attached.
    pub fn with_transcript(&self, transcript: String) -> (r: Recording)
        ensures
            r@ == (RecordingView { transcript: Some(transcript@), ..self@ }),
    {
        let mut r = self.clone();
        r.transcript = Some(transcript);
        r
    }
}

/// Position of the first record from `k` on whose identifier is `id`.
pub open spec fn spec_position_from(records: Seq<RecordingView>, id: Seq<char>, k: int) -> Option<
    int,
>
    decreases records.len() - k,
{
    if k < 0 || k >= records.len() {
        None
    } else if records[k].id == id {
        Some(k)
    } else {
        spec_position_from(records, id, k + 1)
    }
}

/// Position of the first record whose identifier is `id`.
pub open spec fn spec_position(records: Seq<RecordingView>, id: Seq<char>) -> Option<int> {
    spec_position_from(records, id, 0)
}

/// Where `spec_position` finds a record, it carries the identifier and no
/// earlier record does; where it finds none, no record carries it.
pub proof fn lemma_position(records: Seq<RecordingView>, id: Seq<char>, k: int)
    requires
        0 <= k <= records.len(),
    ensures
        match spec_position_from(records, id, k) {
            Some(p) => k <= p < records.len() && records[p].id == id && forall|j: int|
                k <= j < p ==> records[j].id != id,
            None => forall|j: int| k <= j < records.len() ==> records[j].id != id,
        },
    decreases records.len() - k,
{
    if k < records.len() && records[k].id != id {
        lemma_position(records, id, k + 1);
    }
}

/// Position of the first record whose identifier is `id`.
pub fn find_recording(records: &Vec<Recording>, id: &str) -> (r: Option<usize>)
    ensures
        match r {
            Some(p) => spec_position(records.deep_view(), id@) == Some(p as int) && p
                < records.len(),
            None => spec_position(records.deep_view(), id@) is None,
        },
{
    let ghost all = records.deep_view();
    let wanted = String::from_str(id);
    let mut k: usize = 0;
    while k < records.len()
        invariant
            k <= records.len(),
            all == records.deep_view(),
            wanted@ == id@,
            spec_position(all, id@) == spec_position_from(all, id@, k as int),
        decreases records.len() - k,
    {
        assert(all[k as int].id == records[k as int].id@);
        if records[k].id == wanted {
            return Some(k);
        }
        k += 1;
    }
    None
}

/// What deleting a recording asks for: the audio file to remove, where the
/// store lists the recording. The row is deleted either way, so deleting an
/// identifier that the store does not list changes nothing and fails nothing.
pub fn audio_file_of(records: &Vec<Recording>, id: &str) -> (file: Option<String>)
    ensures
        match spec_position(records.deep_view(), id@) {
            Some(p) => spec_text(file) == Some(records.deep_view()[p].audio_path),
            None => file is None,
        },
{
    match find_recording(records, id) {
        Some(p) => {
            assert(records.deep_view()[p as int].audio_path == records[p as int].audio_path@);
            Some(records[p].audio_path.clone())
        },
        None => None,
    }
}

} // verus!
