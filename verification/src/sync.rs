//! Handing finished transcripts to the collection server.
//!
//! The requests themselves are made by the caller. This module settles where
//! they go, what they carry, how an answer is judged, and how the outcomes of
//! a bulk run add up.

use crate::recording::{spec_text, Recording, RecordingView};
use crate::text::chars_of;
use vstd::prelude::*;
use vstd::string::*;

verus! {

/// Why a transcript was not accepted.
#[derive(Debug)]
pub enum SyncError {
    /// No usable answer came back; the text says why.
    NetworkError(String),
    /// The server answered and refused.
    ServerError(String),
}

/// Mathematical value of a [`SyncError`].
pub enum SyncErrorView {
    NetworkError(Seq<char>),
    ServerError(Seq<char>),
}

impl View for SyncError {
    type V = SyncErrorView;

    open spec fn view(&self) -> SyncErrorView {
        match self {
            SyncError::NetworkError(m) => SyncErrorView::NetworkError(m@),
            SyncError::ServerError(m) => SyncErrorView::ServerError(m@),
        }
    }
}

impl SyncErrorView {
    /// The text shown for the error.
    pub open spec fn message(self) -> Seq<char> {
        match self {
            SyncErrorView::NetworkError(m) => "Network error: "@ + m,
            SyncErrorView::ServerError(m) => "Server returned error: "@ + m,
        }
    }
}

impl SyncError {
    /// The text shown for the error.
    pub fn message(&self) -> (s: String)
        ensures
            s@ == self@.message(),
    {
        match self {
            SyncError::NetworkError(m) => {
                let mut s = String::from_str("Network error: ");
                s.append(m.as_str());
                s
            },
            SyncError::ServerError(m) => {
                let mut s = String::from_str("Server returned error: ");
                s.append(m.as_str());
                s
            },
        }
    }
}

/// What is sent for one recording.
#[derive(Debug)]
pub struct SubmitTranscript {
    pub student_id: String,
    pub device_type: String,
    /// Length of the audio in samples at 16 kHz; sent as seconds.
    pub audio_duration_samples: u64,
    pub transcript: String,
    pub recorded_at: String,
    pub client_id: String,
}

/// Mathematical value of a [`SubmitTranscript`].
pub struct SubmitTranscriptView {
    pub student_id: Seq<char>,
    pub device_type: Seq<char>,
    pub audio_duration_samples: u64,
    pub transcript: Seq<char>,
    pub recorded_at: Seq<char>,
    pub client_id: Seq<char>,
}

impl View for SubmitTranscript {
    type V = SubmitTranscriptView;

    open spec fn view(&self) -> SubmitTranscriptView {
        SubmitTranscriptView {
            student_id: self.student_id@,
            device_type: self.device_type@,
            audio_duration_samples: self.audio_duration_samples,
            transcript: self.transcript@,
            recorded_at: self.recorded_at@,
            client_id: self.client_id@,
        }
    }
}

/// The body of the server's answer to a submission.
#[derive(Debug)]
pub struct SubmitResponse {
    pub success: bool,
    pub id: Option<i64>,
    pub error: Option<String>,
}

/// What came back for one request.
#[derive(Debug)]
pub enum Reply {
    /// The request failed in transit, or the answer could not be decoded.
    Failed(String),
    /// An answer with its HTTP status and decoded body.
    Answered { status: u16, body: SubmitResponse },
}

/// Whether an HTTP status reports success.
pub open spec fn spec_is_success(status: u16) -> bool {
    200 <= status < 300
}

/// The payload for `r`. A recording without a transcript is sent with an
/// empty one.
pub open spec fn spec_payload(r: RecordingView) -> SubmitTranscriptView {
    SubmitTranscriptView {
        student_id: r.student_id,
        device_type: "desktop"@,
        audio_duration_samples: r.duration_samples,
        transcript: match r.transcript {
            Some(t) => t,
            None => Seq::empty(),
        },
        recorded_at: r.recorded_at,
        client_id: r.id,
    }
}

/// How a reply is judged: accepted only with a success status and the
/// body's success flag; a refusal names the server's reason where it gave one.
pub open spec fn spec_judge(reply: Reply) -> Result<(), SyncErrorView> {
    match reply {
        Reply::Failed(why) => Err(SyncErrorView::NetworkError(why@)),
        Reply::Answered { status, body } => if spec_is_success(status) && body.success {
            Ok(())
        } else {
            Err(
                SyncErrorView::ServerError(
                    match body.error {
                        Some(e) => e@,
                        None => "Unknown error"@,
                    },
                ),
            )
        },
    }
}

/// `url` without the slashes at its end.
pub open spec fn spec_trim_slashes(url: Seq<char>) -> Seq<char>
    decreases url.len(),
{
    if url.len() > 0 && url.last() == '/' {
        spec_trim_slashes(url.drop_last())
    } else {
        url
    }
}

/// A trimmed address is a prefix of the address, does not end in a slash,
/// and only slashes were cut.
pub proof fn lemma_trim_slashes(url: Seq<char>)
    ensures
        spec_trim_slashes(url).len() <= url.len(),
        spec_trim_slashes(url) == url.take(spec_trim_slashes(url).len() as int),
        spec_trim_slashes(url).len() > 0 ==> spec_trim_slashes(url).last() != '/',
        forall|i: int| spec_trim_slashes(url).len() <= i < url.len() ==> url[i] == '/',
    decreases url.len(),
{
    if url.len() > 0 && url.last() == '/' {
        let shorter = url.drop_last();
        lemma_trim_slashes(shorter);
        let t = spec_trim_slashes(url);
        assert(t =~= url.take(t.len() as int));
        assert forall|i: int| t.len() <= i < url.len() implies url[i] == '/' by {
            if i < shorter.len() {
                assert(shorter[i] == url[i]);
            }
        }
    } else {
        assert(url =~= url.take(url.len() as int));
    }
}

/// The address of the collection server.
#[derive(Debug)]
pub struct SyncClient {
    server_url: String,
}

impl View for SyncClient {
    type V = Seq<char>;

    /// The server's address, without a slash at its end.
    closed spec fn view(&self) -> Seq<char> {
        self.server_url@
    }
}

impl SyncClient {
    /// A client for the server at `server_url`; slashes at the end of the
    /// address are dropped.
    pub fn new(server_url: &str) -> (c: SyncClient)
        ensures
            c@ == spec_trim_slashes(server_url@),
    {
        let chars = chars_of(server_url);
        let mut end: usize = chars.len();
        assert(server_url@.take(end as int) =~= server_url@);
        while end > 0 && chars[end - 1] == '/'
            invariant
                end <= chars.len(),
                chars@ == server_url@,
                spec_trim_slashes(server_url@) == spec_trim_slashes(server_url@.take(end as int)),
            decreases end,
        {
            assert(server_url@.take(end as int).drop_last() =~= server_url@.take(end - 1));
            end -= 1;
        }
        assert(server_url@.take(end as int) =~= server_url@.subrange(0, end as int));
        SyncClient { server_url: String::from_str(server_url.substring_char(0, end)) }
    }

    /// The server's address.
    pub fn server_url(&self) -> (url: &String)
        ensures
            url@ == self@,
    {
        &self.server_url
    }

    /// Where the health probe goes.
    pub fn health_url(&self) -> (url: String)
        ensures
            url@ == self@ + "/api/health"@,
    {
        let mut url = self.server_url.clone();
        url.append("/api/health");
        url
    }

    /// Where transcripts are submitted.
    pub fn transcripts_url(&self) -> (url: String)
        ensures
            url@ == self@ + "/api/transcripts"@,
    {
        let mut url = self.server_url.clone();
        url.append("/api/transcripts");
        url
    }

    /// Whether the server is reachable, from the status of the health probe:
    /// any success status is healthy, no answer is not.
    pub fn check_connection(&self, probe: Option<u16>) -> (healthy: bool)
        ensures
            healthy == match probe {
                Some(status) => spec_is_success(status),
                None => false,
            },
    {
        match probe {
            Some(status) => 200 <= status && status < 300,
            None => false,
        }
    }

    /// What is sent for `recording`.
    pub fn payload(&self, recording: &Recording) -> (p: SubmitTranscript)
        ensures
            p@ == spec_payload(recording@),
    {
        let transcript = match &recording.transcript {
            Some(t) => t.clone(),
            None => String::new(),
        };
        SubmitTranscript {
            student_id: recording.student_id.clone(),
            device_type: String::from_str("desktop"),
            audio_duration_samples: recording.duration_samples,
            transcript,
            recorded_at: recording.recorded_at.clone(),
            client_id: recording.id.clone(),
        }
    }

    /// Judges the reply to a submission. Nothing is retried here: a failure is
    /// reported and the caller decides.
    pub fn submit_transcript(&self, reply: Reply) -> (r: Result<(), SyncError>)
        ensures
            match r {
                Ok(()) => spec_judge(reply) == Ok::<(), SyncErrorView>(()),
                Err(e) => spec_judge(reply) == Err::<(), SyncErrorView>(e@),
            },
    {
        match reply {
            Reply::Failed(why) => Err(SyncError::NetworkError(why)),
            Reply::Answered { status, body } => {
                if 200 <= status && status < 300 && body.success {
                    Ok(())
                } else {
                    let reason = match body.error {
                        Some(e) => e,
                        None => String::from_str("Unknown error"),
                    };
                    Err(SyncError::ServerError(reason))
                }
            },
        }
    }
}

/// What a bulk run reports.
#[derive(Debug)]
pub struct SyncResult {
    /// How many transcripts the server accepted.
    pub synced_count: usize,
    /// How many it did not.
    pub failed_count: usize,
    /// One line for each failure, in the order of the recordings.
    pub errors: Vec<String>,
}

/// Mathematical value of a [`SyncResult`].
pub struct SyncResultView {
    pub synced_count: nat,
    pub failed_count: nat,
    pub errors: Seq<Seq<char>>,
}

impl View for SyncResult {
    type V = SyncResultView;

    open spec fn view(&self) -> SyncResultView {
        SyncResultView {
            synced_count: self.synced_count as nat,
            failed_count: self.failed_count as nat,
            errors: self.errors.deep_view(),
        }
    }
}

/// Mathematical value of the outcome of one submission.
pub open spec fn spec_outcome(outcome: Result<(), SyncError>) -> Result<(), SyncErrorView> {
    match outcome {
        Ok(()) => Ok(()),
        Err(e) => Err(e@),
    }
}

/// The line that reports the failure `e` of the recording `id`.
pub open spec fn spec_error_line(id: Seq<char>, e: SyncErrorView) -> Seq<char> {
    "Recording "@ + id + ": "@ + e.message()
}

/// The report after the first `outcomes.len()` of `records` were submitted
/// with `outcomes`.
pub open spec fn spec_tally(
    records: Seq<RecordingView>,
    outcomes: Seq<Result<(), SyncErrorView>>,
) -> SyncResultView
    decreases outcomes.len(),
{
    if outcomes.len() == 0 {
        SyncResultView { synced_count: 0, failed_count: 0, errors: Seq::empty() }
    } else {
        let before = spec_tally(records, outcomes.drop_last());
        match outcomes.last() {
            Ok(()) => SyncResultView { synced_count: before.synced_count + 1, ..before },
            Err(e) => SyncResultView {
                failed_count: before.failed_count + 1,
                errors: before.errors.push(
                    spec_error_line(records[outcomes.len() - 1].id, e),
                ),
                ..before
            },
        }
    }
}

/// The identifiers that the store is asked to mark as synced, in order: those
/// of the recordings whose submission was accepted.
pub open spec fn spec_marked(
    records: Seq<RecordingView>,
    outcomes: Seq<Result<(), SyncErrorView>>,
) -> Seq<Seq<char>>
    decreases outcomes.len(),
{
    if outcomes.len() == 0 {
        Seq::empty()
    } else {
        let before = spec_marked(records, outcomes.drop_last());
        match outcomes.last() {
            Ok(()) => before.push(records[outcomes.len() - 1].id),
            Err(_) => before,
        }
    }
}

/// Number of failures among `outcomes`.
pub open spec fn spec_failures(outcomes: Seq<Result<(), SyncErrorView>>) -> nat
    decreases outcomes.len(),
{
    if outcomes.len() == 0 {
        0
    } else {
        spec_failures(outcomes.drop_last()) + if outcomes.last() is Err {
            1nat
        } else {
            0nat
        }
    }
}

/// Every submission is counted once: of `N` outcomes with `M` failures the
/// report counts `N - M` as synced and `M` as failed, lists one line for each
/// failure, and the store is asked to mark exactly `N - M` recordings.
pub proof fn lemma_tally_totals(
    records: Seq<RecordingView>,
    outcomes: Seq<Result<(), SyncErrorView>>,
)
    ensures
        spec_tally(records, outcomes).synced_count + spec_tally(records, outcomes).failed_count
            == outcomes.len(),
        spec_tally(records, outcomes).failed_count == spec_failures(outcomes),
        spec_tally(records, outcomes).errors.len() == spec_failures(outcomes),
        spec_marked(records, outcomes).len() == outcomes.len() - spec_failures(outcomes),
    decreases outcomes.len(),
{
    if outcomes.len() > 0 {
        lemma_tally_totals(records, outcomes.drop_last());
    }
}

/// One failing submission never keeps another from being marked: the
/// recording at `k` is marked if and only if its own submission was accepted.
pub proof fn lemma_marked_iff_accepted(
    records: Seq<RecordingView>,
    outcomes: Seq<Result<(), SyncErrorView>>,
    k: int,
)
    requires
        0 <= k < outcomes.len() <= records.len(),
        forall|i: int, j: int|
            0 <= i < j < records.len() ==> records[i].id != records[j].id,
    ensures
        spec_marked(records, outcomes).contains(records[k].id) <==> outcomes[k] is Ok,
    decreases outcomes.len(),
{
    let shorter = outcomes.drop_last();
    let last = outcomes.len() - 1;
    let before = spec_marked(records, shorter);
    lemma_marked_are_listed(records, shorter);
    if k < last {
        lemma_marked_iff_accepted(records, shorter, k);
        assert(shorter[k] == outcomes[k]);
        if outcomes.last() is Ok {
            let after = before.push(records[last].id);
            if before.contains(records[k].id) {
                let w = choose|w: int| 0 <= w < before.len() && before[w] == records[k].id;
                assert(after[w] == records[k].id);
            }
            if after.contains(records[k].id) {
                let w = choose|w: int| 0 <= w < after.len() && after[w] == records[k].id;
                if w < before.len() {
                    assert(before[w] == records[k].id);
                }
            }
        }
    } else {
        if outcomes.last() is Ok {
            let after = before.push(records[last].id);
            assert(after[before.len() as int] == records[k].id);
        } else {
            if before.contains(records[k].id) {
                let w = choose|w: int| 0 <= w < before.len() && before[w] == records[k].id;
                assert(false);
            }
        }
    }
}

proof fn lemma_marked_are_listed(
    records: Seq<RecordingView>,
    outcomes: Seq<Result<(), SyncErrorView>>,
)
    requires
        outcomes.len() <= records.len(),
    ensures
        forall|w: int|
            0 <= w < spec_marked(records, outcomes).len() ==> exists|i: int|
                0 <= i < outcomes.len() && #[trigger] records[i].id == #[trigger] spec_marked(
                    records,
                    outcomes,
                )[w],
    decreases outcomes.len(),
{
    if outcomes.len() > 0 {
        let shorter = outcomes.drop_last();
        lemma_marked_are_listed(records, shorter);
        let before = spec_marked(records, shorter);
        let after = spec_marked(records, outcomes);
        assert forall|w: int| 0 <= w < after.len() implies exists|i: int|
            0 <= i < outcomes.len() && #[trigger] records[i].id == #[trigger] after[w] by {
            if w < before.len() {
                assert(after[w] == before[w]);
                let i = choose|i: int|
                    0 <= i < shorter.len() && #[trigger] records[i].id == before[w];
                assert(records[i].id == after[w]);
            } else {
                assert(records[outcomes.len() - 1].id == after[w]);
            }
        }
    }
}

/// A bulk run over the recordings that still wait for the server: they are
/// submitted one by one, and each outcome is counted for itself.
pub struct BulkSync {
    records: Vec<Recording>,
    outcomes: Ghost<Seq<Result<(), SyncErrorView>>>,
    result: SyncResult,
}

/// Mathematical value of a [`BulkSync`]: the recordings, and the outcomes of
/// those submitted so far.
pub struct BulkSyncView {
    pub records: Seq<RecordingView>,
    pub outcomes: Seq<Result<(), SyncErrorView>>,
}

impl View for BulkSync {
    type V = BulkSyncView;

    closed spec fn view(&self) -> BulkSyncView {
        BulkSyncView { records: self.records.deep_view(), outcomes: self.outcomes@ }
    }
}

impl BulkSync {
    #[verifier::type_invariant]
    spec fn inv(&self) -> bool {
        &&& self.outcomes@.len() <= self.records.len()
        &&& self.result@ == spec_tally(self.records.deep_view(), self.outcomes@)
    }

    /// A run over `records`, none submitted yet.
    pub fn new(records: Vec<Recording>) -> (run: BulkSync)
        ensures
            run@.records == records.deep_view(),
            run@.outcomes.len() == 0,
    {
        let result = SyncResult { synced_count: 0, failed_count: 0, errors: Vec::new() };
        assert(result@.errors =~= Seq::empty());
        BulkSync { records, outcomes: Ghost(Seq::empty()), result }
    }

    /// The recording to submit next, or `None` when all were submitted.
    pub fn current(&self) -> (r: Option<&Recording>)
        ensures
            self@.outcomes.len() <= self@.records.len(),
            match r {
                Some(rec) => self@.outcomes.len() < self@.records.len() && rec@
                    == self@.records[self@.outcomes.len() as int],
                None => self@.outcomes.len() == self@.records.len(),
            },
    {
        proof {
            use_type_invariant(self);
            lemma_tally_totals(self.records.deep_view(), self.outcomes@);
        }
        let done = self.result.synced_count + self.result.failed_count;
        if done < self.records.len() {
            Some(&self.records[done])
        } else {
            None
        }
    }

    /// Counts the outcome of the current recording's submission and moves on
    /// to the next. Returns the identifier to mark as synced in the store,
    /// where the submission was accepted. Once all recordings were submitted
    /// a further outcome changes nothing.
    pub fn record(self, outcome: Result<(), SyncError>) -> (r: (BulkSync, Option<String>))
        ensures
            r.0@.records == self@.records,
            self@.outcomes.len() < self@.records.len() ==> {
                &&& r.0@.outcomes == self@.outcomes.push(spec_outcome(outcome))
                &&& spec_text(r.1) == match outcome {
                    Ok(()) => Some(self@.records[self@.outcomes.len() as int].id),
                    Err(_) => None,
                }
            },
            self@.outcomes.len() >= self@.records.len() ==> r.0@ == self@ && r.1 is None,
    {
        proof {
            use_type_invariant(&self);
            lemma_tally_totals(self.records.deep_view(), self.outcomes@);
        }
        let ghost records = self.records.deep_view();
        let ghost before = self.outcomes@;
        let done = self.result.synced_count + self.result.failed_count;
        if done >= self.records.len() {
            return (self, None);
        }
        let ghost after = before.push(spec_outcome(outcome));
        proof {
            assert(after.drop_last() =~= before);
            assert(records[done as int].id == self.records[done as int].id@);
        }
        let BulkSync { records: list, outcomes: _, result } = self;
        let SyncResult { synced_count, failed_count, errors } = result;
        match outcome {
            Ok(()) => {
                let id = list[done].id.clone();
                let next = BulkSync {
                    records: list,
                    outcomes: Ghost(after),
                    result: SyncResult { synced_count: synced_count + 1, failed_count, errors },
                };
                (next, Some(id))
            },
            Err(e) => {
                let mut line = String::from_str("Recording ");
                line.append(list[done].id.as_str());
                line.append(": ");
                line.append(e.message().as_str());
                let mut errors = errors;
                let ghost lines = errors.deep_view();
                errors.push(line);
                assert(errors.deep_view() =~= lines.push(line@));
                let next = BulkSync {
                    records: list,
                    outcomes: Ghost(after),
                    result: SyncResult { synced_count, failed_count: failed_count + 1, errors },
                };
                (next, None)
            },
        }
    }

    /// The report of the run so far.
    pub fn finish(self) -> (report: SyncResult)
        ensures
            report@ == spec_tally(self@.records, self@.outcomes),
    {
        proof {
            use_type_invariant(&self);
        }
        self.result
    }
}

} // verus!
