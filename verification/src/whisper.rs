//! The transcription engine's contract and the speaker attribution.
//!
//! The engine is a separate process. This module settles how it is invoked,
//! how its output is framed, and how a diarized result becomes one transcript.

use crate::text::{decimal, join, spec_decimal, spec_join};
use vstd::prelude::*;
use vstd::string::*;

verus! {

/// Why a transcription did not come about.
#[derive(Debug)]
pub enum WhisperError {
    /// No model file at the given path.
    ModelNotFound(String),
    /// No interpreter for the engine on this machine.
    PythonNotFound,
    /// The engine ran and failed, or its output could not be used.
    TranscriptionError(String),
}

/// Mathematical value of a [`WhisperError`].
pub enum WhisperErrorView {
    ModelNotFound(Seq<char>),
    PythonNotFound,
    TranscriptionError(Seq<char>),
}

impl View for WhisperError {
    type V = WhisperErrorView;

    open spec fn view(&self) -> WhisperErrorView {
        match self {
            WhisperError::ModelNotFound(p) => WhisperErrorView::ModelNotFound(p@),
            WhisperError::PythonNotFound => WhisperErrorView::PythonNotFound,
            WhisperError::TranscriptionError(m) => WhisperErrorView::TranscriptionError(m@),
        }
    }
}

impl WhisperErrorView {
    /// The text shown for the error.
    pub open spec fn message(self) -> Seq<char> {
        match self {
            WhisperErrorView::ModelNotFound(p) => "Model not found at "@ + p,
            WhisperErrorView::PythonNotFound => "Python environment not found"@,
            WhisperErrorView::TranscriptionError(m) => "Transcription failed: "@ + m,
        }
    }
}

impl WhisperError {
    /// The text shown for the error.
    pub fn message(&self) -> (s: String)
        ensures
            s@ == self@.message(),
    {
        match self {
            WhisperError::ModelNotFound(p) => {
                let mut s = String::from_str("Model not found at ");
                s.append(p.as_str());
                s
            },
            WhisperError::PythonNotFound => String::from_str("Python environment not found"),
            WhisperError::TranscriptionError(m) => {
                let mut s = String::from_str("Transcription failed: ");
                s.append(m.as_str());
                s
            },
        }
    }
}

/// One span of speech, attributed to a speaker.
#[derive(Debug)]
pub struct TranscriptSegment {
    /// The engine's tag of the speaker.
    pub speaker: String,
    /// Start of the span, in milliseconds from the start of the audio.
    pub start_ms: u64,
    /// End of the span, in milliseconds from the start of the audio.
    pub end_ms: u64,
    /// What was said.
    pub text: String,
}

/// Mathematical value of a [`TranscriptSegment`].
pub struct SegmentView {
    pub speaker: Seq<char>,
    pub start_ms: u64,
    pub end_ms: u64,
    pub text: Seq<char>,
}

impl View for TranscriptSegment {
    type V = SegmentView;

    open spec fn view(&self) -> SegmentView {
        SegmentView {
            speaker: self.speaker@,
            start_ms: self.start_ms,
            end_ms: self.end_ms,
            text: self.text@,
        }
    }
}

impl DeepView for TranscriptSegment {
    type V = SegmentView;

    open spec fn deep_view(&self) -> SegmentView {
        self@
    }
}

/// What one speaker said in total.
#[derive(Clone, Copy, Debug)]
pub struct SpeakerStats {
    /// Number of words spoken.
    pub word_count: usize,
    /// Total speaking time, in milliseconds.
    pub duration_ms: u64,
}

/// One entry of the speaker table: a tag and its statistics.
#[derive(Debug)]
pub struct Speaker {
    /// The engine's tag of the speaker.
    pub tag: String,
    /// What the speaker said in total.
    pub stats: SpeakerStats,
}

/// Mathematical value of a [`Speaker`].
pub struct SpeakerView {
    pub tag: Seq<char>,
    pub word_count: nat,
    pub duration_ms: u64,
}

impl View for Speaker {
    type V = SpeakerView;

    open spec fn view(&self) -> SpeakerView {
        SpeakerView {
            tag: self.tag@,
            word_count: self.stats.word_count as nat,
            duration_ms: self.stats.duration_ms,
        }
    }
}

impl DeepView for Speaker {
    type V = SpeakerView;

    open spec fn deep_view(&self) -> SpeakerView {
        self@
    }
}

/// What the engine returns: timed segments, the speaker table in the order
/// the engine listed it, and the text without attribution.
#[derive(Debug)]
pub struct TranscriptionResult {
    pub segments: Vec<TranscriptSegment>,
    pub speakers: Vec<Speaker>,
    pub full_transcript: String,
}

/// Mathematical value of a [`TranscriptionResult`].
pub struct ResultView {
    pub segments: Seq<SegmentView>,
    pub speakers: Seq<SpeakerView>,
    pub full_transcript: Seq<char>,
}

impl View for TranscriptionResult {
    type V = ResultView;

    open spec fn view(&self) -> ResultView {
        ResultView {
            segments: self.segments.deep_view(),
            speakers: self.speakers.deep_view(),
            full_transcript: self.full_transcript@,
        }
    }
}

/// Whether entry `j` is named before entry `i`: it has more words, or as
/// many and stands earlier in the table.
pub open spec fn spec_precedes(speakers: Seq<SpeakerView>, j: int, i: int) -> bool {
    speakers[j].word_count > speakers[i].word_count || (speakers[j].word_count
        == speakers[i].word_count && j < i)
}

/// Number of entries among the first `n` that are named before entry `i`.
pub open spec fn spec_preceding(speakers: Seq<SpeakerView>, i: int, n: int) -> nat
    decreases n,
{
    if n <= 0 {
        0
    } else {
        spec_preceding(speakers, i, n - 1) + if spec_precedes(speakers, n - 1, i) {
            1nat
        } else {
            0nat
        }
    }
}

/// Place of entry `i` when the table is ordered by falling word count, ties
/// in table order. The speaker with the most words has rank 0.
pub open spec fn spec_rank(speakers: Seq<SpeakerView>, i: int) -> nat {
    spec_preceding(speakers, i, speakers.len() as int)
}

/// The first entry from `k` on that carries `tag`.
pub open spec fn spec_find_from(speakers: Seq<SpeakerView>, tag: Seq<char>, k: int) -> Option<int>
    decreases speakers.len() - k,
{
    if k < 0 || k >= speakers.len() {
        None
    } else if speakers[k].tag == tag {
        Some(k)
    } else {
        spec_find_from(speakers, tag, k + 1)
    }
}

/// The display label of the speaker tagged `tag`: `Speaker` and its place
/// counted from one, or the tag itself where the table does not list it.
pub open spec fn spec_label(speakers: Seq<SpeakerView>, tag: Seq<char>) -> Seq<char> {
    match spec_find_from(speakers, tag, 0) {
        Some(i) => "Speaker "@ + spec_decimal(spec_rank(speakers, i) + 1),
        None => tag,
    }
}

/// One line of a labelled transcript.
pub open spec fn spec_line(label: Seq<char>, text: Seq<char>) -> Seq<char> {
    "["@ + label + "] "@ + text
}

/// The segments in their order, each under the display label of its speaker.
pub open spec fn spec_attributed_lines(r: ResultView) -> Seq<Seq<char>> {
    Seq::new(
        r.segments.len(),
        |k: int| spec_line(spec_label(r.speakers, r.segments[k].speaker), r.segments[k].text),
    )
}

/// The segments in their order, each under the engine's own tag.
pub open spec fn spec_tagged_lines(r: ResultView) -> Seq<Seq<char>> {
    Seq::new(r.segments.len(), |k: int| spec_line(r.segments[k].speaker, r.segments[k].text))
}

/// The single transcript of a result: the plain text where at most one
/// speaker is listed, else the labelled segments, one per line.
pub open spec fn spec_attributed(r: ResultView) -> Seq<char> {
    if r.speakers.len() <= 1 {
        r.full_transcript
    } else {
        spec_join(spec_attributed_lines(r), "\n"@)
    }
}

/// No entry is counted before itself, and at most every other entry is: a
/// rank is a place in the table.
pub proof fn lemma_rank_in_range(speakers: Seq<SpeakerView>, i: int)
    requires
        0 <= i < speakers.len(),
    ensures
        spec_rank(speakers, i) < speakers.len(),
{
    lemma_preceding_bound(speakers, i, speakers.len() as int);
}

proof fn lemma_preceding_bound(speakers: Seq<SpeakerView>, i: int, n: int)
    requires
        0 <= i < speakers.len(),
        0 <= n <= speakers.len(),
    ensures
        spec_preceding(speakers, i, n) <= n,
        n > i ==> spec_preceding(speakers, i, n) < n,
    decreases n,
{
    if n > 0 {
        lemma_preceding_bound(speakers, i, n - 1);
    }
}

/// Ordering by rank is ordering by falling word count, ties in table order:
/// an entry that is named before another has the smaller rank.
pub proof fn lemma_rank_order(speakers: Seq<SpeakerView>, i: int, j: int)
    requires
        0 <= i < speakers.len(),
        0 <= j < speakers.len(),
        spec_precedes(speakers, i, j),
    ensures
        spec_rank(speakers, i) < spec_rank(speakers, j),
{
    lemma_preceding_order(speakers, i, j, speakers.len() as int);
}

proof fn lemma_preceding_order(speakers: Seq<SpeakerView>, i: int, j: int, n: int)
    requires
        0 <= i < speakers.len(),
        0 <= j < speakers.len(),
        0 <= n <= speakers.len(),
        spec_precedes(speakers, i, j),
    ensures
        spec_preceding(speakers, i, n) <= spec_preceding(speakers, j, n),
        n > i ==> spec_preceding(speakers, i, n) < spec_preceding(speakers, j, n),
    decreases n,
{
    if n > 0 {
        lemma_preceding_order(speakers, i, j, n - 1);
    }
}

/// Two different entries never share a rank, so no two listed speakers share
/// a display label's number.
pub proof fn lemma_rank_distinct(speakers: Seq<SpeakerView>, i: int, j: int)
    requires
        0 <= i < speakers.len(),
        0 <= j < speakers.len(),
        i != j,
    ensures
        spec_rank(speakers, i) != spec_rank(speakers, j),
{
    if spec_precedes(speakers, i, j) {
        lemma_rank_order(speakers, i, j);
    } else {
        lemma_rank_order(speakers, j, i);
    }
}

/// Whether the segments stand in the order of their start times.
pub open spec fn spec_time_ordered(segments: Seq<SegmentView>) -> bool {
    forall|i: int, j: int|
        0 <= i < j < segments.len() ==> segments[i].start_ms <= segments[j].start_ms
}

impl TranscriptionResult {
    /// Whether the segments stand in the order of their start times, as the
    /// engine is to deliver them.
    pub fn is_time_ordered(&self) -> (b: bool)
        ensures
            b == spec_time_ordered(self@.segments),
    {
        let ghost segments = self@.segments;
        let mut k: usize = 1;
        while k < self.segments.len()
            invariant
                1 <= k,
                segments == self@.segments,
                forall|i: int, j: int|
                    0 <= i < j < k && j < segments.len() ==> segments[i].start_ms
                        <= segments[j].start_ms,
            decreases self.segments.len() - k,
        {
            assert(segments[k - 1] == self.segments[k - 1]@);
            assert(segments[k as int] == self.segments[k as int]@);
            if self.segments[k - 1].start_ms > self.segments[k].start_ms {
                return false;
            }
            k += 1;
        }
        true
    }

    /// Whether the engine told speakers apart: a result that lists at most
    /// one speaker counts as not diarized.
    pub fn is_diarized(&self) -> (b: bool)
        ensures
            b == (self@.speakers.len() > 1),
    {
        self.speakers.len() > 1
    }
}

fn rank(speakers: &Vec<Speaker>, i: usize) -> (r: usize)
    requires
        i < speakers.len(),
    ensures
        r == spec_rank(speakers.deep_view(), i as int),
        r < speakers.len(),
{
    let ghost table = speakers.deep_view();
    let own: usize = speakers[i].stats.word_count;
    let mut count: usize = 0;
    let mut j: usize = 0;
    while j < speakers.len()
        invariant
            i < speakers.len(),
            j <= speakers.len(),
            table == speakers.deep_view(),
            own == speakers[i as int].stats.word_count,
            count == spec_preceding(table, i as int, j as int),
            count <= j,
            j > i ==> count < j,
        decreases speakers.len() - j,
    {
        let other: usize = speakers[j].stats.word_count;
        assert(table[j as int].word_count == other);
        assert(table[i as int].word_count == own);
        if other > own || (other == own && j < i) {
            count += 1;
        }
        j += 1;
    }
    count
}

fn find_speaker(speakers: &Vec<Speaker>, tag: &String) -> (r: Option<usize>)
    ensures
        match r {
            Some(i) => spec_find_from(speakers.deep_view(), tag@, 0) == Some(i as int) && i
                < speakers.len(),
            None => spec_find_from(speakers.deep_view(), tag@, 0) is None,
        },
{
    let ghost table = speakers.deep_view();
    let mut k: usize = 0;
    while k < speakers.len()
        invariant
            k <= speakers.len(),
            table == speakers.deep_view(),
            spec_find_from(table, tag@, 0) == spec_find_from(table, tag@, k as int),
        decreases speakers.len() - k,
    {
        assert(table[k as int].tag == speakers[k as int].tag@);
        if speakers[k].tag == *tag {
            return Some(k);
        }
        k += 1;
    }
    None
}

fn label(speakers: &Vec<Speaker>, tag: &String) -> (s: String)
    ensures
        s@ == spec_label(speakers.deep_view(), tag@),
{
    match find_speaker(speakers, tag) {
        Some(i) => {
            let place = rank(speakers, i) + 1;
            let mut s = String::from_str("Speaker ");
            s.append(decimal(place).as_str());
            s
        },
        None => tag.clone(),
    }
}

fn line(label: &str, text: &str) -> (s: String)
    ensures
        s@ == spec_line(label@, text@),
{
    let mut s = String::from_str("[");
    s.append(label);
    s.append("] ");
    s.append(text);
    s
}

/// A place where the engine was looked for, and what was found there.
#[derive(Debug)]
pub struct Probe {
    /// Path of the interpreter.
    pub python_path: String,
    /// Path of the engine's script.
    pub script_path: String,
    /// Whether the interpreter is there.
    pub python_found: bool,
    /// Whether the script is there.
    pub script_found: bool,
}

/// Handle on an installed engine.
#[derive(Debug)]
pub struct Transcriber {
    python_path: String,
    script_path: String,
    hf_token: Option<String>,
}

/// Mathematical value of a [`Transcriber`].
pub struct TranscriberView {
    pub python_path: Seq<char>,
    pub script_path: Seq<char>,
    pub hf_token: Option<Seq<char>>,
}

impl View for Transcriber {
    type V = TranscriberView;

    closed spec fn view(&self) -> TranscriberView {
        TranscriberView {
            python_path: self.python_path@,
            script_path: self.script_path@,
            hf_token: match self.hf_token {
                Some(t) => Some(t@),
                None => None,
            },
        }
    }
}

/// What came of running the engine on one audio file.
#[derive(Debug)]
pub enum EngineRun {
    /// The process could not be started; the text says why.
    Unstarted(String),
    /// The process ran to its end.
    Exited { success: bool, stdout: String, stderr: String },
}

/// Position of the first line that begins with an opening brace, scanning
/// from `p`; `at_start` says whether a line begins at `p`.
pub open spec fn spec_json_scan(text: Seq<char>, p: int, at_start: bool) -> Option<int>
    decreases text.len() - p,
{
    if p < 0 || p >= text.len() {
        None
    } else if at_start && text[p] == '{' {
        Some(p)
    } else {
        spec_json_scan(text, p + 1, text[p] == '\n')
    }
}

/// Position of the line feed that ends the line through `p`, or the length
/// of the text where the last line has none.
pub open spec fn spec_line_end(text: Seq<char>, p: int) -> int
    decreases text.len() - p,
{
    if p < 0 || p >= text.len() {
        text.len() as int
    } else if text[p] == '\n' {
        p
    } else {
        spec_line_end(text, p + 1)
    }
}

/// The line that begins at `p`, without its ending: a line feed, or a
/// carriage return and a line feed.
pub open spec fn spec_line_at(text: Seq<char>, p: int) -> Seq<char> {
    let end = spec_line_end(text, p);
    if p < end < text.len() && text[end - 1] == '\r' {
        text.subrange(p, end - 1)
    } else {
        text.subrange(p, end)
    }
}

/// The first line of `text` that begins with an opening brace.
pub open spec fn spec_first_json_line(text: Seq<char>) -> Option<Seq<char>> {
    match spec_json_scan(text, 0, true) {
        Some(p) => Some(spec_line_at(text, p)),
        None => None,
    }
}

/// The first line of `text` that begins with an opening brace, if there is
/// one. Lines before it are passed over, whatever they hold.
pub fn first_json_line(text: &str) -> (r: Option<String>)
    ensures
        match r {
            Some(l) => spec_first_json_line(text@) == Some(l@),
            None => spec_first_json_line(text@) is None,
        },
{
    let chars = crate::text::chars_of(text);
    let n = chars.len();
    let mut p: usize = 0;
    let mut at_start = true;
    let mut found = false;
    while p < n
        invariant_except_break
            !found,
        invariant
            n == chars.len(),
            chars@ == text@,
            p <= n,
            spec_json_scan(text@, 0, true) == spec_json_scan(text@, p as int, at_start),
        ensures
            found ==> p < n && spec_json_scan(text@, 0, true) == Some(p as int),
            !found ==> spec_json_scan(text@, 0, true) is None,
        decreases n - p,
    {
        if at_start && chars[p] == '{' {
            found = true;
            break ;
        }
        at_start = chars[p] == '\n';
        p += 1;
    }
    if !found {
        return None;
    }
    let mut end: usize = p;
    while end < n && chars[end] != '\n'
        invariant
            n == chars.len(),
            chars@ == text@,
            p <= end <= n,
            spec_line_end(text@, p as int) == spec_line_end(text@, end as int),
        decreases n - end,
    {
        end += 1;
    }
    let stop: usize = if p < end && end < n && chars[end - 1] == '\r' {
        end - 1
    } else {
        end
    };
    let l = String::from_str(text.substring_char(p, stop));
    Some(l)
}

/// Mathematical value of an [`EngineRun`].
pub enum EngineRunView {
    Unstarted(Seq<char>),
    Exited { success: bool, stdout: Seq<char>, stderr: Seq<char> },
}

impl View for EngineRun {
    type V = EngineRunView;

    open spec fn view(&self) -> EngineRunView {
        match self {
            EngineRun::Unstarted(why) => EngineRunView::Unstarted(why@),
            EngineRun::Exited { success, stdout, stderr } => EngineRunView::Exited {
                success: *success,
                stdout: stdout@,
                stderr: stderr@,
            },
        }
    }
}

/// The arguments that the interpreter is started with.
pub open spec fn spec_command_args(t: TranscriberView, audio_path: Seq<char>) -> Seq<Seq<char>> {
    let head = seq![t.script_path, audio_path, "--model"@, "tiny"@];
    match t.hf_token {
        Some(token) => head + seq!["--hf-token"@, token],
        None => head.push("--no-diarize"@),
    }
}

/// The document that a run of the engine yields, or why it yields none.
pub open spec fn spec_engine_document(run: EngineRunView) -> Result<Seq<char>, WhisperErrorView> {
    match run {
        EngineRunView::Unstarted(why) => Err(
            WhisperErrorView::TranscriptionError("Failed to run Python script: "@ + why),
        ),
        EngineRunView::Exited { success, stdout, stderr } => if !success {
            Err(WhisperErrorView::TranscriptionError("Transcription failed: "@ + stderr))
        } else {
            match spec_first_json_line(stdout) {
                Some(l) => Ok(l),
                None => Err(
                    WhisperErrorView::TranscriptionError("No JSON output from transcription"@),
                ),
            }
        },
    }
}

/// What a decoded document stands for: the result, or the decoder's
/// complaint as a transcription error.
pub open spec fn spec_decoded(decoded: Result<TranscriptionResult, String>) -> Result<
    ResultView,
    WhisperErrorView,
> {
    match decoded {
        Ok(r) => Ok(r@),
        Err(why) => Err(WhisperErrorView::TranscriptionError("Failed to parse JSON: "@ + why@)),
    }
}

impl Transcriber {
    /// Picks the engine to use: the one beside the application's data where
    /// its interpreter is there, else the fallback where that one's is.
    pub fn new(local: Probe, fallback: Probe, hf_token: Option<String>) -> (r: Result<
        Transcriber,
        WhisperError,
    >)
        ensures
            match r {
                Ok(t) => {
                    let chosen = if local.python_found {
                        local
                    } else {
                        fallback
                    };
                    &&& local.python_found || fallback.python_found
                    &&& t@.python_path == chosen.python_path@
                    &&& t@.script_path == chosen.script_path@
                    &&& t@.hf_token == match hf_token {
                        Some(token) => Some(token@),
                        None => None,
                    }
                },
                Err(e) => !local.python_found && !fallback.python_found && e@
                    == WhisperErrorView::PythonNotFound,
            },
    {
        if local.python_found {
            Ok(Transcriber { python_path: local.python_path, script_path: local.script_path, hf_token })
        } else if fallback.python_found {
            Ok(
                Transcriber {
                    python_path: fallback.python_path,
                    script_path: fallback.script_path,
                    hf_token,
                },
            )
        } else {
            Err(WhisperError::PythonNotFound)
        }
    }

    /// Path of the interpreter.
    pub fn python_path(&self) -> (p: &String)
        ensures
            p@ == self@.python_path,
    {
        &self.python_path
    }

    /// Path of the engine's script.
    pub fn script_path(&self) -> (p: &String)
        ensures
            p@ == self@.script_path,
    {
        &self.script_path
    }

    /// Whether a diarization token is set.
    pub fn diarizes(&self) -> (b: bool)
        ensures
            b == self@.hf_token is Some,
    {
        self.hf_token.is_some()
    }

    /// Sets the token that enables speaker diarization.
    pub fn set_hf_token(&mut self, token: String)
        ensures
            final(self)@ == (TranscriberView { hf_token: Some(token@), ..old(self)@ }),
    {
        self.hf_token = Some(token);
    }

    /// The arguments to start the interpreter with, for one audio file: the
    /// script, the file, the model size, and the token or the switch that
    /// turns diarization off.
    pub fn command_args(&self, audio_path: &str) -> (args: Vec<String>)
        ensures
            args.deep_view() == spec_command_args(self@, audio_path@),
    {
        let mut args: Vec<String> = Vec::new();
        args.push(self.script_path.clone());
        args.push(String::from_str(audio_path));
        args.push(String::from_str("--model"));
        args.push(String::from_str("tiny"));
        match &self.hf_token {
            Some(token) => {
                args.push(String::from_str("--hf-token"));
                args.push(token.clone());
            },
            None => {
                args.push(String::from_str("--no-diarize"));
            },
        }
        assert(args.deep_view() =~= spec_command_args(self@, audio_path@));
        args
    }

    /// The document in the engine's output: the first line that begins with
    /// an opening brace, where the process ran and ended well.
    pub fn json_line(run: &EngineRun) -> (r: Result<String, WhisperError>)
        ensures
            match r {
                Ok(l) => spec_engine_document(run@) == Ok::<Seq<char>, WhisperErrorView>(l@),
                Err(e) => spec_engine_document(run@) == Err::<Seq<char>, WhisperErrorView>(e@),
            },
    {
        match run {
            EngineRun::Unstarted(why) => {
                let mut m = String::from_str("Failed to run Python script: ");
                m.append(why.as_str());
                Err(WhisperError::TranscriptionError(m))
            },
            EngineRun::Exited { success, stdout, stderr } => {
                if !*success {
                    let mut m = String::from_str("Transcription failed: ");
                    m.append(stderr.as_str());
                    Err(WhisperError::TranscriptionError(m))
                } else {
                    match first_json_line(stdout.as_str()) {
                        Some(l) => Ok(l),
                        None => Err(
                            WhisperError::TranscriptionError(
                                String::from_str("No JSON output from transcription"),
                            ),
                        ),
                    }
                }
            },
        }
    }

    /// The diarized result of a decoded document. A document that could not
    /// be decoded is a failed transcription.
    pub fn transcribe_with_diarization(&self, decoded: Result<TranscriptionResult, String>) -> (r:
        Result<TranscriptionResult, WhisperError>)
        ensures
            match r {
                Ok(t) => spec_decoded(decoded) == Ok::<ResultView, WhisperErrorView>(t@),
                Err(e) => spec_decoded(decoded) == Err::<ResultView, WhisperErrorView>(e@),
            },
    {
        match decoded {
            Ok(t) => Ok(t),
            Err(why) => {
                let mut m = String::from_str("Failed to parse JSON: ");
                m.append(why.as_str());
                Err(WhisperError::TranscriptionError(m))
            },
        }
    }

    /// The single transcript of a result: the plain text where at most one
    /// speaker is listed; else every segment in its order, under `Speaker 1`,
    /// `Speaker 2`, ... by falling word count.
    ///
    /// That the speaker with the most words is the main subject is a policy of
    /// this client, not something the audio proves.
    pub fn extract_student_transcript(&self, result: &TranscriptionResult) -> (s: String)
        ensures
            s@ == spec_attributed(result@),
            result@.speakers.len() <= 1 ==> s@ == result@.full_transcript,
    {
        if result.speakers.len() <= 1 {
            return result.full_transcript.clone();
        }
        let ghost r = result@;
        let mut lines: Vec<String> = Vec::new();
        let mut k: usize = 0;
        while k < result.segments.len()
            invariant
                k <= result.segments.len(),
                r == result@,
                lines.deep_view() == spec_attributed_lines(r).take(k as int),
            decreases result.segments.len() - k,
        {
            let segment = &result.segments[k];
            assert(r.segments[k as int] == segment@);
            let name = label(&result.speakers, &segment.speaker);
            let entry = line(name.as_str(), segment.text.as_str());
            let ghost before = lines.deep_view();
            lines.push(entry);
            assert(lines.deep_view() =~= before.push(entry@));
            assert(spec_attributed_lines(r)[k as int] == entry@);
            assert(spec_attributed_lines(r).take(k + 1) =~= before.push(entry@));
            k += 1;
        }
        assert(lines.deep_view() =~= spec_attributed_lines(r));
        join(&lines, "\n")
    }

    /// Every segment in its order, one per line, under the engine's own tag.
    pub fn get_labeled_transcript(&self, result: &TranscriptionResult) -> (s: String)
        ensures
            s@ == spec_join(spec_tagged_lines(result@), "\n"@),
    {
        let ghost r = result@;
        let mut lines: Vec<String> = Vec::new();
        let mut k: usize = 0;
        while k < result.segments.len()
            invariant
                k <= result.segments.len(),
                r == result@,
                lines.deep_view() == spec_tagged_lines(r).take(k as int),
            decreases result.segments.len() - k,
        {
            let segment = &result.segments[k];
            assert(r.segments[k as int] == segment@);
            let entry = line(segment.speaker.as_str(), segment.text.as_str());
            let ghost before = lines.deep_view();
            lines.push(entry);
            assert(lines.deep_view() =~= before.push(entry@));
            assert(spec_tagged_lines(r)[k as int] == entry@);
            assert(spec_tagged_lines(r).take(k + 1) =~= before.push(entry@));
            k += 1;
        }
        assert(lines.deep_view() =~= spec_tagged_lines(r));
        join(&lines, "\n")
    }

    /// The single transcript of a decoded document.
    pub fn transcribe(&self, decoded: Result<TranscriptionResult, String>) -> (r: Result<
        String,
        WhisperError,
    >)
        ensures
            match r {
                Ok(s) => spec_decoded(decoded) matches Ok(t) && s@ == spec_attributed(t),
                Err(e) => spec_decoded(decoded) == Err::<ResultView, WhisperErrorView>(e@),
            },
    {
        match self.transcribe_with_diarization(decoded) {
            Ok(t) => Ok(self.extract_student_transcript(&t)),
            Err(e) => Err(e),
        }
    }
}

/// Whether the engine's interpreter was found where it was looked for.
pub fn check_whisper_installed(probe: &Probe) -> (b: bool)
    ensures
        b == probe.python_found,
{
    probe.python_found
}

/// What to tell the user about the engine.
pub open spec fn spec_whisper_status(python_found: bool, script_found: bool, token_set: bool) -> Seq<
    char,
> {
    if !python_found {
        "Python environment not found. Please run setup."@
    } else if !script_found {
        "Transcription script not found."@
    } else if token_set {
        "WhisperX ready. "@ + "Speaker diarization enabled"@
    } else {
        "WhisperX ready. "@ + "Speaker diarization disabled (no HF_TOKEN)"@
    }
}

/// One sentence on the state of the engine: what is missing, or that it is
/// ready and whether it will tell speakers apart.
pub fn get_whisper_status(probe: &Probe, token_set: bool) -> (s: String)
    ensures
        s@ == spec_whisper_status(probe.python_found, probe.script_found, token_set),
{
    if !probe.python_found {
        return String::from_str("Python environment not found. Please run setup.");
    }
    if !probe.script_found {
        return String::from_str("Transcription script not found.");
    }
    let mut s = String::from_str("WhisperX ready. ");
    if token_set {
        s.append("Speaker diarization enabled");
    } else {
        s.append("Speaker diarization disabled (no HF_TOKEN)");
    }
    s
}

} // verus!
