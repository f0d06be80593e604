use classroom_transcriber::whisper::{
    check_whisper_installed, first_json_line, get_whisper_status, EngineRun, Probe, Speaker,
    SpeakerStats, Transcriber, TranscriptSegment, TranscriptionResult, WhisperError,
};

fn probe(python: &str, script: &str, python_found: bool, script_found: bool) -> Probe {
    Probe {
        python_path: python.to_string(),
        script_path: script.to_string(),
        python_found,
        script_found,
    }
}

fn transcriber(token: Option<&str>) -> Transcriber {
    Transcriber::new(
        probe("/app/whisperx-env/bin/python", "/app/whisperx_transcribe.py", true, true),
        probe("/alt/python", "/alt/script.py", false, false),
        token.map(|t| t.to_string()),
    )
    .unwrap()
}

fn segment(speaker: &str, start_ms: u64, end_ms: u64, text: &str) -> TranscriptSegment {
    TranscriptSegment { speaker: speaker.to_string(), start_ms, end_ms, text: text.to_string() }
}

fn speaker(tag: &str, word_count: usize) -> Speaker {
    Speaker { tag: tag.to_string(), stats: SpeakerStats { word_count, duration_ms: 1000 } }
}

fn message_of(e: &WhisperError) -> String {
    e.message()
}

#[test]
fn one_speaker_gives_the_plain_transcript() {
    let result = TranscriptionResult {
        segments: vec![segment("SPEAKER_00", 0, 900, "Hello there."), segment("SPEAKER_00", 900, 2000, "How are you?")],
        speakers: vec![speaker("SPEAKER_00", 5)],
        full_transcript: "Hello there. How are you?".to_string(),
    };
    let t = transcriber(None);
    assert_eq!(t.extract_student_transcript(&result), "Hello there. How are you?");
}

#[test]
fn no_speaker_gives_the_plain_transcript() {
    let result = TranscriptionResult {
        segments: vec![segment("SPEAKER_00", 0, 900, "Hello.")],
        speakers: vec![],
        full_transcript: "Hello.".to_string(),
    };
    assert_eq!(transcriber(None).extract_student_transcript(&result), "Hello.");
}

#[test]
fn the_speaker_with_more_words_is_speaker_one() {
    let result = TranscriptionResult {
        segments: vec![
            segment("A", 0, 1000, "What is two plus two?"),
            segment("B", 1000, 5000, "I think it is four."),
            segment("A", 5000, 6000, "Good."),
            segment("B", 6000, 9000, "And three plus three is six."),
        ],
        speakers: vec![speaker("A", 30), speaker("B", 90)],
        full_transcript: "ignored".to_string(),
    };
    assert_eq!(
        transcriber(None).extract_student_transcript(&result),
        "[Speaker 2] What is two plus two?\n[Speaker 1] I think it is four.\n[Speaker 2] Good.\n[Speaker 1] And three plus three is six."
    );
}

#[test]
fn equal_word_counts_keep_the_table_order() {
    let result = TranscriptionResult {
        segments: vec![segment("Z", 0, 1, "z"), segment("M", 1, 2, "m"), segment("K", 2, 3, "k")],
        speakers: vec![speaker("Z", 10), speaker("M", 20), speaker("K", 10)],
        full_transcript: String::new(),
    };
    assert_eq!(
        transcriber(None).extract_student_transcript(&result),
        "[Speaker 2] z\n[Speaker 1] m\n[Speaker 3] k"
    );
}

#[test]
fn a_speaker_outside_the_table_keeps_its_tag() {
    let result = TranscriptionResult {
        segments: vec![segment("A", 0, 1, "a"), segment("UNKNOWN", 1, 2, "u")],
        speakers: vec![speaker("A", 1), speaker("B", 2)],
        full_transcript: String::new(),
    };
    assert_eq!(transcriber(None).extract_student_transcript(&result), "[Speaker 2] a\n[UNKNOWN] u");
}

#[test]
fn labels_count_past_nine() {
    let mut speakers = Vec::new();
    for k in 0..12usize {
        speakers.push(speaker(&format!("S{}", k), 100 - k));
    }
    let result = TranscriptionResult {
        segments: vec![segment("S9", 0, 1, "ten"), segment("S11", 1, 2, "twelve"), segment("S0", 2, 3, "one")],
        speakers,
        full_transcript: String::new(),
    };
    assert_eq!(
        transcriber(None).extract_student_transcript(&result),
        "[Speaker 10] ten\n[Speaker 12] twelve\n[Speaker 1] one"
    );
}

#[test]
fn no_segments_give_an_empty_transcript() {
    let result = TranscriptionResult {
        segments: vec![],
        speakers: vec![speaker("A", 1), speaker("B", 2)],
        full_transcript: "unused".to_string(),
    };
    assert_eq!(transcriber(None).extract_student_transcript(&result), "");
    assert_eq!(transcriber(None).get_labeled_transcript(&result), "");
}

#[test]
fn the_labeled_transcript_uses_the_engines_tags() {
    let result = TranscriptionResult {
        segments: vec![segment("SPEAKER_01", 0, 1, "Hi."), segment("SPEAKER_00", 1, 2, "Hello.")],
        speakers: vec![speaker("SPEAKER_00", 1), speaker("SPEAKER_01", 1)],
        full_transcript: "Hi. Hello.".to_string(),
    };
    assert_eq!(transcriber(None).get_labeled_transcript(&result), "[SPEAKER_01] Hi.\n[SPEAKER_00] Hello.");
}

#[test]
fn the_engine_beside_the_application_is_preferred() {
    let t = Transcriber::new(
        probe("/app/python", "/app/script.py", true, false),
        probe("/alt/python", "/alt/script.py", true, true),
        Some("tok".to_string()),
    )
    .unwrap();
    assert_eq!(t.python_path(), "/app/python");
    assert_eq!(t.script_path(), "/app/script.py");
    assert!(t.diarizes());
}

#[test]
fn the_fallback_engine_is_taken_where_the_first_is_missing() {
    let t = Transcriber::new(
        probe("/app/python", "/app/script.py", false, true),
        probe("/alt/python", "/alt/script.py", true, false),
        None,
    )
    .unwrap();
    assert_eq!(t.python_path(), "/alt/python");
    assert_eq!(t.script_path(), "/alt/script.py");
    assert!(!t.diarizes());
}

#[test]
fn no_interpreter_is_an_error() {
    let r = Transcriber::new(
        probe("/app/python", "/app/script.py", false, true),
        probe("/alt/python", "/alt/script.py", false, true),
        None,
    );
    match r {
        Err(WhisperError::PythonNotFound) => {}
        other => panic!("unexpected: {:?}", other),
    }
}

#[test]
fn arguments_without_a_token_turn_diarization_off() {
    let t = transcriber(None);
    assert_eq!(
        t.command_args("/data/audio/x.wav"),
        vec!["/app/whisperx_transcribe.py", "/data/audio/x.wav", "--model", "tiny", "--no-diarize"]
    );
}

#[test]
fn arguments_with_a_token_pass_it_on() {
    let mut t = transcriber(None);
    t.set_hf_token("hf_abc".to_string());
    assert!(t.diarizes());
    assert_eq!(
        t.command_args("/data/audio/x.wav"),
        vec!["/app/whisperx_transcribe.py", "/data/audio/x.wav", "--model", "tiny", "--hf-token", "hf_abc"]
    );
    t.set_hf_token("other".to_string());
    assert_eq!(t.command_args("a.wav")[5], "other");
    assert_eq!(t.python_path(), "/app/whisperx-env/bin/python");
}

#[test]
fn the_first_line_with_a_brace_is_the_document() {
    assert_eq!(first_json_line("{\"a\":1}"), Some("{\"a\":1}".to_string()));
    assert_eq!(first_json_line("warning: slow\n{\"a\":1}\n{\"b\":2}\n"), Some("{\"a\":1}".to_string()));
    assert_eq!(first_json_line("x\r\n{\"a\":1}\r\nrest"), Some("{\"a\":1}".to_string()));
    assert_eq!(first_json_line("{\"a\":1}\r"), Some("{\"a\":1}\r".to_string()));
    assert_eq!(first_json_line("{\r\n"), Some("{".to_string()));
    assert_eq!(first_json_line("\n\n{}"), Some("{}".to_string()));
    assert_eq!(first_json_line("h\u{e9}llo\n{\"t\":\"\u{e9}\"}\n"), Some("{\"t\":\"\u{e9}\"}".to_string()));
}

#[test]
fn a_brace_inside_a_line_is_no_document() {
    assert_eq!(first_json_line(""), None);
    assert_eq!(first_json_line("no json here\n"), None);
    assert_eq!(first_json_line(" {\"a\":1}\nlog {x}\n"), None);
}

#[test]
fn a_run_that_could_not_start_is_reported() {
    let run = EngineRun::Unstarted("No such file or directory".to_string());
    match Transcriber::json_line(&run) {
        Err(WhisperError::TranscriptionError(m)) => {
            assert_eq!(m, "Failed to run Python script: No such file or directory")
        }
        other => panic!("unexpected: {:?}", other),
    }
}

#[test]
fn a_failed_exit_reports_stderr() {
    let run = EngineRun::Exited {
        success: false,
        stdout: "{\"ok\":true}".to_string(),
        stderr: "Traceback: boom".to_string(),
    };
    match Transcriber::json_line(&run) {
        Err(e) => {
            assert_eq!(message_of(&e), "Transcription failed: Transcription failed: Traceback: boom")
        }
        other => panic!("unexpected: {:?}", other),
    }
}

#[test]
fn output_without_a_document_is_reported() {
    let run = EngineRun::Exited { success: true, stdout: "done\n".to_string(), stderr: String::new() };
    match Transcriber::json_line(&run) {
        Err(WhisperError::TranscriptionError(m)) => assert_eq!(m, "No JSON output from transcription"),
        other => panic!("unexpected: {:?}", other),
    }
}

#[test]
fn a_good_run_yields_its_document() {
    let run = EngineRun::Exited {
        success: true,
        stdout: "UserWarning: x\n{\"segments\":[]}\n".to_string(),
        stderr: "noise".to_string(),
    };
    assert_eq!(Transcriber::json_line(&run).unwrap(), "{\"segments\":[]}");
}

#[test]
fn a_document_that_does_not_decode_is_a_failed_transcription() {
    let t = transcriber(None);
    match t.transcribe(Err("expected value at line 1 column 2".to_string())) {
        Err(WhisperError::TranscriptionError(m)) => {
            assert_eq!(m, "Failed to parse JSON: expected value at line 1 column 2")
        }
        other => panic!("unexpected: {:?}", other),
    }
    match t.transcribe_with_diarization(Err("eof".to_string())) {
        Err(WhisperError::TranscriptionError(m)) => assert_eq!(m, "Failed to parse JSON: eof"),
        other => panic!("unexpected: {:?}", other),
    }
}

#[test]
fn a_decoded_document_is_attributed() {
    let t = transcriber(None);
    let result = TranscriptionResult {
        segments: vec![segment("A", 0, 1, "a"), segment("B", 1, 2, "b")],
        speakers: vec![speaker("A", 1), speaker("B", 2)],
        full_transcript: "a b".to_string(),
    };
    assert_eq!(t.transcribe(Ok(result)).unwrap(), "[Speaker 2] a\n[Speaker 1] b");
    let single = TranscriptionResult {
        segments: vec![segment("A", 0, 1, "a")],
        speakers: vec![speaker("A", 1)],
        full_transcript: "a".to_string(),
    };
    let kept = t.transcribe_with_diarization(Ok(single)).unwrap();
    assert_eq!(kept.full_transcript, "a");
    assert_eq!(kept.segments.len(), 1);
    assert_eq!(kept.speakers[0].stats.word_count, 1);
}

#[test]
fn error_messages_name_the_cause() {
    assert_eq!(message_of(&WhisperError::ModelNotFound("/m.bin".to_string())), "Model not found at /m.bin");
    assert_eq!(message_of(&WhisperError::PythonNotFound), "Python environment not found");
    assert_eq!(message_of(&WhisperError::TranscriptionError("x".to_string())), "Transcription failed: x");
}

#[test]
fn the_status_names_what_is_missing() {
    let missing = probe("/p", "/s", false, true);
    assert!(!check_whisper_installed(&missing));
    assert_eq!(get_whisper_status(&missing, true), "Python environment not found. Please run setup.");
    let no_script = probe("/p", "/s", true, false);
    assert!(check_whisper_installed(&no_script));
    assert_eq!(get_whisper_status(&no_script, true), "Transcription script not found.");
    let ready = probe("/p", "/s", true, true);
    assert_eq!(get_whisper_status(&ready, true), "WhisperX ready. Speaker diarization enabled");
    assert_eq!(
        get_whisper_status(&ready, false),
        "WhisperX ready. Speaker diarization disabled (no HF_TOKEN)"
    );
}

#[test]
fn segments_are_expected_in_the_order_of_their_start() {
    let ordered = TranscriptionResult {
        segments: vec![segment("A", 0, 10, "a"), segment("B", 5, 7, "b"), segment("A", 5, 20, "c")],
        speakers: vec![speaker("A", 2), speaker("B", 1)],
        full_transcript: String::new(),
    };
    assert!(ordered.is_time_ordered());
    assert!(ordered.is_diarized());
    let shuffled = TranscriptionResult {
        segments: vec![segment("A", 0, 10, "a"), segment("B", 30, 40, "b"), segment("A", 20, 25, "c")],
        speakers: vec![speaker("A", 2)],
        full_transcript: String::new(),
    };
    assert!(!shuffled.is_time_ordered());
    assert!(!shuffled.is_diarized());
    let empty = TranscriptionResult { segments: vec![], speakers: vec![], full_transcript: String::new() };
    assert!(empty.is_time_ordered());
    assert!(!empty.is_diarized());
}
