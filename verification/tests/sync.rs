use classroom_transcriber::recording::Recording;
use classroom_transcriber::sync::{BulkSync, Reply, SubmitResponse, SyncClient, SyncError};

fn recording(id: &str, transcript: Option<&str>) -> Recording {
    Recording {
        id: id.to_string(),
        student_id: "jane-doe".to_string(),
        audio_path: format!("/data/audio/{}.wav", id),
        transcript: transcript.map(|t| t.to_string()),
        duration_samples: 48000,
        recorded_at: "2024-05-01T10:00:00+00:00".to_string(),
        synced: false,
    }
}

fn answered(status: u16, success: bool, error: Option<&str>) -> Reply {
    Reply::Answered {
        status,
        body: SubmitResponse { success, id: Some(7), error: error.map(|e| e.to_string()) },
    }
}

#[test]
fn trailing_slashes_are_dropped_from_the_address() {
    assert_eq!(SyncClient::new("http://localhost:3000").server_url(), "http://localhost:3000");
    assert_eq!(SyncClient::new("http://localhost:3000/").server_url(), "http://localhost:3000");
    assert_eq!(SyncClient::new("http://host/api///").server_url(), "http://host/api");
    assert_eq!(SyncClient::new("///").server_url(), "");
    assert_eq!(SyncClient::new("").server_url(), "");
    assert_eq!(SyncClient::new("/a/b").server_url(), "/a/b");
}

#[test]
fn requests_go_to_the_api_paths() {
    let c = SyncClient::new("https://collect.example/");
    assert_eq!(c.health_url(), "https://collect.example/api/health");
    assert_eq!(c.transcripts_url(), "https://collect.example/api/transcripts");
}

#[test]
fn any_success_status_is_healthy() {
    let c = SyncClient::new("http://x");
    assert!(c.check_connection(Some(200)));
    assert!(c.check_connection(Some(204)));
    assert!(c.check_connection(Some(299)));
    assert!(!c.check_connection(Some(199)));
    assert!(!c.check_connection(Some(300)));
    assert!(!c.check_connection(Some(404)));
    assert!(!c.check_connection(Some(500)));
    assert!(!c.check_connection(None));
}

#[test]
fn the_payload_carries_the_record() {
    let c = SyncClient::new("http://x");
    let p = c.payload(&recording("r1", Some("hello")));
    assert_eq!(p.student_id, "jane-doe");
    assert_eq!(p.device_type, "desktop");
    assert_eq!(p.audio_duration_samples, 48000);
    assert_eq!(p.transcript, "hello");
    assert_eq!(p.recorded_at, "2024-05-01T10:00:00+00:00");
    assert_eq!(p.client_id, "r1");
    let empty = c.payload(&recording("r2", None));
    assert_eq!(empty.transcript, "");
    assert_eq!(empty.client_id, "r2");
}

#[test]
fn success_needs_the_status_and_the_flag() {
    let c = SyncClient::new("http://x");
    assert!(c.submit_transcript(answered(200, true, None)).is_ok());
    assert!(c.submit_transcript(answered(201, true, Some("ignored"))).is_ok());
    match c.submit_transcript(answered(200, false, Some("duplicate"))) {
        Err(SyncError::ServerError(m)) => assert_eq!(m, "duplicate"),
        other => panic!("unexpected: {:?}", other),
    }
    match c.submit_transcript(answered(200, false, None)) {
        Err(SyncError::ServerError(m)) => assert_eq!(m, "Unknown error"),
        other => panic!("unexpected: {:?}", other),
    }
    match c.submit_transcript(answered(500, true, None)) {
        Err(SyncError::ServerError(m)) => assert_eq!(m, "Unknown error"),
        other => panic!("unexpected: {:?}", other),
    }
    match c.submit_transcript(answered(422, false, Some("bad student"))) {
        Err(SyncError::ServerError(m)) => assert_eq!(m, "bad student"),
        other => panic!("unexpected: {:?}", other),
    }
}

#[test]
fn a_request_that_failed_is_a_network_error() {
    let c = SyncClient::new("http://x");
    match c.submit_transcript(Reply::Failed("connection refused".to_string())) {
        Err(e) => {
            assert_eq!(e.message(), "Network error: connection refused");
            assert!(matches!(e, SyncError::NetworkError(_)));
        }
        other => panic!("unexpected: {:?}", other),
    }
    assert_eq!(SyncError::ServerError("no".to_string()).message(), "Server returned error: no");
}

#[test]
fn bulk_sync_counts_every_record_once() {
    let records = vec![
        recording("a", Some("1")),
        recording("b", Some("2")),
        recording("c", Some("3")),
        recording("d", Some("4")),
        recording("e", Some("5")),
    ];
    let mut run = BulkSync::new(records);
    let mut marked: Vec<String> = Vec::new();
    let mut submitted: Vec<String> = Vec::new();
    loop {
        let id = match run.current() {
            Some(r) => r.id.clone(),
            None => break,
        };
        let outcome = if id == "b" {
            Err(SyncError::NetworkError("timeout".to_string()))
        } else if id == "d" {
            Err(SyncError::ServerError("rejected".to_string()))
        } else {
            Ok(())
        };
        submitted.push(id);
        let (next, mark) = run.record(outcome);
        run = next;
        if let Some(m) = mark {
            marked.push(m);
        }
    }
    let report = run.finish();
    assert_eq!(submitted, vec!["a", "b", "c", "d", "e"]);
    assert_eq!(report.synced_count, 3);
    assert_eq!(report.failed_count, 2);
    assert_eq!(report.synced_count + report.failed_count, 5);
    assert_eq!(marked, vec!["a", "c", "e"]);
    assert_eq!(
        report.errors,
        vec![
            "Recording b: Network error: timeout",
            "Recording d: Server returned error: rejected"
        ]
    );
}

#[test]
fn bulk_sync_of_nothing_reports_nothing() {
    let run = BulkSync::new(Vec::new());
    assert!(run.current().is_none());
    let (run, mark) = run.record(Ok(()));
    assert!(mark.is_none());
    let report = run.finish();
    assert_eq!(report.synced_count, 0);
    assert_eq!(report.failed_count, 0);
    assert!(report.errors.is_empty());
}

#[test]
fn an_outcome_after_the_last_record_changes_nothing() {
    let run = BulkSync::new(vec![recording("only", Some("t"))]);
    let (run, mark) = run.record(Ok(()));
    assert_eq!(mark, Some("only".to_string()));
    assert!(run.current().is_none());
    let (run, mark) = run.record(Err(SyncError::ServerError("late".to_string())));
    assert!(mark.is_none());
    let report = run.finish();
    assert_eq!(report.synced_count, 1);
    assert_eq!(report.failed_count, 0);
    assert!(report.errors.is_empty());
}

#[test]
fn all_failing_marks_nothing() {
    let mut run = BulkSync::new(vec![recording("a", Some("1")), recording("b", Some("2"))]);
    let mut marks = 0;
    while run.current().is_some() {
        let (next, mark) = run.record(Err(SyncError::NetworkError("down".to_string())));
        run = next;
        if mark.is_some() {
            marks += 1;
        }
    }
    let report = run.finish();
    assert_eq!(marks, 0);
    assert_eq!(report.synced_count, 0);
    assert_eq!(report.failed_count, 2);
    assert_eq!(report.errors.len(), 2);
}
