use base64::engine::general_purpose::URL_SAFE;
use base64::Engine;

use mail_triage::b64::decode_raw_message;
use mail_triage::models::{
    DriveFile, Message, MessageId, MessageListResponse, MessagePart, MessagePartBody,
    MessagePartHeaders,
};
use mail_triage::orchestrate::{run_init, step_run, Action, Event, RunPhase, RunStep};

const SELF_ADDR: &str = "john@example.com";

fn header(name: &str, value: &str) -> MessagePartHeaders {
    MessagePartHeaders { name: name.to_string(), value: value.to_string() }
}

fn inbound_message(from: &str, subject: &str, body_text: &str) -> Message {
    Message {
        id: "m1".to_string(),
        snippet: String::new(),
        payload: MessagePart {
            part_id: String::new(),
            mime_type: "text/plain".to_string(),
            filename: String::new(),
            headers: vec![header("From", from), header("Subject", subject)],
            body: MessagePartBody {
                size: body_text.len() as u32,
                data: Some(URL_SAFE.encode(body_text.as_bytes())),
            },
            parts: None,
        },
    }
}

struct Run {
    phase: RunPhase,
    transcript: Vec<String>,
    creates: usize,
    marks: usize,
}

impl Run {
    fn start() -> (Run, Action) {
        let RunStep { next, action, logs } = run_init();
        let mut run = Run { phase: next, transcript: Vec::new(), creates: 0, marks: 0 };
        run.transcript.extend(logs);
        (run, action)
    }

    fn feed(&mut self, ev: Event) -> Action {
        let phase = std::mem::replace(&mut self.phase, RunPhase::Responded);
        let RunStep { next, action, logs } = step_run(SELF_ADDR, phase, ev);
        self.phase = next;
        self.transcript.extend(logs);
        match &action {
            Action::CreateDraft { .. } => self.creates += 1,
            Action::MarkRead { .. } => self.marks += 1,
            _ => {}
        }
        action
    }

    fn transcript_has(&self, needle: &str) -> bool {
        self.transcript.iter().any(|l| l.contains(needle))
    }
}

/// Drive a run up to the point where one fetched message awaits its
/// verdict; the classifier prompt action is returned with the run.
fn run_to_verdict(from: &str, subject: &str, body: &str) -> (Run, Action) {
    let (mut run, a0) = Run::start();
    assert!(matches!(a0, Action::LoadRefreshToken));
    let a1 = run.feed(Event::RefreshToken(Some("refresh".to_string())));
    assert!(matches!(a1, Action::FetchToken));
    let a2 = run.feed(Event::TokenResult(Ok(())));
    assert!(matches!(a2, Action::ListUnread));
    let ids = vec![MessageId { id: "m1".to_string(), thread_id: "t1".to_string() }];
    let a3 = run.feed(Event::ListResult(Ok(MessageListResponse { messages: Some(ids) })));
    match &a3 {
        Action::GetDetails { message_id } => assert_eq!(message_id, "m1"),
        other => panic!("expected details fetch, got {:?}", action_name(other)),
    }
    let a4 = run.feed(Event::DetailsResult(Ok(inbound_message(from, subject, body))));
    (run, a4)
}

fn action_name(a: &Action) -> &'static str {
    match a {
        Action::LoadRefreshToken => "LoadRefreshToken",
        Action::FetchToken => "FetchToken",
        Action::ListUnread => "ListUnread",
        Action::GetDetails { .. } => "GetDetails",
        Action::AskModel { .. } => "AskModel",
        Action::CreateDraft { .. } => "CreateDraft",
        Action::MarkRead { .. } => "MarkRead",
        Action::SearchFiles { .. } => "SearchFiles",
        Action::DownloadFile { .. } => "DownloadFile",
        Action::RespondError { .. } => "RespondError",
        Action::RespondTranscript => "RespondTranscript",
    }
}

#[test]
fn empty_inbox_reports_and_stops() {
    let (mut run, _) = Run::start();
    run.feed(Event::RefreshToken(Some("refresh".to_string())));
    run.feed(Event::TokenResult(Ok(())));
    let action = run.feed(Event::ListResult(Ok(MessageListResponse { messages: None })));
    assert!(matches!(action, Action::RespondTranscript));
    assert!(run.transcript_has("No unread emails found."));
    assert_eq!(run.creates, 0);
    assert_eq!(run.marks, 0);
}

#[test]
fn empty_listing_vector_reports_and_stops() {
    let (mut run, _) = Run::start();
    run.feed(Event::RefreshToken(Some("refresh".to_string())));
    run.feed(Event::TokenResult(Ok(())));
    let action = run.feed(Event::ListResult(Ok(MessageListResponse {
        messages: Some(Vec::new()),
    })));
    assert!(matches!(action, Action::RespondTranscript));
    assert!(run.transcript_has("No unread emails found."));
}

#[test]
fn missing_refresh_token_is_fatal() {
    let (mut run, _) = Run::start();
    let action = run.feed(Event::RefreshToken(None));
    match action {
        Action::RespondError { message } => {
            assert_eq!(message, "FATAL: Refresh token not found.")
        }
        other => panic!("expected a fatal response, got {}", action_name(&other)),
    }
}

#[test]
fn failed_token_exchange_is_fatal() {
    let (mut run, _) = Run::start();
    run.feed(Event::RefreshToken(Some("refresh".to_string())));
    let action = run.feed(Event::TokenResult(Err("denied".to_string())));
    match action {
        Action::RespondError { message } => {
            assert_eq!(message, "Failed to get access token: denied")
        }
        other => panic!("expected a fatal response, got {}", action_name(&other)),
    }
}

#[test]
fn reply_needed_creates_one_draft_then_marks_read() {
    let (mut run, a4) = run_to_verdict(
        "emika@example.com",
        "Attendance Report",
        "Can you send the report?",
    );
    match &a4 {
        Action::AskModel { prompt } => {
            assert!(prompt.contains("From: emika@example.com"));
            assert!(prompt.contains("Body: Can you send the report?"));
        }
        other => panic!("expected the classifier prompt, got {}", action_name(other)),
    }
    let a5 = run.feed(Event::ModelText(Ok("YES".to_string())));
    assert!(run.transcript_has("- Needs Reply?: YES"));
    assert!(run.transcript_has("- Decision is YES. Drafting reply..."));
    assert!(matches!(a5, Action::AskModel { .. }));
    let a6 = run.feed(Event::ModelText(Ok("Here is the report.".to_string())));
    let raw = match a6 {
        Action::CreateDraft { thread_id, raw } => {
            assert_eq!(thread_id, "t1");
            raw
        }
        other => panic!("expected draft creation, got {}", action_name(&other)),
    };
    let decoded = decode_raw_message(&raw).expect("the draft decodes");
    assert!(decoded.contains("Subject: Re: Attendance Report"));
    assert!(decoded.contains("emika@example.com"));
    let to_line = decoded.lines().find(|l| l.starts_with("To: ")).unwrap();
    assert!(to_line.contains("emika@example.com"));
    let a7 = run.feed(Event::DraftCreated(Ok(())));
    match &a7 {
        Action::MarkRead { message_id } => assert_eq!(message_id, "m1"),
        other => panic!("expected mark-read, got {}", action_name(other)),
    }
    assert!(run.transcript_has("- Successfully created draft in Gmail."));
    let a8 = run.feed(Event::MarkedRead(Ok(())));
    assert!(matches!(a8, Action::RespondTranscript));
    assert!(run.transcript_has("- Successfully marked original email as read."));
    assert_eq!(run.creates, 1);
    assert_eq!(run.marks, 1);
}

#[test]
fn reply_needed_transcript_is_exact() {
    let (mut run, _) = run_to_verdict(
        "emika@example.com",
        "Attendance Report",
        "Can you send the report?",
    );
    run.feed(Event::ModelText(Ok("YES".to_string())));
    run.feed(Event::ModelText(Ok("Here is the report.".to_string())));
    run.feed(Event::DraftCreated(Ok(())));
    run.feed(Event::MarkedRead(Ok(())));
    let expected = vec![
        "Fetch event started!",
        "Successfully authenticated with Google.",
        "Checking for unread emails...",
        "Found 1 unread email(s). Fetching details...",
        "\n===== Email #1 =====",
        "- Subject: Attendance Report",
        "- Needs Reply?: YES",
        "- Decision is YES. Drafting reply...",
        "- Draft from Gemini: Here is the report.",
        "- Successfully created draft in Gmail.",
        "- Successfully marked original email as read.",
    ];
    let got: Vec<&str> = run.transcript.iter().map(|s| s.as_str()).collect();
    assert_eq!(got, expected);
}

#[test]
fn no_reply_needed_triggers_no_calls() {
    let (mut run, _) = run_to_verdict("a@x.com", "FYI", "nothing to do");
    let action = run.feed(Event::ModelText(Ok("NO".to_string())));
    assert!(matches!(action, Action::RespondTranscript));
    assert_eq!(run.creates, 0);
    assert_eq!(run.marks, 0);
}

#[test]
fn unrecognized_verdict_skips_with_a_log() {
    let (mut run, _) = run_to_verdict("a@x.com", "Hm", "???");
    let action = run.feed(Event::ModelText(Ok("MAYBE SO".to_string())));
    assert!(matches!(action, Action::RespondTranscript));
    assert!(run.transcript_has("- Unrecognized verdict; skipping."));
    assert_eq!(run.creates, 0);
    assert_eq!(run.marks, 0);
}

#[test]
fn failed_draft_creation_leaves_message_unread() {
    let (mut run, _) = run_to_verdict("a@x.com", "Q", "question");
    run.feed(Event::ModelText(Ok("YES".to_string())));
    run.feed(Event::ModelText(Ok("Answer.".to_string())));
    let action = run.feed(Event::DraftCreated(Err("quota".to_string())));
    assert!(matches!(action, Action::RespondTranscript));
    assert!(run.transcript_has("- Failed to create draft: quota"));
    assert_eq!(run.marks, 0);
}

#[test]
fn file_request_with_no_match_creates_no_draft() {
    let (mut run, _) = run_to_verdict(
        "emika@example.com",
        "Attendance Report",
        "Can you provide the Attendance Report for last week?",
    );
    let a5 = run.feed(Event::ModelText(Ok("IS_FILE_REQUEST".to_string())));
    assert!(run.transcript_has("INTENT: File Request Detected"));
    assert!(matches!(a5, Action::AskModel { .. }));
    let a6 = run.feed(Event::ModelText(Ok("Attendance Report".to_string())));
    match &a6 {
        Action::SearchFiles { query } => {
            assert_eq!(
                query,
                "name contains 'Attendance' and name contains 'Report' and \
                 mimeType != 'application/vnd.google-apps.folder'"
            );
        }
        other => panic!("expected a file search, got {}", action_name(other)),
    }
    let a7 = run.feed(Event::FilesFound(Ok(Vec::new())));
    assert!(matches!(a7, Action::RespondTranscript));
    assert!(run.transcript_has("No files found matching the search query."));
    assert_eq!(run.creates, 0);
    assert_eq!(run.marks, 0);
}

#[test]
fn file_request_with_match_attaches_the_top_candidate() {
    let (mut run, _) = run_to_verdict("emika@example.com", "Attendance Report", "send it");
    run.feed(Event::ModelText(Ok("IS_FILE_REQUEST".to_string())));
    run.feed(Event::ModelText(Ok("Attendance".to_string())));
    let files = vec![
        DriveFile {
            id: "f1".to_string(),
            name: "Attendance.pdf".to_string(),
            mime_type: "application/pdf".to_string(),
            web_view_link: "https://example.com/f1".to_string(),
        },
        DriveFile {
            id: "f2".to_string(),
            name: "Attendance-old.pdf".to_string(),
            mime_type: "application/pdf".to_string(),
            web_view_link: "https://example.com/f2".to_string(),
        },
    ];
    let a = run.feed(Event::FilesFound(Ok(files)));
    assert!(run.transcript_has("Found 2 matching file(s):"));
    assert!(run.transcript_has("  - Name: Attendance.pdf, URL: https://example.com/f1"));
    match &a {
        Action::DownloadFile { file_id } => assert_eq!(file_id, "f1"),
        other => panic!("expected a download, got {}", action_name(other)),
    }
    let a = run.feed(Event::FileBytes(Ok(vec![9, 8, 7])));
    match &a {
        Action::AskModel { prompt } => {
            assert!(prompt.contains("- Attached File: Attendance.pdf"))
        }
        other => panic!("expected the drafting prompt, got {}", action_name(other)),
    }
    let a = run.feed(Event::ModelText(Ok("Please find it attached.".to_string())));
    let raw = match a {
        Action::CreateDraft { thread_id, raw } => {
            assert_eq!(thread_id, "t1");
            raw
        }
        other => panic!("expected draft creation, got {}", action_name(&other)),
    };
    let decoded = decode_raw_message(&raw).unwrap();
    assert!(decoded.contains("Content-Type: multipart/mixed"));
    assert!(decoded.contains("Content-Disposition: attachment; filename=\"Attendance.pdf\""));
    let a = run.feed(Event::DraftCreated(Ok(())));
    assert!(matches!(a, Action::MarkRead { .. }));
    let a = run.feed(Event::MarkedRead(Ok(())));
    assert!(matches!(a, Action::RespondTranscript));
    assert_eq!(run.creates, 1);
    assert_eq!(run.marks, 1);
}

#[test]
fn failed_keyword_call_skips_the_message() {
    let (mut run, _) = run_to_verdict("a@x.com", "Files", "send files");
    run.feed(Event::ModelText(Ok("IS_FILE_REQUEST".to_string())));
    let a = run.feed(Event::ModelText(Err("overloaded".to_string())));
    assert!(matches!(a, Action::RespondTranscript));
    assert!(run.transcript_has("Error getting search keywords from Gemini: overloaded"));
    assert_eq!(run.creates, 0);
}

#[test]
fn failed_search_skips_the_message() {
    let (mut run, _) = run_to_verdict("a@x.com", "Files", "send files");
    run.feed(Event::ModelText(Ok("IS_FILE_REQUEST".to_string())));
    run.feed(Event::ModelText(Ok("sheet".to_string())));
    let a = run.feed(Event::FilesFound(Err("forbidden".to_string())));
    assert!(matches!(a, Action::RespondTranscript));
    assert!(run.transcript_has("Error during Google Drive search: forbidden"));
    assert_eq!(run.creates, 0);
}

#[test]
fn failed_download_skips_the_message() {
    let (mut run, _) = run_to_verdict("a@x.com", "Files", "send files");
    run.feed(Event::ModelText(Ok("IS_FILE_REQUEST".to_string())));
    run.feed(Event::ModelText(Ok("sheet".to_string())));
    let files = vec![DriveFile {
        id: "f1".to_string(),
        name: "sheet.xlsx".to_string(),
        mime_type: "application/vnd.ms-excel".to_string(),
        web_view_link: "https://example.com/f1".to_string(),
    }];
    run.feed(Event::FilesFound(Ok(files)));
    let a = run.feed(Event::FileBytes(Err("too large".to_string())));
    assert!(matches!(a, Action::RespondTranscript));
    assert!(run.transcript_has("Error downloading file: too large"));
    assert_eq!(run.creates, 0);
}

#[test]
fn failed_drafter_call_skips_the_message() {
    let (mut run, _) = run_to_verdict("a@x.com", "Q", "question");
    run.feed(Event::ModelText(Ok("YES".to_string())));
    let a = run.feed(Event::ModelText(Err("overloaded".to_string())));
    assert!(matches!(a, Action::RespondTranscript));
    assert!(run.transcript_has("- Failed to generate draft from Gemini: overloaded"));
    assert_eq!(run.creates, 0);
}

#[test]
fn failed_mark_read_is_logged_and_the_run_goes_on() {
    let (mut run, _) = run_to_verdict("a@x.com", "Q", "question");
    run.feed(Event::ModelText(Ok("YES".to_string())));
    run.feed(Event::ModelText(Ok("Answer.".to_string())));
    run.feed(Event::DraftCreated(Ok(())));
    let a = run.feed(Event::MarkedRead(Err("label gone".to_string())));
    assert!(matches!(a, Action::RespondTranscript));
    assert!(run.transcript_has("- Failed to mark email as read: label gone"));
    assert_eq!(run.creates, 1);
    assert_eq!(run.marks, 1);
}

#[test]
fn failed_listing_is_fatal() {
    let (mut run, _) = Run::start();
    run.feed(Event::RefreshToken(Some("refresh".to_string())));
    run.feed(Event::TokenResult(Ok(())));
    let a = run.feed(Event::ListResult(Err("backend".to_string())));
    match a {
        Action::RespondError { message } => {
            assert_eq!(message, "Failed to fetch emails: backend")
        }
        other => panic!("expected a fatal response, got {}", action_name(&other)),
    }
}

#[test]
fn per_message_failure_moves_to_the_next_message() {
    let (mut run, _) = Run::start();
    run.feed(Event::RefreshToken(Some("refresh".to_string())));
    run.feed(Event::TokenResult(Ok(())));
    let ids = vec![
        MessageId { id: "m1".to_string(), thread_id: "t1".to_string() },
        MessageId { id: "m2".to_string(), thread_id: "t2".to_string() },
    ];
    let a = run.feed(Event::ListResult(Ok(MessageListResponse { messages: Some(ids) })));
    assert!(run.transcript_has("Found 2 unread email(s). Fetching details..."));
    assert!(matches!(a, Action::GetDetails { .. }));
    let a = run.feed(Event::DetailsResult(Err("gone".to_string())));
    assert!(run.transcript_has("Error fetching details for message m1: gone"));
    match &a {
        Action::GetDetails { message_id } => assert_eq!(message_id, "m2"),
        other => panic!("expected the next fetch, got {}", action_name(other)),
    }
    let a = run.feed(Event::DetailsResult(Ok(inbound_message("b@x.com", "Hello", "hi"))));
    assert!(matches!(a, Action::AskModel { .. }));
    let a = run.feed(Event::ModelText(Err("rate limited".to_string())));
    assert!(run.transcript_has("- Needs Reply?: Gemini Error: rate limited"));
    assert!(matches!(a, Action::RespondTranscript));
    assert_eq!(run.creates, 0);
}
