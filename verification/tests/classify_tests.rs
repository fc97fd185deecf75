use mail_triage::classify::{parse_verdict, Verdict};
use mail_triage::drive_query::build_drive_query;
use mail_triage::gemini::{build_gemini_request, extract_gemini_text, gemini_error_message};
use mail_triage::models::{Candidate, GeminiContent, GeminiResponse, PartText};
use mail_triage::prompts::{
    get_classification_prompt, get_drafting_prompt, get_search_keywords_prompt,
};

#[test]
fn verdict_tokens_are_recognized() {
    assert_eq!(parse_verdict("YES"), Verdict::NeedsReply);
    assert_eq!(parse_verdict(" yes \r\n"), Verdict::NeedsReply);
    assert_eq!(parse_verdict("NO"), Verdict::NoReplyNeeded);
    assert_eq!(parse_verdict("no"), Verdict::NoReplyNeeded);
    assert_eq!(parse_verdict("IS_FILE_REQUEST"), Verdict::NeedsReplyWithFile);
    assert_eq!(parse_verdict("  is_file_request  "), Verdict::NeedsReplyWithFile);
}

#[test]
fn anything_else_is_unrecognized() {
    assert_eq!(parse_verdict(""), Verdict::Unrecognized);
    assert_eq!(parse_verdict("MAYBE"), Verdict::Unrecognized);
    assert_eq!(parse_verdict("YES PLEASE"), Verdict::Unrecognized);
    assert_eq!(parse_verdict("NOPE"), Verdict::Unrecognized);
}

#[test]
fn model_request_wraps_the_prompt() {
    let req = build_gemini_request("classify this");
    assert_eq!(req.contents.len(), 1);
    assert_eq!(req.contents[0].parts.len(), 1);
    assert_eq!(req.contents[0].parts[0].text, "classify this");
}

#[test]
fn response_text_is_first_part_of_first_candidate() {
    let resp = GeminiResponse {
        candidates: vec![Candidate {
            content: GeminiContent {
                parts: vec![
                    PartText { text: "YES".to_string() },
                    PartText { text: "ignored".to_string() },
                ],
            },
        }],
    };
    assert_eq!(extract_gemini_text(&resp).unwrap(), "YES");
}

#[test]
fn empty_response_is_an_error() {
    let none = GeminiResponse { candidates: Vec::new() };
    assert_eq!(
        extract_gemini_text(&none).unwrap_err(),
        "Could not extract text from Gemini response"
    );
    let no_parts = GeminiResponse {
        candidates: vec![Candidate { content: GeminiContent { parts: Vec::new() } }],
    };
    assert_eq!(
        extract_gemini_text(&no_parts).unwrap_err(),
        "Could not extract text from Gemini response"
    );
}

#[test]
fn error_statuses_map_to_their_messages() {
    assert_eq!(gemini_error_message(401, "x"), "Invalid API Key");
    assert_eq!(
        gemini_error_message(403, "x"),
        "Refresh token is no longer valid or has been revoked"
    );
    assert_eq!(gemini_error_message(429, "x"), "Rate limit exceeded");
    assert_eq!(
        gemini_error_message(500, "boom"),
        "Gemini API Error: boom/Status: 500"
    );
}

#[test]
fn drive_query_requires_every_keyword_and_excludes_folders() {
    assert_eq!(
        build_drive_query("Attendance Report"),
        "name contains 'Attendance' and name contains 'Report' and \
         mimeType != 'application/vnd.google-apps.folder'"
    );
    assert_eq!(
        build_drive_query("'quoted'"),
        "name contains 'quoted' and mimeType != 'application/vnd.google-apps.folder'"
    );
    assert_eq!(
        build_drive_query(""),
        " and mimeType != 'application/vnd.google-apps.folder'"
    );
}

#[test]
fn classification_prompt_embeds_the_fields() {
    let p = get_classification_prompt("emika@example.com", "Attendance Report", "Hi John");
    assert!(p.contains("From: emika@example.com"));
    assert!(p.contains("Subject: Attendance Report"));
    assert!(p.contains("Body: Hi John"));
    assert!(p.contains("Expected output: YES, NO, or IS_FILE_REQUEST"));
}

#[test]
fn drafting_prompt_mentions_the_file_only_when_given() {
    let without = get_drafting_prompt("a@x.com", "Subj", "Body text", None);
    assert!(without.contains("- From: a@x.com"));
    assert!(!without.contains("Attached File"));
    let with = get_drafting_prompt(
        "a@x.com",
        "Subj",
        "Body text",
        Some("report.pdf".to_string()),
    );
    assert!(with.contains("- Attached File: report.pdf"));
    assert!(with.contains("If a file is attached"));
}

#[test]
fn keyword_prompt_embeds_the_body() {
    let p = get_search_keywords_prompt("please send the attendance sheet");
    assert!(p.contains("Body: please send the attendance sheet"));
    assert!(p.contains("comma-separated list of keywords"));
}
