use base64::engine::general_purpose::{STANDARD, URL_SAFE};
use base64::Engine;

use mail_triage::b64::{decode_base64_payload, decode_raw_message};
use mail_triage::mime::{
    build_draft_request, build_mark_read_request, compose_encoded_reply, compose_plain_reply,
    compose_raw_reply, compose_reply_with_attachment,
};
use mail_triage::models::Attachment;

const BOUNDARY: &str = "boundary_string_for_email_draft_bot";

#[test]
fn plain_reply_layout() {
    let raw = compose_plain_reply("a@x.com", "c@y.com", "Weekly sync", "See you there.");
    let expected = format!(
        "To: a@x.com\r\nCc: c@y.com\r\nSubject: Re: Weekly sync\r\nMIME-Version: 1.0\r\n\r\nSee you there."
    );
    assert_eq!(raw, expected);
}

#[test]
fn empty_cc_header_is_omitted() {
    let raw = compose_plain_reply("a@x.com", "", "Hi", "Body");
    assert!(!raw.contains("Cc:"));
    assert!(raw.contains("To: a@x.com\r\n"));
    assert!(raw.contains("Subject: Re: Hi\r\n"));
}

#[test]
fn encoded_reply_round_trips_to_the_raw_message() {
    let raw = compose_raw_reply("a@x.com", "", "Attendance Report", "Here it is.", None);
    let enc = compose_encoded_reply("a@x.com", "", "Attendance Report", "Here it is.", None);
    let decoded = decode_raw_message(&enc).expect("decoding our own encoding succeeds");
    assert_eq!(decoded, raw);
    assert!(decoded.contains("Subject: Re: Attendance Report"));
    // cross-check with an independent decode
    let bytes = URL_SAFE.decode(enc.as_bytes()).unwrap();
    assert_eq!(String::from_utf8(bytes).unwrap(), raw);
}

#[test]
fn attachment_reply_has_two_parts_in_order() {
    let att = Attachment {
        filename: "report.pdf".to_string(),
        mime_type: "application/pdf".to_string(),
        data: vec![0x25, 0x50, 0x44, 0x46, 0x00, 0xff],
    };
    let raw = compose_reply_with_attachment("a@x.com", "", "Report", "Attached.", &att);

    assert!(raw.contains(&format!(
        "Content-Type: multipart/mixed; boundary=\"{}\"",
        BOUNDARY
    )));
    let delim = format!("--{}", BOUNDARY);
    let closing = format!("--{}--\r\n", BOUNDARY);
    assert!(raw.ends_with(&closing));
    let trunk = &raw[..raw.len() - closing.len()];
    let pieces: Vec<&str> = trunk.split(delim.as_str()).collect();
    // headers, text part, attachment part
    assert_eq!(pieces.len(), 3);
    assert!(pieces[0].contains("Subject: Re: Report"));
    assert!(pieces[1].contains("Content-Type: text/plain; charset=\"UTF-8\""));
    assert!(pieces[1].contains("Attached."));
    assert!(pieces[2].contains("Content-Type: application/pdf; name=\"report.pdf\""));
    assert!(pieces[2].contains("Content-Disposition: attachment; filename=\"report.pdf\""));
    assert!(pieces[2].contains("Content-Transfer-Encoding: base64"));
    // the text part comes before the attachment part
    let body_at = raw.find("Attached.").unwrap();
    let payload = STANDARD.encode(&att.data);
    let payload_at = raw.find(&payload).unwrap();
    assert!(body_at < payload_at);
}

#[test]
fn attachment_payload_is_recoverable() {
    let data = vec![1u8, 2, 3, 250, 251, 252];
    let att = Attachment {
        filename: "blob.bin".to_string(),
        mime_type: "application/octet-stream".to_string(),
        data: data.clone(),
    };
    let enc = compose_encoded_reply("a@x.com", "c@y.com", "Blob", "See attachment.", Some(&att));
    let raw = decode_raw_message(&enc).unwrap();
    // the attachment payload sits between its header block and the final CRLF
    let marker = "Content-Transfer-Encoding: base64\r\n\r\n";
    let start = raw.find(marker).unwrap() + marker.len();
    let rest = &raw[start..];
    let end = rest.find("\r\n").unwrap();
    let payload = &rest[..end];
    let recovered = decode_base64_payload(payload).expect("payload decodes");
    assert_eq!(recovered, data);
}

#[test]
fn draft_and_mark_read_requests() {
    let req = build_draft_request("thread-9", "RAWRAW".to_string());
    assert_eq!(req.message.thread_id, "thread-9");
    assert_eq!(req.message.raw, "RAWRAW");
    let modify = build_mark_read_request();
    assert_eq!(modify.remove_label_ids.len(), 1);
    assert_eq!(modify.remove_label_ids[0], "UNREAD");
}
