use mail_triage::models::{
    header_or, header_value, message_ids, MessageId, MessageListResponse, MessagePartHeaders,
};

fn headers(pairs: &[(&str, &str)]) -> Vec<MessagePartHeaders> {
    pairs
        .iter()
        .map(|(n, v)| MessagePartHeaders { name: n.to_string(), value: v.to_string() })
        .collect()
}

#[test]
fn header_lookup_is_exact_and_first_match_wins() {
    let hs = headers(&[
        ("from", "lower@x.com"),
        ("From", "first@x.com"),
        ("From", "second@x.com"),
        ("Subject", "Hello"),
    ]);
    assert_eq!(header_value(&hs, "From").map(|s| s.as_str()), Some("first@x.com"));
    assert_eq!(header_value(&hs, "FROM"), None);
    assert_eq!(header_value(&hs, "Cc"), None);
}

#[test]
fn header_defaults_apply_only_when_missing() {
    let hs = headers(&[("Subject", "Hi")]);
    assert_eq!(header_or(&hs, "Subject", "No Subject"), "Hi");
    assert_eq!(header_or(&hs, "From", "Unknown Sender"), "Unknown Sender");
    assert_eq!(header_or(&hs, "To", ""), "");
}

#[test]
fn absent_listing_is_empty() {
    assert_eq!(message_ids(MessageListResponse { messages: None }).len(), 0);
    let ids = message_ids(MessageListResponse {
        messages: Some(vec![MessageId { id: "a".to_string(), thread_id: "t".to_string() }]),
    });
    assert_eq!(ids.len(), 1);
    assert_eq!(ids[0].id, "a");
    assert_eq!(ids[0].thread_id, "t");
}
