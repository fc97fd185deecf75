use base64::engine::general_purpose::URL_SAFE;
use base64::Engine;

use mail_triage::extract::{extract_body_text, find_plain_text_body};
use mail_triage::models::{MessagePart, MessagePartBody, MessagePartHeaders};

fn leaf(mime: &str, data: Option<&str>) -> MessagePart {
    MessagePart {
        part_id: String::new(),
        mime_type: mime.to_string(),
        filename: String::new(),
        headers: Vec::<MessagePartHeaders>::new(),
        body: MessagePartBody { size: 0, data: data.map(|d| d.to_string()) },
        parts: None,
    }
}

fn node(mime: &str, children: Vec<MessagePart>) -> MessagePart {
    MessagePart {
        part_id: String::new(),
        mime_type: mime.to_string(),
        filename: String::new(),
        headers: Vec::<MessagePartHeaders>::new(),
        body: MessagePartBody { size: 0, data: None },
        parts: Some(children),
    }
}

#[test]
fn plain_leaf_at_root_wins() {
    let root = leaf("text/plain", Some("cGF5bG9hZA=="));
    assert_eq!(find_plain_text_body(&root).map(|s| s.as_str()), Some("cGF5bG9hZA=="));
}

#[test]
fn depth_first_pre_order_picks_first_plain_leaf() {
    // multipart/alternative with the HTML part listed first: the plain
    // part is still found, and the first of two plain leaves wins.
    let root = node(
        "multipart/mixed",
        vec![
            node(
                "multipart/alternative",
                vec![
                    leaf("text/html", Some("html-data")),
                    leaf("text/plain", Some("first-plain")),
                ],
            ),
            leaf("text/plain", Some("second-plain")),
        ],
    );
    assert_eq!(find_plain_text_body(&root).map(|s| s.as_str()), Some("first-plain"));
}

#[test]
fn plain_node_without_payload_is_skipped() {
    let root = node(
        "multipart/mixed",
        vec![leaf("text/plain", None), leaf("text/plain", Some("later"))],
    );
    assert_eq!(find_plain_text_body(&root).map(|s| s.as_str()), Some("later"));
}

#[test]
fn no_plain_leaf_yields_none() {
    let root = node("multipart/mixed", vec![leaf("text/html", Some("x"))]);
    assert!(find_plain_text_body(&root).is_none());
}

#[test]
fn body_text_decodes_transport_encoding() {
    let encoded = URL_SAFE.encode("Can you send the report?".as_bytes());
    let root = leaf("text/plain", Some(&encoded));
    assert_eq!(extract_body_text(&root), "Can you send the report?");
}

#[test]
fn body_text_fallbacks() {
    let root = leaf("text/html", Some("x"));
    assert_eq!(extract_body_text(&root), "No plain text body found");
    let bad = leaf("text/plain", Some("!!!not-base64!!!"));
    assert_eq!(extract_body_text(&bad), "Could not decode body.");
}
