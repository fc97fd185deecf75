//! The data the pipeline works on: inbound messages and their MIME part
//! trees, the request and response shapes of the collaborating services,
//! and the attachment carried by a draft.  The host layer keeps mirror
//! types with the (de)serialization derives and converts at the boundary.

use vstd::prelude::*;

verus! {

/// A fresh access token granted in exchange for the refresh token.
pub struct GoogleTokenResponse {
    pub access_token: String,
    pub expires_in: u32,
    pub scope: String,
    pub token_type: String,
}

/// The unread-message listing: absent when the mailbox reports none.
pub struct MessageListResponse {
    pub messages: Option<Vec<MessageId>>,
}

/// One mailbox message handle.
pub struct MessageId {
    pub id: String,
    pub thread_id: String,
}

/// A fetched message: its identifier, preview snippet and MIME part tree.
pub struct Message {
    pub id: String,
    pub snippet: String,
    pub payload: MessagePart,
}

/// A node of a MIME part tree: it may carry a body payload of its own and
/// may have child parts.
pub struct MessagePart {
    pub part_id: String,
    pub mime_type: String,
    pub filename: String,
    pub headers: Vec<MessagePartHeaders>,
    pub body: MessagePartBody,
    pub parts: Option<Vec<MessagePart>>,
}

/// One message header: exact name and raw value.
pub struct MessagePartHeaders {
    pub name: String,
    pub value: String,
}

/// A part's body: its size and, when present, its transport-encoded payload.
pub struct MessagePartBody {
    pub size: u32,
    pub data: Option<String>,
}

/// A request to the language-model service.
pub struct GeminiRequest {
    pub contents: Vec<Content>,
}

/// One content block of a model request.
pub struct Content {
    pub parts: Vec<Part>,
}

/// One text part of a model request.
pub struct Part {
    pub text: String,
}

/// The model's answer.
pub struct GeminiResponse {
    pub candidates: Vec<Candidate>,
}

/// One candidate answer.
pub struct Candidate {
    pub content: GeminiContent,
}

/// The content of a candidate answer.
pub struct GeminiContent {
    pub parts: Vec<PartText>,
}

/// One text part of a candidate answer.
pub struct PartText {
    pub text: String,
}

/// A request to create a draft in the mailbox.
pub struct CreateDraftRequest {
    pub message: DraftMessage,
}

/// The draft itself: the thread it replies to and the raw encoded message.
pub struct DraftMessage {
    pub thread_id: String,
    pub raw: String,
}

/// A request to change a message's labels; used to clear the unread label.
pub struct ModifyMessageRequest {
    pub remove_label_ids: Vec<String>,
}

/// The file-storage search result.
pub struct FileListResponse {
    pub files: Vec<DriveFile>,
}

/// One candidate file found by the file-storage search.
pub struct DriveFile {
    pub id: String,
    pub name: String,
    pub mime_type: String,
    pub web_view_link: String,
}

/// A file to embed in a draft.
pub struct Attachment {
    pub filename: String,
    pub mime_type: String,
    pub data: Vec<u8>,
}

/// A copy of `s` with the same characters.
pub fn dup_str(s: &String) -> (r: String)
    ensures
        r@ == s@,
{
    s.clone()
}

/// The value of the first header named `name`, exact and case-sensitive,
/// or `None` if no header carries that name.
pub open spec fn spec_header_value(hs: Seq<MessagePartHeaders>, name: Seq<char>) -> Option<
    Seq<char>,
>
    decreases hs.len(),
{
    if hs.len() == 0 {
        None
    } else if hs[0].name@ == name {
        Some(hs[0].value@)
    } else {
        spec_header_value(hs.drop_first(), name)
    }
}

/// Look a header up by exact name; the first match wins.
pub fn header_value<'a>(hs: &'a Vec<MessagePartHeaders>, name: &str) -> (r: Option<&'a String>)
    ensures
        match r {
            Some(v) => spec_header_value(hs@, name@) == Some(v@),
            None => spec_header_value(hs@, name@) is None,
        },
{
    let mut i: usize = 0;
    proof {
        assert(hs@.skip(0) =~= hs@);
    }
    while i < hs.len()
        invariant
            0 <= i <= hs@.len(),
            spec_header_value(hs@, name@) == spec_header_value(hs@.skip(i as int), name@),
        decreases hs@.len() - i,
    {
        if crate::strutil::str_eq(hs[i].name.as_str(), name) {
            assert(hs@.skip(i as int)[0] == hs@[i as int]);
            return Some(&hs[i].value);
        }
        proof {
            assert(hs@.skip(i as int)[0] == hs@[i as int]);
            assert(hs@.skip(i as int).drop_first() =~= hs@.skip(i as int + 1));
        }
        i += 1;
    }
    proof {
        assert(hs@.skip(i as int).len() == 0);
    }
    None
}

/// The value of the header named `name`, or `default` when it is missing.
pub fn header_or(hs: &Vec<MessagePartHeaders>, name: &str, default: &str) -> (r: String)
    ensures
        match spec_header_value(hs@, name@) {
            Some(v) => r@ == v,
            None => r@ == default@,
        },
{
    match header_value(hs, name) {
        Some(v) => dup_str(v),
        None => default.to_owned(),
    }
}

/// The listed message handles, or none at all when the mailbox reports
/// no unread messages.
pub fn message_ids(resp: MessageListResponse) -> (r: Vec<MessageId>)
    ensures
        match resp.messages {
            Some(v) => r == v,
            None => r@.len() == 0,
        },
{
    match resp.messages {
        Some(v) => v,
        None => Vec::new(),
    }
}

} // verus!
