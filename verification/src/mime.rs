//! The MIME composer: it builds the raw reply — headers, body, and
//! optionally one attachment as a second part of a multipart/mixed
//! document — and hands it over in the transport encoding the mailbox
//! expects for draft submission.

use vstd::prelude::*;

use crate::b64::{std_b64_encode, std_b64_of, urlsafe_b64_of, urlsafe_encode};
use crate::models::{Attachment, CreateDraftRequest, DraftMessage, ModifyMessageRequest};
use crate::strutil::contains_sub;

verus! {

/// The fixed delimiter between the parts of a multipart draft.  Each
/// composed message is a single independent draft, so a fixed token
/// suffices; concurrent composition would call for a per-message one.
pub open spec fn spec_boundary() -> Seq<char> {
    "boundary_string_for_email_draft_bot"@
}

/// The headers common to every reply: To, Cc when it is non-empty,
/// the Subject always prefixed with `Re: `, and the MIME version.
pub open spec fn common_headers(to: Seq<char>, cc: Seq<char>, subject: Seq<char>) -> Seq<char> {
    "To: "@ + to + "\r\n"@ + (if cc.len() > 0 {
        "Cc: "@ + cc + "\r\n"@
    } else {
        Seq::<char>::empty()
    }) + "Subject: Re: "@ + subject + "\r\n"@ + "MIME-Version: 1.0\r\n"@
}

/// A single-part reply: the headers, a blank line, then the body.
pub open spec fn mime_plain(to: Seq<char>, cc: Seq<char>, subject: Seq<char>, body: Seq<char>) -> Seq<
    char,
> {
    common_headers(to, cc, subject) + "\r\n"@ + body
}

/// The plain-text part of a multipart reply.
pub open spec fn spec_text_part(body: Seq<char>) -> Seq<char> {
    "--"@ + spec_boundary() + "\r\nContent-Type: text/plain; charset=\"UTF-8\"\r\n\r\n"@ + body
        + "\r\n"@
}

/// The attachment part of a multipart reply; `payload` is the
/// base64-encoded attachment bytes.
pub open spec fn spec_attachment_part(
    mime_type: Seq<char>,
    filename: Seq<char>,
    payload: Seq<char>,
) -> Seq<char> {
    "--"@ + spec_boundary() + "\r\nContent-Type: "@ + mime_type + "; name=\""@ + filename
        + "\"\r\nContent-Disposition: attachment; filename=\""@ + filename
        + "\"\r\nContent-Transfer-Encoding: base64\r\n\r\n"@ + payload + "\r\n"@
}

/// A two-part reply: the common headers plus the multipart declaration,
/// a blank line, the plain-text part, the attachment part, and the
/// closing boundary marker.
pub open spec fn mime_with_attachment(
    to: Seq<char>,
    cc: Seq<char>,
    subject: Seq<char>,
    body: Seq<char>,
    mime_type: Seq<char>,
    filename: Seq<char>,
    data: Seq<u8>,
) -> Seq<char> {
    common_headers(to, cc, subject) + "Content-Type: multipart/mixed; boundary=\""@
        + spec_boundary() + "\"\r\n"@ + "\r\n"@ + spec_text_part(body) + spec_attachment_part(
        mime_type,
        filename,
        std_b64_of(data),
    ) + "--"@ + spec_boundary() + "--\r\n"@
}

/// The raw reply for an optional attachment: two MIME parts when one is
/// given, a plain single-part message otherwise.
pub open spec fn spec_raw_reply(
    to: Seq<char>,
    cc: Seq<char>,
    subject: Seq<char>,
    body: Seq<char>,
    attachment: Option<Attachment>,
) -> Seq<char> {
    match attachment {
        Some(a) => mime_with_attachment(to, cc, subject, body, a.mime_type@, a.filename@, a.data@),
        None => mime_plain(to, cc, subject, body),
    }
}

fn compose_common_headers(to: &str, cc: &str, subject: &str) -> (r: String)
    ensures
        r@ == common_headers(to@, cc@, subject@),
{
    let mut r = String::new();
    r.append("To: ");
    r.append(to);
    r.append("\r\n");
    if cc.unicode_len() > 0 {
        r.append("Cc: ");
        r.append(cc);
        r.append("\r\n");
    }
    r.append("Subject: Re: ");
    r.append(subject);
    r.append("\r\n");
    r.append("MIME-Version: 1.0\r\n");
    proof {
        assert(r@ =~= common_headers(to@, cc@, subject@));
    }
    r
}

/// Compose the raw single-part reply.
pub fn compose_plain_reply(to: &str, cc: &str, subject: &str, body: &str) -> (r: String)
    ensures
        r@ == mime_plain(to@, cc@, subject@, body@),
{
    let mut r = compose_common_headers(to, cc, subject);
    r.append("\r\n");
    r.append(body);
    proof {
        assert(r@ =~= mime_plain(to@, cc@, subject@, body@));
    }
    r
}

/// Compose the raw two-part reply with the attachment embedded in
/// base64.
pub fn compose_reply_with_attachment(
    to: &str,
    cc: &str,
    subject: &str,
    body: &str,
    attachment: &Attachment,
) -> (r: String)
    ensures
        r@ == mime_with_attachment(
            to@,
            cc@,
            subject@,
            body@,
            attachment.mime_type@,
            attachment.filename@,
            attachment.data@,
        ),
{
    let payload = std_b64_encode(attachment.data.as_slice());
    let mut r = compose_common_headers(to, cc, subject);
    r.append("Content-Type: multipart/mixed; boundary=\"");
    r.append("boundary_string_for_email_draft_bot");
    r.append("\"\r\n");
    r.append("\r\n");
    r.append("--");
    r.append("boundary_string_for_email_draft_bot");
    r.append("\r\nContent-Type: text/plain; charset=\"UTF-8\"\r\n\r\n");
    r.append(body);
    r.append("\r\n");
    r.append("--");
    r.append("boundary_string_for_email_draft_bot");
    r.append("\r\nContent-Type: ");
    r.append(attachment.mime_type.as_str());
    r.append("; name=\"");
    r.append(attachment.filename.as_str());
    r.append("\"\r\nContent-Disposition: attachment; filename=\"");
    r.append(attachment.filename.as_str());
    r.append("\"\r\nContent-Transfer-Encoding: base64\r\n\r\n");
    r.append(payload.as_str());
    r.append("\r\n");
    r.append("--");
    r.append("boundary_string_for_email_draft_bot");
    r.append("--\r\n");
    proof {
        assert(r@ =~= mime_with_attachment(
            to@,
            cc@,
            subject@,
            body@,
            attachment.mime_type@,
            attachment.filename@,
            attachment.data@,
        ));
    }
    r
}

/// Compose the raw reply, with or without an attachment.
pub fn compose_raw_reply(
    to: &str,
    cc: &str,
    subject: &str,
    body: &str,
    attachment: Option<&Attachment>,
) -> (r: String)
    ensures
        r@ == match attachment {
            Some(a) => spec_raw_reply(to@, cc@, subject@, body@, Some(*a)),
            None => spec_raw_reply(to@, cc@, subject@, body@, None),
        },
{
    match attachment {
        Some(a) => compose_reply_with_attachment(to, cc, subject, body, a),
        None => compose_plain_reply(to, cc, subject, body),
    }
}

/// Compose the reply and encode it whole for transport.
pub fn compose_encoded_reply(
    to: &str,
    cc: &str,
    subject: &str,
    body: &str,
    attachment: Option<&Attachment>,
) -> (r: String)
    ensures
        r@ == match attachment {
            Some(a) => urlsafe_b64_of(spec_raw_reply(to@, cc@, subject@, body@, Some(*a))),
            None => urlsafe_b64_of(spec_raw_reply(to@, cc@, subject@, body@, None)),
        },
{
    let raw = compose_raw_reply(to, cc, subject, body, attachment);
    urlsafe_encode(raw.as_str())
}

proof fn lemma_embedded(s: Seq<char>, pre: Seq<char>, x: Seq<char>, post: Seq<char>)
    requires
        s == pre + x + post,
    ensures
        contains_sub(s, x),
        s.subrange(pre.len() as int, pre.len() + x.len() as int) == x,
{
    assert(s.subrange(pre.len() as int, pre.len() + x.len() as int) =~= x);
}

/// The round-trip shape of a plain composed reply, before transport
/// encoding: the raw message carries a `Subject: Re: <subject>` header
/// line, and the body is the final run of the message.  Decoding the
/// transport encoding gives this raw message back (`decode_raw_message`),
/// so the same holds of a decoded draft.
#[verifier::rlimit(100)]
pub proof fn lemma_plain_reply_structure(
    to: Seq<char>,
    cc: Seq<char>,
    subject: Seq<char>,
    body: Seq<char>,
)
    ensures
        contains_sub(mime_plain(to, cc, subject, body), "Subject: Re: "@ + subject + "\r\n"@),
        mime_plain(to, cc, subject, body).subrange(
            mime_plain(to, cc, subject, body).len() - body.len(),
            mime_plain(to, cc, subject, body).len() as int,
        ) == body,
{
    let subj_line = "Subject: Re: "@ + subject + "\r\n"@;
    let cc_part = if cc.len() > 0 {
        "Cc: "@ + cc + "\r\n"@
    } else {
        Seq::<char>::empty()
    };
    let head_pre = "To: "@ + to + "\r\n"@ + cc_part;
    let plain = mime_plain(to, cc, subject, body);
    assert(plain == head_pre + subj_line + ("MIME-Version: 1.0\r\n"@ + "\r\n"@ + body)) by {
        assert(plain =~= head_pre + subj_line + ("MIME-Version: 1.0\r\n"@ + "\r\n"@ + body));
    }
    lemma_embedded(plain, head_pre, subj_line, "MIME-Version: 1.0\r\n"@ + "\r\n"@ + body);
    let body_pre = head_pre + subj_line + "MIME-Version: 1.0\r\n"@ + "\r\n"@;
    assert(plain == body_pre + body + Seq::<char>::empty()) by {
        assert(plain =~= body_pre + body + Seq::<char>::empty());
    }
    lemma_embedded(plain, body_pre, body, Seq::<char>::empty());
    assert(plain.len() - body.len() == body_pre.len());
}

/// The round-trip shape of a composed reply with an attachment, before
/// transport encoding: the raw message carries a `Subject: Re: <subject>`
/// header line, and it holds the plain-text body and then — after it —
/// the base64 attachment payload, each recoverable as a contiguous run.
/// Decoding the transport encoding gives this raw message back
/// (`decode_raw_message`), so the same holds of a decoded draft.
#[verifier::rlimit(100)]
pub proof fn lemma_attachment_reply_structure(
    to: Seq<char>,
    cc: Seq<char>,
    subject: Seq<char>,
    body: Seq<char>,
    mime_type: Seq<char>,
    filename: Seq<char>,
    data: Seq<u8>,
)
    ensures
        contains_sub(
            mime_with_attachment(to, cc, subject, body, mime_type, filename, data),
            "Subject: Re: "@ + subject + "\r\n"@,
        ),
        exists|i: int, j: int|
            0 <= i && i + body.len() <= j && j + std_b64_of(data).len() <= mime_with_attachment(
                to,
                cc,
                subject,
                body,
                mime_type,
                filename,
                data,
            ).len() && #[trigger] mime_with_attachment(
                to,
                cc,
                subject,
                body,
                mime_type,
                filename,
                data,
            ).subrange(i, i + body.len() as int) == body && #[trigger] mime_with_attachment(
                to,
                cc,
                subject,
                body,
                mime_type,
                filename,
                data,
            ).subrange(j, j + std_b64_of(data).len() as int) == std_b64_of(data),
{
    let subj_line = "Subject: Re: "@ + subject + "\r\n"@;
    let cc_part = if cc.len() > 0 {
        "Cc: "@ + cc + "\r\n"@
    } else {
        Seq::<char>::empty()
    };
    let head_pre = "To: "@ + to + "\r\n"@ + cc_part;
    let raw = mime_with_attachment(to, cc, subject, body, mime_type, filename, data);
    let payload = std_b64_of(data);
    let ct_decl = "Content-Type: multipart/mixed; boundary=\""@ + spec_boundary() + "\"\r\n"@;
    let head_tail = "MIME-Version: 1.0\r\n"@ + ct_decl + "\r\n"@ + spec_text_part(body)
        + spec_attachment_part(mime_type, filename, payload) + "--"@ + spec_boundary() + "--\r\n"@;
    assert(raw == head_pre + subj_line + head_tail) by {
        assert(raw =~= head_pre + subj_line + head_tail);
    }
    lemma_embedded(raw, head_pre, subj_line, head_tail);
    lemma_attachment_body_runs(to, cc, subject, body, mime_type, filename, data);
}

#[verifier::rlimit(100)]
proof fn lemma_attachment_body_runs(
    to: Seq<char>,
    cc: Seq<char>,
    subject: Seq<char>,
    body: Seq<char>,
    mime_type: Seq<char>,
    filename: Seq<char>,
    data: Seq<u8>,
)
    ensures
        exists|i: int, j: int|
            0 <= i && i + body.len() <= j && j + std_b64_of(data).len() <= mime_with_attachment(
                to,
                cc,
                subject,
                body,
                mime_type,
                filename,
                data,
            ).len() && #[trigger] mime_with_attachment(
                to,
                cc,
                subject,
                body,
                mime_type,
                filename,
                data,
            ).subrange(i, i + body.len() as int) == body && #[trigger] mime_with_attachment(
                to,
                cc,
                subject,
                body,
                mime_type,
                filename,
                data,
            ).subrange(j, j + std_b64_of(data).len() as int) == std_b64_of(data),
{
    let raw = mime_with_attachment(to, cc, subject, body, mime_type, filename, data);
    let payload = std_b64_of(data);
    let ct_decl = "Content-Type: multipart/mixed; boundary=\""@ + spec_boundary() + "\"\r\n"@;
    let pre1 = common_headers(to, cc, subject) + ct_decl + "\r\n"@ + ("--"@ + spec_boundary()
        + "\r\nContent-Type: text/plain; charset=\"UTF-8\"\r\n\r\n"@);
    let mid = "\r\n"@ + ("--"@ + spec_boundary() + "\r\nContent-Type: "@ + mime_type + "; name=\""@
        + filename + "\"\r\nContent-Disposition: attachment; filename=\""@ + filename
        + "\"\r\nContent-Transfer-Encoding: base64\r\n\r\n"@);
    let tail = "\r\n"@ + "--"@ + spec_boundary() + "--\r\n"@;
    assert(raw == pre1 + body + (mid + payload + tail)) by {
        assert(raw =~= pre1 + body + (mid + payload + tail));
    }
    lemma_embedded(raw, pre1, body, mid + payload + tail);
    assert(raw == (pre1 + body + mid) + payload + tail) by {
        assert(raw =~= (pre1 + body + mid) + payload + tail);
    }
    lemma_embedded(raw, pre1 + body + mid, payload, tail);
    let i = pre1.len() as int;
    let j = (pre1 + body + mid).len() as int;
    assert(0 <= i && i + body.len() <= j && j + payload.len() <= raw.len() && raw.subrange(
        i,
        i + body.len(),
    ) == body && raw.subrange(j, j + payload.len()) == payload);
}

/// In a composed reply with an attachment, the declared boundary's
/// delimiter line stands right after the plain-text body: the two parts
/// are separated by the boundary.
#[verifier::rlimit(100)]
pub proof fn lemma_boundary_separates_parts(
    to: Seq<char>,
    cc: Seq<char>,
    subject: Seq<char>,
    body: Seq<char>,
    mime_type: Seq<char>,
    filename: Seq<char>,
    data: Seq<u8>,
)
    ensures
        contains_sub(
            mime_with_attachment(to, cc, subject, body, mime_type, filename, data),
            body + "\r\n--"@ + spec_boundary(),
        ),
{
    let raw = mime_with_attachment(to, cc, subject, body, mime_type, filename, data);
    let payload = std_b64_of(data);
    let ct_decl = "Content-Type: multipart/mixed; boundary=\""@ + spec_boundary() + "\"\r\n"@;
    let pre1 = common_headers(to, cc, subject) + ct_decl + "\r\n"@ + ("--"@ + spec_boundary()
        + "\r\nContent-Type: text/plain; charset=\"UTF-8\"\r\n\r\n"@);
    let x = body + "\r\n--"@ + spec_boundary();
    let post = "\r\nContent-Type: "@ + mime_type + "; name=\""@ + filename
        + "\"\r\nContent-Disposition: attachment; filename=\""@ + filename
        + "\"\r\nContent-Transfer-Encoding: base64\r\n\r\n"@ + payload + "\r\n"@ + "--"@
        + spec_boundary() + "--\r\n"@;
    assert(raw == pre1 + x + post) by {
        reveal_strlit("\r\n--");
        reveal_strlit("\r\n");
        reveal_strlit("--");
        assert("\r\n--"@ =~= "\r\n"@ + "--"@);
        assert(raw =~= pre1 + x + post);
    }
    lemma_embedded(raw, pre1, x, post);
}

/// The draft-creation request for a thread and an encoded raw message.
pub fn build_draft_request(thread_id: &str, raw: String) -> (r: CreateDraftRequest)
    ensures
        r.message.thread_id@ == thread_id@,
        r.message.raw == raw,
{
    CreateDraftRequest { message: DraftMessage { thread_id: thread_id.to_owned(), raw } }
}

/// The label-change request that clears the unread marker.
pub fn build_mark_read_request() -> (r: ModifyMessageRequest)
    ensures
        r.remove_label_ids@.len() == 1,
        r.remove_label_ids@[0]@ == "UNREAD"@,
{
    let mut labels: Vec<String> = Vec::new();
    labels.push("UNREAD".to_owned());
    ModifyMessageRequest { remove_label_ids: labels }
}

} // verus!
