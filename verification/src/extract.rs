//! The body extractor: a depth-first, pre-order search of a message's MIME
//! part tree for the first `text/plain` payload.  The traversal visits a
//! node before its children and the children in their listed order, so the
//! selection is deterministic whatever the sibling order of other parts.

use vstd::prelude::*;

use crate::models::MessagePart;

verus! {

/// The payload of the first `text/plain` node with a payload, in
/// depth-first pre-order; `None` when no such node exists in the tree.
pub open spec fn first_plain_text(p: MessagePart) -> Option<Seq<char>>
    decreases p,
{
    if p.mime_type@ == "text/plain"@ && p.body.data is Some {
        Some(p.body.data->0@)
    } else {
        match p.parts {
            Some(children) => first_plain_text_in(children@),
            None => None,
        }
    }
}

/// The first `text/plain` payload found in a forest of parts, searching
/// the trees left to right.
pub open spec fn first_plain_text_in(ps: Seq<MessagePart>) -> Option<Seq<char>>
    decreases ps,
{
    if ps.len() == 0 {
        None
    } else {
        match first_plain_text(ps[0]) {
            Some(t) => Some(t),
            None => first_plain_text_in(ps.drop_first()),
        }
    }
}

/// Walk the part tree in depth-first pre-order and hand back the first
/// `text/plain` payload, or `None` when the tree has none.
pub fn find_plain_text_body(part: &MessagePart) -> (r: Option<&String>)
    ensures
        match r {
            Some(s) => first_plain_text(*part) == Some(s@),
            None => first_plain_text(*part) is None,
        },
    decreases *part,
{
    if crate::strutil::str_eq(part.mime_type.as_str(), "text/plain") {
        if let Some(data) = &part.body.data {
            return Some(data);
        }
    }
    if let Some(children) = &part.parts {
        let mut i: usize = 0;
        proof {
            assert(children@.skip(0) =~= children@);
        }
        while i < children.len()
            invariant
                0 <= i <= children@.len(),
                part.parts == Some(*children),
                !(part.mime_type@ == "text/plain"@ && part.body.data is Some),
                first_plain_text_in(children@) == first_plain_text_in(children@.skip(i as int)),
            decreases children@.len() - i,
        {
            proof {
                assert(children@.skip(i as int)[0] == children@[i as int]);
                assert(children@.skip(i as int).drop_first() =~= children@.skip(i as int + 1));
            }
            let sub = find_plain_text_body(&children[i]);
            if sub.is_some() {
                proof {
                    assert(first_plain_text_in(children@.skip(i as int)) == first_plain_text(
                        children@[i as int],
                    ));
                    assert(first_plain_text(*part) == first_plain_text_in(children@));
                }
                return sub;
            }
            i += 1;
        }
        proof {
            assert(children@.skip(i as int).len() == 0);
        }
        None
    } else {
        None
    }
}

/// The extracted body as text: the first plain-text payload, decoded from
/// its transport encoding; a fixed note when decoding fails or when the
/// tree has no plain-text part at all.
pub fn extract_body_text(part: &MessagePart) -> (r: String)
    ensures
        match first_plain_text(*part) {
            Some(d) => match crate::b64::urlsafe_decoded_text(d) {
                Some(t) => r@ == t,
                None => r@ == "Could not decode body."@,
            },
            None => r@ == "No plain text body found"@,
        },
{
    match find_plain_text_body(part) {
        Some(data) => match crate::b64::urlsafe_decode_text(data.as_str()) {
            Some(t) => t,
            None => "Could not decode body.".to_owned(),
        },
        None => "No plain text body found".to_owned(),
    }
}

} // verus!
