//! The classifier's verdict.  The language model answers with text; the
//! three recognized tokens are matched after trimming and without regard
//! to ASCII case, and any other answer is an explicit `Unrecognized`
//! outcome, which the pipeline treats as "skip".

use vstd::prelude::*;

use crate::strutil::{eq_ci, str_eq_ci, str_trim, trimmed};

verus! {

/// The classification outcome for one inbound message.
#[derive(PartialEq, Eq, Structural, Clone, Copy, Debug)]
pub enum Verdict {
    /// The message needs no personal reply; it is left untouched.
    NoReplyNeeded,
    /// The message needs a personal reply.
    NeedsReply,
    /// The message needs a reply with a file attached.
    NeedsReplyWithFile,
    /// The model's answer matched no recognized token; treated as "skip".
    Unrecognized,
}

/// The verdict a model answer stands for: the recognized tokens are
/// `YES`, `NO` and `IS_FILE_REQUEST`, matched after trimming and up to
/// ASCII case.
pub open spec fn spec_verdict(text: Seq<char>) -> Verdict {
    if eq_ci(trimmed(text), "YES"@) {
        Verdict::NeedsReply
    } else if eq_ci(trimmed(text), "NO"@) {
        Verdict::NoReplyNeeded
    } else if eq_ci(trimmed(text), "IS_FILE_REQUEST"@) {
        Verdict::NeedsReplyWithFile
    } else {
        Verdict::Unrecognized
    }
}

/// Parse the model's answer into a verdict.
pub fn parse_verdict(text: &str) -> (r: Verdict)
    ensures
        r == spec_verdict(text@),
{
    let t = str_trim(text);
    if str_eq_ci(t, "YES") {
        Verdict::NeedsReply
    } else if str_eq_ci(t, "NO") {
        Verdict::NoReplyNeeded
    } else if str_eq_ci(t, "IS_FILE_REQUEST") {
        Verdict::NeedsReplyWithFile
    } else {
        Verdict::Unrecognized
    }
}

} // verus!
