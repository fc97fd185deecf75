//! The language-model collaborator's shapes, handled in verified code:
//! building a request from a prompt, reading the answer text out of a
//! response, and the message each error status maps to.  The HTTP call
//! itself lives in the host layer.

use vstd::prelude::*;

use crate::models::{Content, GeminiRequest, GeminiResponse, Part};
use crate::strutil::{dec_str, u64_to_dec};

verus! {

/// A model request holds the prompt as its single part.
pub fn build_gemini_request(prompt: &str) -> (r: GeminiRequest)
    ensures
        r.contents@.len() == 1,
        r.contents@[0].parts@.len() == 1,
        r.contents@[0].parts@[0].text@ == prompt@,
{
    let mut parts: Vec<Part> = Vec::new();
    parts.push(Part { text: prompt.to_owned() });
    let mut contents: Vec<Content> = Vec::new();
    contents.push(Content { parts });
    GeminiRequest { contents }
}

/// A response carries usable text when it has a candidate with a part.
pub open spec fn spec_has_text(resp: GeminiResponse) -> bool {
    resp.candidates@.len() > 0 && resp.candidates@[0].content.parts@.len() > 0
}

/// The answer text of a response: the first part of the first candidate.
pub open spec fn spec_response_text(resp: GeminiResponse) -> Seq<char> {
    resp.candidates@[0].content.parts@[0].text@
}

/// Read the answer text out of a model response: the first part of the
/// first candidate, or an error when the response carries none.
pub fn extract_gemini_text(resp: &GeminiResponse) -> (r: Result<String, String>)
    ensures
        spec_has_text(*resp) ==> (r matches Ok(t) && t@ == spec_response_text(*resp)),
        !spec_has_text(*resp) ==> (r matches Err(e) && e@
            == "Could not extract text from Gemini response"@),
{
    if resp.candidates.len() > 0 {
        let candidate = &resp.candidates[0];
        if candidate.content.parts.len() > 0 {
            return Ok(crate::models::dup_str(&candidate.content.parts[0].text));
        }
    }
    Err("Could not extract text from Gemini response".to_owned())
}

/// The message reported for a failed model call with the given HTTP
/// status and response text.
pub open spec fn spec_gemini_error(status: int, error_text: Seq<char>) -> Seq<char> {
    if status == 401 {
        "Invalid API Key"@
    } else if status == 403 {
        "Refresh token is no longer valid or has been revoked"@
    } else if status == 429 {
        "Rate limit exceeded"@
    } else {
        "Gemini API Error: "@ + error_text + "/Status: "@ + dec_str(status as nat)
    }
}

/// Map a failed model call to its report: unauthorized means the key is
/// bad, forbidden a revoked credential, too-many-requests a rate limit,
/// and anything else a generic failure naming the status.
pub fn gemini_error_message(status: u16, error_text: &str) -> (r: String)
    ensures
        r@ == spec_gemini_error(status as int, error_text@),
{
    if status == 401 {
        "Invalid API Key".to_owned()
    } else if status == 403 {
        "Refresh token is no longer valid or has been revoked".to_owned()
    } else if status == 429 {
        "Rate limit exceeded".to_owned()
    } else {
        let mut r = String::new();
        r.append("Gemini API Error: ");
        r.append(error_text);
        r.append("/Status: ");
        let code = u64_to_dec(status as u64);
        r.append(code.as_str());
        proof {
            assert(r@ =~= spec_gemini_error(status as int, error_text@));
        }
        r
    }
}

} // verus!
