//! The transport encoding: base64 as the outside `base64` crate computes
//! it.  The encodings are named, not restated — each spec function below
//! stands for what one engine of that crate returns — and decoding a value
//! that is such an encoding gives the encoded input back.

use vstd::prelude::*;

use base64::Engine;

verus! {

/// What `base64`'s `Engine::encode` returns under the URL-safe padded
/// engine, as a function of the encoded string's characters.
pub uninterp spec fn urlsafe_b64_of(s: Seq<char>) -> Seq<char>;

/// What decoding with the URL-safe padded engine and reading the bytes as
/// UTF-8 (lossily) yields: `None` exactly when decoding fails.
pub uninterp spec fn urlsafe_decoded_text(s: Seq<char>) -> Option<Seq<char>>;

/// What `base64`'s `Engine::encode` returns under the standard padded
/// engine.
pub uninterp spec fn std_b64_of(b: Seq<u8>) -> Seq<char>;

/// Relies on base64's `Engine::encode` with the `URL_SAFE` engine: the
/// result is a function of the input bytes, hence of the string's
/// characters.
#[verifier::external_body]
pub(crate) fn urlsafe_encode(s: &str) -> (r: String)
    ensures
        r@ == urlsafe_b64_of(s@),
{
    base64::engine::general_purpose::URL_SAFE.encode(s.as_bytes())
}

/// Relies on base64's `Engine::decode` with the `URL_SAFE` engine and on
/// `String::from_utf8_lossy`: both are functions of the input alone, and
/// decoding an encoding of a string gives that string back.
#[verifier::external_body]
pub(crate) fn urlsafe_decode_text(s: &str) -> (r: Option<String>)
    ensures
        match r {
            Some(t) => urlsafe_decoded_text(s@) == Some(t@),
            None => urlsafe_decoded_text(s@) is None,
        },
        forall|t: Seq<char>| s@ == urlsafe_b64_of(t) ==> r is Some && r->0@ == t,
{
    match base64::engine::general_purpose::URL_SAFE.decode(s.as_bytes()) {
        Ok(bytes) => Some(String::from_utf8_lossy(&bytes).into_owned()),
        Err(_) => None,
    }
}

/// Relies on base64's `Engine::encode` with the `STANDARD` engine: the
/// result is a function of the input bytes.
#[verifier::external_body]
pub(crate) fn std_b64_encode(b: &[u8]) -> (r: String)
    ensures
        r@ == std_b64_of(b@),
{
    base64::engine::general_purpose::STANDARD.encode(b)
}

/// Relies on base64's `Engine::decode` with the `STANDARD` engine:
/// decoding an encoding of some bytes gives those bytes back.
#[verifier::external_body]
pub(crate) fn std_b64_decode(s: &str) -> (r: Option<Vec<u8>>)
    ensures
        forall|b: Seq<u8>| s@ == std_b64_of(b) ==> r is Some && r->0@ == b,
{
    match base64::engine::general_purpose::STANDARD.decode(s.as_bytes()) {
        Ok(v) => Some(v),
        Err(_) => None,
    }
}

/// Decode a transport-encoded raw message back to text.  Decoding what
/// `urlsafe_b64_of` produced yields the original message.
pub fn decode_raw_message(enc: &str) -> (r: Option<String>)
    ensures
        forall|t: Seq<char>| enc@ == urlsafe_b64_of(t) ==> r is Some && r->0@ == t,
{
    urlsafe_decode_text(enc)
}

/// Decode a standard-base64 payload, such as an attachment part's body,
/// back to bytes.  Decoding what `std_b64_of` produced yields the
/// original bytes.
pub fn decode_base64_payload(s: &str) -> (r: Option<Vec<u8>>)
    ensures
        forall|b: Seq<u8>| s@ == std_b64_of(b) ==> r is Some && r->0@ == b,
{
    std_b64_decode(s)
}

} // verus!
