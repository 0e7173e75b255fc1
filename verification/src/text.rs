//! Text decoding for strings handed back by the runtime. The foreign calls
//! return C strings; the embedding program copies the bytes (without the
//! terminator) out of the call's scope and this module decides whether they
//! form valid text. Invalid encoding is a typed error, never a lossy
//! conversion.

use vstd::prelude::*;

use crate::codes::MndResult;

verus! {

/// What `String::from_utf8` decodes a byte sequence to: the text, where the
/// bytes are valid UTF-8, and nothing otherwise. The result depends on the
/// bytes alone.
pub uninterp spec fn decoded_utf8(bytes: Seq<u8>) -> Option<Seq<char>>;

/// Relies on String::from_utf8: it returns the string decoded from the
/// bytes exactly when they are valid UTF-8, and an error otherwise.
#[verifier::external_body]
fn utf8_to_string(raw: Vec<u8>) -> (r: Option<String>)
    ensures
        (match decoded_utf8(raw@) {
            Some(s) => r matches Some(t) && t@ == s,
            None => r is None,
        }),
{
    String::from_utf8(raw).ok()
}

/// Decode a copied text buffer from the runtime into an owned string, or
/// fail with `ErrorInvalidValue` when the bytes are not valid text.
pub fn decode_text(raw: Vec<u8>) -> (r: Result<String, MndResult>)
    ensures
        decoded_utf8(raw@) matches Some(s) ==> (r matches Ok(t) && t@ == s),
        decoded_utf8(raw@) is None ==> (r matches Err(e) && e == MndResult::ErrorInvalidValue),
{
    match utf8_to_string(raw) {
        Some(s) => Ok(s),
        None => Err(MndResult::ErrorInvalidValue),
    }
}

} // verus!
