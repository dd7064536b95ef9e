//! Decoding captured output bytes into text.
//!
//! A sandboxed run hands its captured standard-stream bytes back as plain
//! byte buffers; what reports them to the caller needs them as text.  The
//! decoding contract is stated against the UTF-8 model in `vstd::utf8`.

use vstd::prelude::*;
use vstd::utf8::{decode_utf8, valid_utf8};

verus! {

/// Relies on std's `String::from_utf8`: yields the decoded string exactly
/// when the bytes are valid UTF-8, and hands the bytes back untouched
/// otherwise (taken from the error via `FromUtf8Error::into_bytes`).
#[verifier::external_body]
fn bytes_to_string(bytes: Vec<u8>) -> (r: Result<String, Vec<u8>>)
    ensures
        r is Ok <==> valid_utf8(bytes@),
        r matches Ok(s) ==> s@ == decode_utf8(bytes@),
        r matches Err(b) ==> b@ == bytes@,
{
    String::from_utf8(bytes).map_err(|e| e.into_bytes())
}

/// Extracts a string from the byte buffer captured by one virtualized
/// standard stream, where the buffer is absent when the stream's guard
/// could not be read.
///
/// Returns nothing when the buffer is absent; the decoded string when the
/// bytes are valid UTF-8; and the raw bytes back otherwise.
pub fn extract_string(buffer: Option<Vec<u8>>) -> (r: Option<Result<String, Vec<u8>>>)
    ensures
        r is Some <==> buffer is Some,
        buffer matches Some(b) ==> (match r {
            Some(Ok(s)) => valid_utf8(b@) && s@ == decode_utf8(b@),
            Some(Err(back)) => !valid_utf8(b@) && back@ == b@,
            None => false,
        }),
{
    match buffer {
        None => None,
        Some(bytes) => Some(bytes_to_string(bytes)),
    }
}

} // verus!
