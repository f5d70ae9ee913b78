//! Standard base64, as the `base64` crate computes it.

use base64::Engine;
use vstd::prelude::*;
use crate::error::{Failure, StoreError};
use crate::text::{trim, trimmed};

verus! {

/// The bytes that the crate's `STANDARD` engine decodes `text` to, or `None`
/// where it reports an error.
pub uninterp spec fn standard_decoding(text: Seq<char>) -> Option<Seq<u8>>;

/// The text by which the crate describes the error that its `STANDARD`
/// engine reports on `text`.
pub uninterp spec fn standard_decoding_error(text: Seq<char>) -> Seq<char>;

/// The text that the crate's `STANDARD` engine encodes `bytes` to.
pub uninterp spec fn standard_encoding(bytes: Seq<u8>) -> Seq<char>;

/// Calls `Engine::decode` on the `STANDARD` engine and, on its error,
/// `to_string`, which formats the error by the crate's `Display` impl.
/// Trusted: both return the same for the same text, which gives the bytes
/// the name `standard_decoding` and the error's text the name
/// `standard_decoding_error`. The call returns on every text.
#[verifier::external_body]
fn decode_standard(text: &str) -> (r: Result<Vec<u8>, String>)
    ensures
        match r {
            Ok(bytes) => standard_decoding(text@) == Some(bytes@),
            Err(message) => standard_decoding(text@) is None && message@
                == standard_decoding_error(text@),
        },
{
    match base64::engine::general_purpose::STANDARD.decode(text) {
        Ok(bytes) => Ok(bytes),
        Err(error) => Err(error.to_string()),
    }
}

/// Whether the encoded form of `len` bytes, padding included, has a length
/// that fits in `usize`.
pub open spec fn encodable(len: nat) -> bool {
    len / 3 * 4 + (if len % 3 > 0 {
        4int
    } else {
        0int
    }) <= usize::MAX
}

/// Whether the encoded form of `len` bytes has a length that fits in `usize`.
pub fn is_encodable(len: usize) -> (r: bool)
    ensures
        r == encodable(len as nat),
{
    let quads: usize = len / 3;
    if len % 3 > 0 {
        quads <= (usize::MAX - 4) / 4
    } else {
        quads <= usize::MAX / 4
    }
}

/// Calls `Engine::encode` on the `STANDARD` engine. Trusted: the call
/// returns the same for the same bytes, which gives its result the name
/// `standard_encoding`. The crate panics where the encoded length overflows
/// `usize`; `requires` leaves those inputs out.
#[verifier::external_body]
pub(crate) fn encode_standard(bytes: &Vec<u8>) -> (r: String)
    requires
        encodable(bytes@.len()),
    ensures
        r@ == standard_encoding(bytes@),
{
    base64::engine::general_purpose::STANDARD.encode(bytes)
}

/// What decoding `payload` comes to: the bytes that it stands for in
/// standard base64 once the white space around it is set aside, or a
/// `Decode` failure with the decoder's description of what is wrong.
pub open spec fn decoded(payload: Seq<char>) -> Result<Seq<u8>, Failure> {
    match standard_decoding(trimmed(payload)) {
        Some(bytes) => Ok(bytes),
        None => Err(Failure::Decode(standard_decoding_error(trimmed(payload)))),
    }
}

/// The bytes that `payload`, without the white space around it, stands for
/// in standard base64; a `Decode` error with the decoder's description
/// where it stands for none.
pub fn decode_payload(payload: &str) -> (r: Result<Vec<u8>, StoreError>)
    ensures
        match r {
            Ok(bytes) => decoded(payload@) == Ok::<Seq<u8>, Failure>(bytes@),
            Err(e) => decoded(payload@) == Err::<Seq<u8>, Failure>(e@),
        },
{
    let data = trim(payload);
    match decode_standard(data.as_str()) {
        Ok(bytes) => Ok(bytes),
        Err(message) => Err(StoreError::Decode(message)),
    }
}

} // verus!
