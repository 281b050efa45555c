//! The negotiation token: the text that one person copies and the other
//! pastes. It is the payload's UTF-8 bytes in base64, standard alphabet with
//! padding, so that it survives any text field.

use vstd::prelude::*;
use vstd::utf8::{decode_utf8, encode_utf8, valid_utf8};
use crate::error::NegotiationError;

verus! {

/// `base64::DecodeError`, why a text is not base64. Carried, never read.
#[verifier::external_type_specification]
#[verifier::external_body]
pub struct ExDecodeError(base64::DecodeError);

/// `std::string::FromUtf8Error`, why bytes are not text. Carried, never
/// read.
#[verifier::external_type_specification]
#[verifier::external_body]
pub struct ExFromUtf8Error(std::string::FromUtf8Error);

/// The base64 text of a byte string: what `base64::encode` returns for it.
pub uninterp spec fn base64_text(bytes: Seq<u8>) -> Seq<char>;

/// The bytes that a text stands for in base64, if it is well formed: what
/// `base64::decode` returns for it.
pub uninterp spec fn base64_bytes(text: Seq<char>) -> Option<Seq<u8>>;

/// Whether a character is a letter, a digit, `+` or `/` of the standard
/// alphabet, or the padding sign `=`.
pub open spec fn is_base64_char(c: char) -> bool {
    let code = c as u32;
    ||| 0x41 <= code <= 0x5a
    ||| 0x61 <= code <= 0x7a
    ||| 0x30 <= code <= 0x39
    ||| code == 0x2b
    ||| code == 0x2f
    ||| code == 0x3d
}

/// Whether a text holds nothing but such characters, so that it can be
/// pasted into any text field.
pub open spec fn is_base64_text(text: Seq<char>) -> bool {
    forall|i: int| 0 <= i < text.len() ==> is_base64_char(#[trigger] text[i])
}

/// `base64::encode`: the standard, padded encoding of `bytes`, which is
/// written in the standard alphabet and the padding sign alone and decodes
/// to `bytes` again. The length of its result must fit in `usize`.
#[verifier::external_body]
#[allow(deprecated)]
fn base64_encode(bytes: &[u8]) -> (text: String)
    requires
        bytes@.len() / 3 * 4 + 4 <= usize::MAX,
    ensures
        text@ == base64_text(bytes@),
        is_base64_text(text@),
        base64_bytes(text@) == Some(bytes@),
{
    base64::encode(bytes)
}

/// `base64::decode`: the bytes of a well-formed text, an error for any other.
#[verifier::external_body]
#[allow(deprecated)]
fn base64_decode(text: &str) -> (bytes: Result<Vec<u8>, base64::DecodeError>)
    ensures
        match bytes {
            Ok(bytes) => base64_bytes(text@) == Some(bytes@),
            Err(_) => base64_bytes(text@).is_none(),
        },
{
    base64::decode(text)
}

/// `String::from_utf8`: the text of bytes that are valid UTF-8, an error for
/// any others.
#[verifier::external_body]
fn text_from_utf8(bytes: Vec<u8>) -> (text: Result<String, std::string::FromUtf8Error>)
    ensures
        match text {
            Ok(text) => valid_utf8(bytes@) && text@ == decode_utf8(bytes@),
            Err(_) => !valid_utf8(bytes@),
        },
{
    String::from_utf8(bytes)
}

/// The token that carries `payload`.
pub open spec fn token_of(payload: Seq<char>) -> Seq<char> {
    base64_text(encode_utf8(payload))
}

/// The payload that a token carries. A text that is not base64, or whose
/// bytes are not UTF-8, carries none.
pub open spec fn payload_of(token: Seq<char>) -> Option<Seq<char>> {
    match base64_bytes(token) {
        Some(bytes) if valid_utf8(bytes) => Some(decode_utf8(bytes)),
        _ => None,
    }
}

/// Whether a payload is short enough for its token's length to fit in
/// `usize`.
pub open spec fn fits_token(payload: Seq<char>) -> bool {
    encode_utf8(payload).len() / 3 * 4 + 4 <= usize::MAX
}

/// Wraps a payload into a token that is safe to paste anywhere. Decoding
/// the token gives the payload back.
pub fn encode_token(payload: &str) -> (token: String)
    requires
        fits_token(payload@),
    ensures
        token@ == token_of(payload@),
        is_base64_text(token@),
        payload_of(token@) == Some(payload@),
{
    proof {
        vstd::utf8::encode_utf8_valid_utf8(payload@);
        vstd::utf8::encode_utf8_decode_utf8(payload@);
    }
    base64_encode(payload.as_bytes())
}

/// Unwraps a token. All or nothing: the whole payload, or `DecodeFailed`
/// for a text that carries none.
pub fn decode_token(token: &str) -> (payload: Result<String, NegotiationError>)
    ensures
        match payload {
            Ok(payload) => payload_of(token@) == Some(payload@),
            Err(error) => error == NegotiationError::DecodeFailed && payload_of(token@).is_none(),
        },
{
    match base64_decode(token) {
        Ok(bytes) => match text_from_utf8(bytes) {
            Ok(payload) => Ok(payload),
            Err(_) => Err(NegotiationError::DecodeFailed),
        },
        Err(_) => Err(NegotiationError::DecodeFailed),
    }
}

} // verus!
