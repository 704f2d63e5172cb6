//! The outside codecs the protocol leans on: the standard base64 engine
//! and lossy text decoding of identifier bytes. Each call stands behind a
//! trusted wrapper; what it returns is named, never restated.

use vstd::prelude::*;

verus! {

/// What the standard base64 engine decodes a byte text to: the decoded
/// bytes, or nothing on malformed input.
pub uninterp spec fn base64_decoding(s: Seq<u8>) -> Option<Seq<u8>>;

/// The base64 text (as ASCII bytes) that the standard engine encodes a
/// byte sequence to.
pub uninterp spec fn base64_encoding(b: Seq<u8>) -> Seq<u8>;

/// The text that lossy UTF-8 decoding makes of a byte sequence, invalid
/// sequences replaced rather than rejected.
pub uninterp spec fn lossy_text(b: Seq<u8>) -> Seq<char>;

/// Relies on base64::Engine::decode with the STANDARD engine: the result
/// is a function of the input bytes alone, and malformed input (wrong
/// alphabet or padding) gives an error, which this wrapper folds to None.
#[verifier::external_body]
pub(crate) fn decode_base64(input: &Vec<u8>) -> (r: Option<Vec<u8>>)
    ensures
        r matches Some(d) ==> base64_decoding(input@) == Some(d@),
        r is None ==> base64_decoding(input@) is None,
{
    base64::Engine::decode(&base64::engine::general_purpose::STANDARD, input).ok()
}

/// Relies on base64::Engine::encode with the STANDARD engine: it encodes
/// arbitrary octets as base64 text, a function of the input alone, and
/// decoding that text with the same engine gives the input back.
#[verifier::external_body]
pub(crate) fn encode_base64(input: &Vec<u8>) -> (r: Vec<u8>)
    ensures
        r@ == base64_encoding(input@),
        base64_decoding(r@) == Some(input@),
{
    base64::Engine::encode(&base64::engine::general_purpose::STANDARD, input).into_bytes()
}

/// Relies on String::from_utf8_lossy: the text is a function of the bytes
/// alone; invalid UTF-8 sequences are replaced, never an error.
#[verifier::external_body]
pub(crate) fn lossy_decode(bytes: &Vec<u8>) -> (r: String)
    ensures
        r@ == lossy_text(bytes@),
{
    String::from_utf8_lossy(bytes).into_owned()
}

} // verus!
