//! The transport encoding of a stored body: its UTF-8 bytes in base64, so
//! that any source text can stand inside a structured document.

use base64::Engine;
use vstd::prelude::*;
use vstd::string::StringSliceAdditionalSpecFns;
use vstd::utf8::{decode_utf8, encode_utf8, encode_utf8_decode_utf8, encode_utf8_valid_utf8, valid_utf8};

verus! {

#[verifier::external_type_specification]
#[verifier::external_body]
pub struct ExDecodeError(base64::DecodeError);

#[verifier::external_type_specification]
#[verifier::external_body]
pub struct ExFromUtf8Error(std::string::FromUtf8Error);

/// The standard base64 text, with padding, of a sequence of bytes.
pub uninterp spec fn base64_text(bytes: Seq<u8>) -> Seq<char>;

/// The bytes that a standard base64 text with padding stands for; `None`
/// where the text is none.
pub uninterp spec fn base64_bytes(text: Seq<char>) -> Option<Seq<u8>>;

/// `base64::engine::general_purpose::STANDARD.encode`: the contract names the
/// text that comes out and claims that the same engine decodes it to the
/// bytes that went in.
#[verifier::external_body]
fn base64_encode(bytes: &[u8]) -> (r: String)
    ensures
        r@ == base64_text(bytes@),
        base64_bytes(r@) == Some(bytes@),
{
    base64::engine::general_purpose::STANDARD.encode(bytes)
}

/// `base64::engine::general_purpose::STANDARD.decode`: the contract names the
/// bytes that come out, and says that the call fails where there are none.
#[verifier::external_body]
fn base64_decode(text: &str) -> (r: Result<Vec<u8>, base64::DecodeError>)
    ensures
        match r {
            Ok(bytes) => base64_bytes(text@) == Some(bytes@),
            Err(_) => base64_bytes(text@) is None,
        },
{
    base64::engine::general_purpose::STANDARD.decode(text)
}

/// `String::from_utf8`: succeeds on valid UTF-8 and on nothing else, and
/// yields the characters that the bytes encode.
#[verifier::external_body]
fn string_from_utf8(bytes: Vec<u8>) -> (r: Result<String, std::string::FromUtf8Error>)
    ensures
        r is Ok <==> valid_utf8(bytes@),
        r matches Ok(s) ==> s@ == decode_utf8(bytes@),
{
    String::from_utf8(bytes)
}

/// The encoded form of a text.
pub open spec fn encoded(text: Seq<char>) -> Seq<char> {
    base64_text(encode_utf8(text))
}

/// The text that an encoded form stands for; `None` where it is no base64 or
/// its bytes are no UTF-8.
pub open spec fn decoded(code: Seq<char>) -> Option<Seq<char>> {
    match base64_bytes(code) {
        None => None,
        Some(bytes) => if valid_utf8(bytes) {
            Some(decode_utf8(bytes))
        } else {
            None
        },
    }
}

/// Encodes a text for storage. Decoding what comes out gives the text back.
pub fn encode_body(text: &str) -> (code: String)
    ensures
        code@ == encoded(text@),
        decoded(code@) == Some(text@),
{
    let code = base64_encode(text.as_bytes());
    proof {
        encode_utf8_valid_utf8(text@);
        encode_utf8_decode_utf8(text@);
    }
    code
}

/// Decodes a stored text; `None` where it is no base64 or its bytes are no
/// UTF-8.
pub fn decode_body(code: &str) -> (text: Option<String>)
    ensures
        match text {
            Some(t) => decoded(code@) == Some(t@),
            None => decoded(code@) is None,
        },
{
    match base64_decode(code) {
        Err(_) => None,
        Ok(bytes) => match string_from_utf8(bytes) {
            Err(_) => None,
            Ok(text) => Some(text),
        },
    }
}

} // verus!
