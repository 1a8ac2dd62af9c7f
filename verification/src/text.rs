//! Text fields: how bytes become a `String` and back.

use vstd::prelude::*;
use vstd::utf8::*;

verus! {

/// What lossy conversion makes of a byte sequence that is not valid UTF-8:
/// the text in which every malformed part has given way to U+FFFD.
pub uninterp spec fn lossy_repair(bytes: Seq<u8>) -> Seq<char>;

/// The text that a byte sequence stands for. Valid UTF-8 decodes to its
/// characters; anything else is repaired lossily.
pub open spec fn text_of(bytes: Seq<u8>) -> Seq<char> {
    if valid_utf8(bytes) {
        decode_utf8(bytes)
    } else {
        lossy_repair(bytes)
    }
}

/// The bytes that a text is stored as.
pub open spec fn bytes_of(text: Seq<char>) -> Seq<u8> {
    encode_utf8(text)
}

/// What a length-prefixed text is stored as: one byte of length, 255 at
/// most, and that many bytes of the text.
pub open spec fn short_text_bytes(text: Seq<char>) -> Seq<u8> {
    let bytes = bytes_of(text);
    let len = if bytes.len() < 255 {
        bytes.len()
    } else {
        255
    };
    seq![len as u8] + bytes.take(len as int)
}

/// An optional string as an optional text.
pub open spec fn option_text(text: Option<String>) -> Option<Seq<char>> {
    match text {
        Some(s) => Some(s@),
        None => None,
    }
}

/// What an optional text is stored as: its bytes, or nothing.
pub open spec fn option_text_bytes(text: Option<Seq<char>>) -> Seq<u8> {
    match text {
        Some(t) => bytes_of(t),
        None => Seq::<u8>::empty(),
    }
}

/// Calls `String::from_utf8_lossy` and takes ownership of what it returns.
///
/// Trusted: on valid UTF-8 the result is the decoded text, unchanged; on
/// any other input it is a function of the bytes alone, named
/// `lossy_repair` here and otherwise left unstated.
#[verifier::external_body]
pub(crate) fn lossy_string(bytes: &[u8]) -> (text: String)
    ensures
        text@ == if valid_utf8(bytes@) {
            decode_utf8(bytes@)
        } else {
            lossy_repair(bytes@)
        },
{
    String::from_utf8_lossy(bytes).into_owned()
}

/// Storing a text and reading it back gives the same text.
pub proof fn lemma_text_of_bytes_of(text: Seq<char>)
    ensures
        text_of(bytes_of(text)) == text,
{
    encode_utf8_valid_utf8(text);
    encode_utf8_decode_utf8(text);
}

} // verus!
