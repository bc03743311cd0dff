use vstd::prelude::*;
use vstd::utf8::*;

use crate::error::{Error, Result};

verus! {

broadcast use vstd::utf8::group_utf8_lib;

/// The Base64-URL text (URL-safe alphabet, no padding) that
/// `base64_url::encode` produces for `bytes`.
pub uninterp spec fn base64_url_text(bytes: Seq<u8>) -> Seq<char>;

/// The bytes that `base64_url::decode` recovers from `text`, or `None`
/// where it refuses the text.
pub uninterp spec fn base64_url_bytes(text: Seq<char>) -> Option<Seq<u8>>;

/// The characters of the Base64-URL alphabet.
pub open spec fn base64_url_char(c: char) -> bool {
    ||| 'A' <= c <= 'Z'
    ||| 'a' <= c <= 'z'
    ||| '0' <= c <= '9'
    ||| c == '-'
    ||| c == '_'
}

/// The shape of unpadded Base64-URL text for `n` bytes: four characters for
/// each three bytes, rounded up, all from the alphabet.
pub open spec fn base64_url_shaped(text: Seq<char>, n: nat) -> bool {
    &&& text.len() == (4 * n + 2) / 3
    &&& forall|i: int| 0 <= i < text.len() ==> base64_url_char(#[trigger] text[i])
}

/// The text that `base64decode` yields for `text`: the Base64-URL decoding
/// of `text` read as UTF-8, or `None` where either step fails.
pub open spec fn decoded_text(text: Seq<char>) -> Option<Seq<char>> {
    match base64_url_bytes(text) {
        Some(bytes) => if valid_utf8(bytes) {
            Some(decode_utf8(bytes))
        } else {
            None
        },
        None => None,
    }
}

/// Calls `base64_url::encode`. Trusted: the result is the named encoding of
/// the input, written without padding in the URL-safe alphabet, and
/// `base64_url::decode` gives the input back from it (both go through the
/// same `URL_SAFE_NO_PAD` engine of the `base64` crate).
#[verifier::external_body]
fn base64_url_encode(bytes: &[u8]) -> (text: String)
    ensures
        text@ == base64_url_text(bytes@),
        base64_url_shaped(text@, bytes@.len()),
        base64_url_bytes(text@) == Some(bytes@),
{
    base64_url::encode(bytes)
}

/// Calls `base64_url::decode`. Trusted: `Some` exactly where the crate
/// decodes the text, with the named bytes; its `DecodeError` becomes `None`.
#[verifier::external_body]
pub(crate) fn base64_url_decode(text: &str) -> (bytes: Option<Vec<u8>>)
    ensures
        match bytes {
            Some(b) => base64_url_bytes(text@) == Some(b@),
            None => base64_url_bytes(text@) is None,
        },
{
    match base64_url::decode(text) {
        Ok(b) => Some(b),
        Err(_) => None,
    }
}

/// Calls `String::from_utf8`. Trusted, as std documents it: the bytes are
/// taken as the string exactly when they are valid UTF-8.
#[verifier::external_body]
fn string_from_utf8(bytes: Vec<u8>) -> (s: Option<String>)
    ensures
        match s {
            Some(s) => valid_utf8(bytes@) && s@ == decode_utf8(bytes@),
            None => !valid_utf8(bytes@),
        },
{
    String::from_utf8(bytes).ok()
}

/// Encodes `content` as Base64-URL text without padding.
///
/// Whatever is encoded here decodes back to itself, and UTF-8 content comes
/// back from `base64decode` as the same text.
pub fn base64encode(content: &[u8]) -> (encoded: String)
    ensures
        encoded@ == base64_url_text(content@),
        base64_url_shaped(encoded@, content@.len()),
        base64_url_bytes(encoded@) == Some(content@),
        valid_utf8(content@) ==> decoded_text(encoded@) == Some(decode_utf8(content@)),
{
    base64_url_encode(content)
}

/// Decodes Base64-URL text into a UTF-8 string.
pub fn base64decode(b64u: &String) -> (r: Result<String>)
    ensures
        match decoded_text(b64u@) {
            Some(text) => r matches Ok(s) && s@ == text,
            None => r matches Err(Error::Base64DecodeError),
        },
{
    let bytes = match base64_url_decode(b64u.as_str()) {
        Some(b) => b,
        None => return Err(Error::Base64DecodeError),
    };
    match string_from_utf8(bytes) {
        Some(s) => Ok(s),
        None => Err(Error::Base64DecodeError),
    }
}

/// Whether the two texts are the same.
pub(crate) fn same_text(a: &str, b: &str) -> (r: bool)
    ensures
        r == (a@ == b@),
{
    let a_owned = a.to_owned();
    let b_owned = b.to_owned();
    a_owned == b_owned
}

} // verus!
