use user_auth::utils::{base64decode, base64encode};
use user_auth::Error;

#[test]
fn base64encode_matches_known_text() {
    assert_eq!(base64encode(b"Hello, world!"), "SGVsbG8sIHdvcmxkIQ");
}

#[test]
fn base64encode_uses_url_alphabet_without_padding() {
    assert_eq!(base64encode(&[0xff, 0xfe]), "__4");
    assert_eq!(base64encode(b""), "");
}

#[test]
fn base64decode_reads_known_text() {
    assert_eq!(
        base64decode(&"SGVsbG8sIHdvcmxkIQ".to_string()),
        Ok("Hello, world!".to_string())
    );
}

#[test]
fn base64decode_gives_back_what_was_encoded() {
    for text in ["", "a", "password", "héllo wörld", "$argon2i$v=19"] {
        let encoded = base64encode(text.as_bytes());
        assert_eq!(base64decode(&encoded), Ok(text.to_string()));
    }
}

#[test]
fn base64decode_refuses_text_outside_the_alphabet() {
    assert_eq!(
        base64decode(&"not base64!".to_string()),
        Err(Error::Base64DecodeError)
    );
}

#[test]
fn base64decode_refuses_bytes_that_are_not_utf8() {
    assert_eq!(base64decode(&"__4".to_string()), Err(Error::Base64DecodeError));
}
