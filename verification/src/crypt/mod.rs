pub mod error;

pub use self::error::{ArgonError, Error, Result};

use vstd::prelude::*;
use vstd::utf8::*;
use vstd::std_specs::iter::IteratorSpec;
use hmac::Mac;
use rand::RngCore;

use argon2::Error as E;
use self::error::ArgonError as A;
use crate::utils::{base64_url_bytes, base64_url_shaped, base64_url_text, base64decode, base64encode, decoded_text, same_text};

verus! {

broadcast use vstd::utf8::group_utf8_lib;

/// What `argon2::hash_encoded` writes after its parameter fields
/// (`$argon2i$v=19$m=4096,t=3,p=1$`) when it hashes `pwd` with `salt` under
/// `argon2::Config::default()`: the salt and the hash in standard Base64
/// without padding, separated by `$`.
pub uninterp spec fn argon2i_hash_fields(pwd: Seq<u8>, salt: Seq<u8>) -> Seq<char>;

/// The 64-byte HMAC-SHA-512 tag of `msg` under `key`.
pub uninterp spec fn hmac_sha512_tag(key: Seq<u8>, msg: Seq<u8>) -> Seq<u8>;

/// Why `argon2::hash_encoded` refuses `pwd` and `salt` under its default
/// configuration, in the order in which `Context::new` checks: a password
/// longer than 32 bits can count, then a salt under 8 bytes or over 32 bits.
pub open spec fn argon2_refusal(pwd: Seq<u8>, salt: Seq<u8>) -> Option<ArgonError> {
    if pwd.len() > 0xFFFF_FFFF {
        Some(ArgonError::PwdTooLong)
    } else if salt.len() < 8 {
        Some(ArgonError::SaltTooShort)
    } else if salt.len() > 0xFFFF_FFFF {
        Some(ArgonError::SaltTooLong)
    } else {
        None
    }
}

/// Inputs that `argon2::hash_encoded` accepts under its default
/// configuration.
pub open spec fn argon2_accepts(pwd: Seq<u8>, salt: Seq<u8>) -> bool {
    argon2_refusal(pwd, salt) is None
}

/// The parameter fields that start every hash under the default
/// configuration: variant, version, memory, passes and lanes.
pub open spec fn argon2i_default_fields() -> Seq<char> {
    "$argon2i$v=19$m=4096,t=3,p=1$"@
}

/// Every encoded hash starts like an Argon2i hash.
proof fn lemma_hash_text_starts_argon2i(rest: Seq<char>)
    ensures
        "$argon2i$"@.is_prefix_of(argon2i_default_fields() + rest),
{
    reveal_strlit("$argon2i$");
    reveal_strlit("$argon2i$v=19$m=4096,t=3,p=1$");
    let whole = argon2i_default_fields() + rest;
    assert(whole.subrange(0, 9) =~= "$argon2i$"@);
}

/// The encoded Argon2i hash: the parameter fields, then the salt and the
/// hash (`argon2i_hash_fields`).
pub open spec fn argon2i_hash_text(pwd: Seq<u8>, salt: Seq<u8>) -> Seq<char> {
    argon2i_default_fields() + argon2i_hash_fields(pwd, salt)
}

/// A lower-case hexadecimal digit.
pub open spec fn lower_hex_digit(c: char) -> bool {
    ('0' <= c <= '9') || ('a' <= c <= 'f')
}

/// The text of a version-4 UUID in hyphenated form: 36 ASCII characters,
/// hyphens at 8, 13, 18 and 23, lower-case hexadecimal digits elsewhere,
/// the version digit `4` at 14 and a variant digit of `8`, `9`, `a` or `b`
/// at 19.
pub open spec fn uuid_text(s: Seq<char>) -> bool {
    &&& s.len() == 36
    &&& is_ascii_chars(s)
    &&& forall|i: int|
        0 <= i < 36 ==> if i == 8 || i == 13 || i == 18 || i == 23 {
            #[trigger] s[i] == '-'
        } else {
            lower_hex_digit(s[i])
        }
    &&& s[14] == '4'
    &&& s[19] == '8' || s[19] == '9' || s[19] == 'a' || s[19] == 'b'
}

/// Calls `argon2::hash_encoded` with `argon2::Config::default()` (Argon2i,
/// version 0x13, 4096 KiB, 3 passes, 1 lane, 32-byte hash) and gives its
/// error as the variant of the same name. Trusted: with that configuration
/// `Context::new` refuses only the lengths of `argon2_refusal`, in that
/// order, and otherwise the result is the encoded hash, which
/// `encode_string` starts with the fields of that configuration.
#[verifier::external_body]
fn argon2_hash_encoded(pwd: &[u8], salt: &[u8]) -> (r: core::result::Result<String, ArgonError>)
    ensures
        r matches Ok(s) ==> s@ == "$argon2i$v=19$m=4096,t=3,p=1$"@ + argon2i_hash_fields(pwd@, salt@),
        r matches Err(e) ==> argon2_refusal(pwd@, salt@) == Some(e),
        r is Ok <==> argon2_refusal(pwd@, salt@) is None,
{
    match argon2::hash_encoded(pwd, salt, &argon2::Config::default()) {
        Ok(s) => Ok(s),
        Err(e) => Err(match e {
        E::OutputTooShort => A::OutputTooShort, E::OutputTooLong => A::OutputTooLong,
        E::PwdTooShort => A::PwdTooShort, E::PwdTooLong => A::PwdTooLong,
        E::SaltTooShort => A::SaltTooShort, E::SaltTooLong => A::SaltTooLong,
        E::AdTooShort => A::AdTooShort, E::AdTooLong => A::AdTooLong,
        E::SecretTooShort => A::SecretTooShort, E::SecretTooLong => A::SecretTooLong,
        E::TimeTooSmall => A::TimeTooSmall, E::TimeTooLarge => A::TimeTooLarge,
        E::MemoryTooLittle => A::MemoryTooLittle, E::MemoryTooMuch => A::MemoryTooMuch,
        E::LanesTooFew => A::LanesTooFew, E::LanesTooMany => A::LanesTooMany,
        E::IncorrectType => A::IncorrectType, E::IncorrectVersion => A::IncorrectVersion,
        E::DecodingFail => A::DecodingFail,
        }),
    }
}

/// Computes HMAC-SHA-512 with `hmac::Hmac::<sha2::Sha512>`: `new_from_slice`
/// on the key, `update` with `first` then `second`, `finalize`. Trusted:
/// `new_from_slice` accepts keys of any length (the key is hashed or padded
/// to the block size), and feeding two pieces gives the tag of their
/// concatenation, 64 bytes long.
#[verifier::external_body]
fn hmac_sha512(key: &[u8], first: &[u8], second: &[u8]) -> (tag: Option<Vec<u8>>)
    ensures
        tag is Some,
        tag matches Some(t) ==> t@ == hmac_sha512_tag(key@, first@ + second@) && t@.len() == 64,
{
    let mut mac = match hmac::Hmac::<sha2::Sha512>::new_from_slice(key) {
        Ok(m) => m,
        Err(_) => return None,
    };
    mac.update(first);
    mac.update(second);
    Some(mac.finalize().into_bytes().to_vec())
}

/// Draws a random version-4 UUID with `uuid::Uuid::new_v4` and writes it in
/// its hyphenated form. Trusted: `new_v4` sets the version nibble to 4 and
/// the variant bits to `10`, and `Display` writes the hyphenated lower-case
/// form; the other digits are random, so nothing more is stated.
#[verifier::external_body]
fn new_uuid_text() -> (s: String)
    ensures
        uuid_text(s@),
{
    uuid::Uuid::new_v4().to_string()
}

/// Overwrites `buf` with bytes from `rand::thread_rng` (`fill_bytes`).
/// Trusted for the length only: the bytes are random.
#[verifier::external_body]
fn fill_random(buf: &mut Vec<u8>)
    ensures
        final(buf)@.len() == old(buf)@.len(),
{
    rand::thread_rng().fill_bytes(buf.as_mut_slice());
}

/// Whether `text` begins with `prefix`.
fn starts_with(text: &str, prefix: &str) -> (r: bool)
    ensures
        r == prefix@.is_prefix_of(text@),
{
    let mut rest = text.chars();
    let mut pat = prefix.chars();
    let ghost mut i: int = 0;
    loop
        invariant
            0 <= i <= prefix@.len(),
            i <= text@.len(),
            pat.remaining() == prefix@.skip(i),
            rest.remaining() == text@.skip(i),
            prefix@.take(i) == text@.take(i),
        decreases prefix@.len() - i,
    {
        match pat.next() {
            None => {
                assert(prefix@.take(i) == prefix@);
                return true;
            },
            Some(c) => {
                match rest.next() {
                    None => {
                        return false;
                    },
                    Some(d) => {
                        if c != d {
                            assert(prefix@[i] != text@[i]);
                            return false;
                        }
                        assert(prefix@.take(i + 1) == prefix@.take(i).push(c));
                        assert(text@.take(i + 1) == text@.take(i).push(d));
                        proof {
                            i = i + 1;
                        }
                    },
                }
            },
        }
    }
}

/// The stored form of an Argon2i hash of `content` with `salt`: the
/// Base64-URL text of the encoded hash; `None` where hashing fails.
pub open spec fn argon_encoding(content: Seq<char>, salt: Seq<char>) -> Option<Seq<char>> {
    let pwd = encode_utf8(content);
    let salt_bytes = encode_utf8(salt);
    if argon2_accepts(pwd, salt_bytes) {
        Some(base64_url_text(encode_utf8(argon2i_hash_text(pwd, salt_bytes))))
    } else {
        None
    }
}

/// Why Argon2i hashing of `content` with `salt` is refused, if it is.
pub open spec fn argon_failure(content: Seq<char>, salt: Seq<char>) -> Option<ArgonError> {
    argon2_refusal(encode_utf8(content), encode_utf8(salt))
}

/// The HMAC-SHA-512 tag under `key` of `content` followed by `salt`.
pub open spec fn hmac_tag(key: Seq<u8>, content: Seq<char>, salt: Seq<char>) -> Seq<u8> {
    hmac_sha512_tag(key, encode_utf8(content) + encode_utf8(salt))
}

/// The stored form of a keyed hash: the Base64-URL text of the tag.
pub open spec fn hmac_encoding(key: Seq<u8>, content: Seq<char>, salt: Seq<char>) -> Seq<char> {
    base64_url_text(hmac_tag(key, content, salt))
}

/// The message of the error for an unknown scheme.
pub open spec fn invalid_scheme_message() -> Seq<char> {
    "Invalid Scheme. Choose argon2 or hmac"@
}

/// What `Password::encode` returns for `content` under `scheme` with `salt`
/// and `key`: the argon2 scheme gives the Argon2i encoding and no salt, or
/// the reason Argon2 refused; the hmac scheme gives the keyed encoding (86
/// characters) and the salt in Base64-URL; each text decodes back to the
/// bytes it encodes. Any other scheme is refused.
pub open spec fn encodes_as(
    r: Result<(String, Option<String>)>,
    content: Seq<char>,
    scheme: Seq<char>,
    salt: Seq<char>,
    key: Seq<u8>,
) -> bool {
    if scheme == "argon2"@ {
        match argon_encoding(content, salt) {
            Some(e) => r matches Ok((enc, None)) && enc@ == e && base64_url_bytes(enc@) == Some(
                encode_utf8(argon2i_hash_text(encode_utf8(content), encode_utf8(salt))),
            ),
            None => r matches Err(Error::ArgonEncError(e)) && argon_failure(content, salt) == Some(e),
        }
    } else if scheme == "hmac"@ {
        r matches Ok((enc, Some(s))) && enc@ == hmac_encoding(key, content, salt) && s@
            == base64_url_text(encode_utf8(salt)) && base64_url_bytes(s@) == Some(encode_utf8(salt))
            && base64_url_bytes(enc@) == Some(hmac_tag(key, content, salt)) && base64_url_shaped(
            enc@,
            64,
        )
    } else {
        r matches Err(Error::InvalidEncryptionScheme(m)) && m@ == invalid_scheme_message()
    }
}

/// The outcome of checking a password against a stored hash.
pub enum Verdict {
    /// The password hashes to the stored value.
    Accepted,
    /// It hashes to something else.
    Mismatch,
    /// The stored value is not Base64-URL encoded UTF-8 text.
    Undecodable,
    /// Hashing the password failed.
    EncodingFailed,
}

/// How `Password::verify_password` judges `password` against `hash`, where
/// `fresh` is the salt it draws: a stored value that decodes to an Argon2i
/// hash is compared with an Argon2i hash made with `fresh`; any other with a
/// keyed hash made with `hmac_salt`, or `fresh` where there is none.
pub open spec fn verification(
    password: Seq<char>,
    hash: Seq<char>,
    hmac_salt: Option<Seq<char>>,
    fresh: Seq<char>,
    key: Seq<u8>,
) -> Verdict {
    match decoded_text(hash) {
        None => Verdict::Undecodable,
        Some(decoded) => {
            let encoded = if "$argon2i$"@.is_prefix_of(decoded) {
                argon_encoding(password, fresh)
            } else {
                Some(
                    hmac_encoding(
                        key,
                        password,
                        match hmac_salt {
                            Some(s) => s,
                            None => fresh,
                        },
                    ),
                )
            };
            match encoded {
                None => Verdict::EncodingFailed,
                Some(e) => if e == hash {
                    Verdict::Accepted
                } else {
                    Verdict::Mismatch
                },
            }
        },
    }
}

/// The keyed hash covers the whole password and the whole salt: the stored
/// text is the Base64-URL text of the HMAC-SHA-512 tag of all the password's
/// UTF-8 bytes followed by all the salt's.
pub proof fn keyed_hash_covers_whole_password(key: Seq<u8>, content: Seq<char>, salt: Seq<char>)
    ensures
        hmac_encoding(key, content, salt) == base64_url_text(
            hmac_sha512_tag(key, encode_utf8(content) + encode_utf8(salt)),
        ),
{
}

/// The Argon2i hash covers the whole password and the whole salt: where
/// Argon2 accepts them, the stored text is the Base64-URL text of the
/// encoded hash of all their UTF-8 bytes under the default parameters.
pub proof fn argon2_hash_covers_whole_password(content: Seq<char>, salt: Seq<char>)
    ensures
        argon2_refusal(encode_utf8(content), encode_utf8(salt)) is None ==> argon_encoding(content, salt)
            == Some(
            base64_url_text(
                encode_utf8("$argon2i$v=19$m=4096,t=3,p=1$"@ + argon2i_hash_fields(encode_utf8(content), encode_utf8(salt))),
            ),
        ),
        argon2_refusal(encode_utf8(content), encode_utf8(salt)) is Some ==> argon_encoding(content, salt)
            is None,
{
}

/// A password is accepted only when hashing it again gives the stored text
/// exactly: as an Argon2i hash with the drawn salt where the stored value
/// decodes to an Argon2i hash, as a keyed hash with the hmac salt (or the
/// drawn one) otherwise.
pub proof fn accepted_only_on_equal_hash(
    password: Seq<char>,
    hash: Seq<char>,
    hmac_salt: Option<Seq<char>>,
    fresh: Seq<char>,
    key: Seq<u8>,
)
    ensures
        verification(password, hash, hmac_salt, fresh, key) == Verdict::Accepted ==> (base64_url_bytes(
            hash,
        ) matches Some(b) && valid_utf8(b) && if "$argon2i$"@.is_prefix_of(decode_utf8(b)) {
            hash == base64_url_text(
                encode_utf8("$argon2i$v=19$m=4096,t=3,p=1$"@ + argon2i_hash_fields(encode_utf8(password), encode_utf8(fresh))),
            )
        } else {
            hash == base64_url_text(
                hmac_sha512_tag(
                    key,
                    encode_utf8(password) + encode_utf8(
                        match hmac_salt {
                            Some(s) => s,
                            None => fresh,
                        },
                    ),
                ),
            )
        }),
{
}

/// An Argon2i hash stored for one password with a salt (a text that decodes
/// back to the encoded hash, as `encode_salted` states of what it returns)
/// is not accepted for another password whose hash with that salt differs,
/// whatever the hmac salt.
pub proof fn argon2_hash_rejects_other_password(
    password: Seq<char>,
    other: Seq<char>,
    salt: Seq<char>,
    hmac_salt: Option<Seq<char>>,
    key: Seq<u8>,
)
    requires
        argon_encoding(password, salt) is Some,
        base64_url_bytes(argon_encoding(password, salt).unwrap()) == Some(
            encode_utf8(argon2i_hash_text(encode_utf8(password), encode_utf8(salt))),
        ),
        argon_encoding(other, salt) != argon_encoding(password, salt),
    ensures
        verification(other, argon_encoding(password, salt).unwrap(), hmac_salt, salt, key)
            != Verdict::Accepted,
{
    lemma_hash_text_starts_argon2i(argon2i_hash_fields(encode_utf8(password), encode_utf8(salt)));
}

/// Checking against a stored value that is not an Argon2i hash, with a
/// given hmac salt, does not depend on the salt that `verify_password`
/// draws: two checks of the same password give the same verdict.
pub proof fn keyed_verdict_ignores_drawn_salt(
    password: Seq<char>,
    hash: Seq<char>,
    hmac_salt: Seq<char>,
    fresh1: Seq<char>,
    fresh2: Seq<char>,
    key: Seq<u8>,
)
    requires
        decoded_text(hash) matches Some(d) && !"$argon2i$"@.is_prefix_of(d),
    ensures
        verification(password, hash, Some(hmac_salt), fresh1, key) == verification(
            password,
            hash,
            Some(hmac_salt),
            fresh2,
            key,
        ),
{
}

/// The result that `verify_password` gives for a verdict.
pub open spec fn reports(r: Result<()>, verdict: Verdict) -> bool {
    match verdict {
        Verdict::Accepted => r is Ok,
        Verdict::Mismatch => r matches Err(Error::PasswordNotMatching),
        Verdict::Undecodable => r matches Err(Error::GenericError),
        Verdict::EncodingFailed => r matches Err(Error::EncryptionError),
    }
}

/// The view of an optional text.
pub open spec fn text_of(s: Option<String>) -> Option<Seq<char>> {
    match s {
        Some(t) => Some(t@),
        None => None,
    }
}

/// A password with the salt to hash it with.
pub struct Password {
    pub content: String,
    pub salt: Option<String>,
}

impl Password {
    /// Hashes `content` under `scheme` ("argon2" or "hmac"), with `salt`, or
    /// a freshly drawn UUID where there is none. `key` is the key of the hmac
    /// scheme.
    pub fn encode(content: String, scheme: &str, salt: Option<String>, key: &[u8]) -> (r: Result<
        (String, Option<String>),
    >)
        ensures
            salt matches Some(s) ==> (scheme@ == "hmac"@ ==> (r matches Ok((enc, Some(st))) && enc@
                == base64_url_text(hmac_sha512_tag(key@, encode_utf8(content@) + encode_utf8(s@)))
                && st@ == base64_url_text(encode_utf8(s@)))),
            salt matches Some(s) ==> (scheme@ == "argon2"@ ==> (r matches Ok((enc, st)) ==> st is None
                && enc@ == base64_url_text(
                encode_utf8("$argon2i$v=19$m=4096,t=3,p=1$"@ + argon2i_hash_fields(encode_utf8(content@), encode_utf8(s@))),
            ))),
            match salt {
                Some(s) => encodes_as(r, content@, scheme@, s@, key@),
                None => exists|fresh: Seq<char>|
                    #![trigger uuid_text(fresh)]
                    uuid_text(fresh) && encodes_as(r, content@, scheme@, fresh, key@),
            },
    {
        let salt = match salt {
            Some(s) => s,
            None => new_uuid_text(),
        };
        let r = Self::encode_salted(content, scheme, salt, key);
        assert(uuid_text(salt@) ==> encodes_as(r, content@, scheme@, salt@, key@));
        r
    }

    /// Hashes `content` under `scheme` with the given `salt`.
    ///
    /// What it stores is accepted again by `verify_password`: an Argon2i hash
    /// whatever salt that draws equals this one, and a keyed hash whose tag
    /// reads as UTF-8 text that does not start like an Argon2i hash.
    pub fn encode_salted(content: String, scheme: &str, salt: String, key: &[u8]) -> (r: Result<
        (String, Option<String>),
    >)
        ensures
            encodes_as(r, content@, scheme@, salt@, key@),
            scheme@ == "hmac"@ ==> (r matches Ok((enc, Some(st))) && enc@ == base64_url_text(
                hmac_sha512_tag(key@, encode_utf8(content@) + encode_utf8(salt@)),
            ) && st@ == base64_url_text(encode_utf8(salt@))),
            scheme@ == "argon2"@ ==> (r matches Ok((enc, st)) ==> st is None && enc@ == base64_url_text(
                encode_utf8("$argon2i$v=19$m=4096,t=3,p=1$"@ + argon2i_hash_fields(encode_utf8(content@), encode_utf8(salt@))),
            )),
            scheme@ == "argon2"@ ==> (r matches Ok((enc, _)) ==> forall|hmac_salt: Option<Seq<char>>|
                #![trigger verification(content@, enc@, hmac_salt, salt@, key@)]
                verification(content@, enc@, hmac_salt, salt@, key@) == Verdict::Accepted),
            scheme@ == "hmac"@ ==> (r matches Ok((enc, _)) ==> ({
                let tag = hmac_tag(key@, content@, salt@);
                valid_utf8(tag) && !"$argon2i$"@.is_prefix_of(decode_utf8(tag))
            } ==> forall|fresh: Seq<char>|
                #![trigger verification(content@, enc@, Some(salt@), fresh, key@)]
                verification(content@, enc@, Some(salt@), fresh, key@) == Verdict::Accepted)),
    {
        let password = Password { content, salt: Some(salt) };
        if same_text(scheme, "argon2") {
            proof {
                reveal_strlit("argon2");
                reveal_strlit("hmac");
                assert("argon2"@.len() != "hmac"@.len());
                lemma_hash_text_starts_argon2i(argon2i_hash_fields(encode_utf8(content@), encode_utf8(salt@)));
            }
            match password.argon() {
                Ok(enc) => Ok((enc, None)),
                Err(e) => Err(e),
            }
        } else if same_text(scheme, "hmac") {
            match password.hmac(key) {
                Ok((enc, s)) => Ok((enc, Some(s))),
                Err(e) => Err(e),
            }
        } else {
            Err(Error::InvalidEncryptionScheme("Invalid Scheme. Choose argon2 or hmac".to_owned()))
        }
    }

    /// The Argon2i hash of the content with the salt, in Base64-URL.
    fn argon(&self) -> (r: Result<String>)
        ensures
            match self.salt {
                None => r matches Err(Error::MissingSalt),
                Some(s) => match argon_encoding(self.content@, s@) {
                    Some(e) => r matches Ok(enc) && enc@ == e && base64_url_bytes(enc@) == Some(
                        encode_utf8(argon2i_hash_text(encode_utf8(self.content@), encode_utf8(s@))),
                    ),
                    None => r matches Err(Error::ArgonEncError(e)) && argon_failure(self.content@, s@)
                        == Some(e),
                },
            },
    {
        let salt = match &self.salt {
            Some(s) => s,
            None => return Err(Error::MissingSalt),
        };
        let pwd = match argon2_hash_encoded(self.content.as_str().as_bytes(), salt.as_str().as_bytes()) {
            Ok(h) => h,
            Err(e) => return Err(Error::ArgonEncError(e)),
        };
        Ok(base64encode(pwd.as_str().as_bytes()))
    }

    /// The keyed hash of the content followed by the salt, and the salt,
    /// both in Base64-URL.
    fn hmac(&self, key: &[u8]) -> (r: Result<(String, String)>)
        ensures
            match self.salt {
                None => r matches Err(Error::MissingSalt),
                Some(s) => r matches Ok((enc, salt_text)) && enc@ == hmac_encoding(key@, self.content@, s@)
                    && salt_text@ == base64_url_text(encode_utf8(s@)) && base64_url_bytes(enc@) == Some(
                    hmac_tag(key@, self.content@, s@),
                ) && base64_url_bytes(salt_text@) == Some(encode_utf8(s@)) && base64_url_shaped(enc@, 64),
            },
            self.salt matches Some(s) ==> (r matches Ok((enc, _)) && enc@ == base64_url_text(
                hmac_sha512_tag(key@, encode_utf8(self.content@) + encode_utf8(s@)),
            )),
    {
        let salt = match &self.salt {
            Some(s) => s,
            None => return Err(Error::MissingSalt),
        };
        let tag = match hmac_sha512(key, self.content.as_str().as_bytes(), salt.as_str().as_bytes()) {
            Some(t) => t,
            None => return Err(Error::SHA512ErrorEnc),
        };
        let res_enc = base64encode(tag.as_slice());
        let res_salt = base64encode(salt.as_str().as_bytes());
        Ok((res_enc, res_salt))
    }
    /// Checks `password` against the stored `password_hash`, drawing a fresh
    /// UUID as the salt where one is needed and `hmac_salt` gives none.
    pub fn verify_password(password: String, password_hash: String, hmac_salt: Option<String>, key: &[u8]) -> (r: Result<()>)
        ensures
            exists|fresh: Seq<char>|
                #![trigger uuid_text(fresh)]
                uuid_text(fresh) && reports(
                    r,
                    verification(password@, password_hash@, text_of(hmac_salt), fresh, key@),
                ),
    {
        let fresh = new_uuid_text();
        let r = Self::verify_password_salted(password, password_hash, hmac_salt, fresh, key);
        assert(uuid_text(fresh@));
        r
    }

    /// Checks `password` against the stored `password_hash`, with `fresh` as
    /// the salt wherever `verify_password` would draw one.
    pub fn verify_password_salted(
        password: String,
        password_hash: String,
        hmac_salt: Option<String>,
        fresh: String,
        key: &[u8],
    ) -> (r: Result<()>)
        ensures
            reports(r, verification(password@, password_hash@, text_of(hmac_salt), fresh@, key@)),
            r is Ok ==> (base64_url_bytes(password_hash@) matches Some(b) && valid_utf8(b) && if "$argon2i$"@.is_prefix_of(
                decode_utf8(b),
            ) {
                password_hash@ == base64_url_text(
                    encode_utf8("$argon2i$v=19$m=4096,t=3,p=1$"@ + argon2i_hash_fields(encode_utf8(password@), encode_utf8(fresh@))),
                )
            } else {
                password_hash@ == base64_url_text(
                    hmac_sha512_tag(
                        key@,
                        encode_utf8(password@) + encode_utf8(
                            match hmac_salt {
                                Some(s) => s@,
                                None => fresh@,
                            },
                        ),
                    ),
                )
            }),
            r matches Err(Error::PasswordNotMatching) ==> (base64_url_bytes(password_hash@) matches Some(b) && valid_utf8(b) && if "$argon2i$"@.is_prefix_of(
                decode_utf8(b),
            ) {
                password_hash@ != base64_url_text(
                    encode_utf8("$argon2i$v=19$m=4096,t=3,p=1$"@ + argon2i_hash_fields(encode_utf8(password@), encode_utf8(fresh@))),
                )
            } else {
                password_hash@ != base64_url_text(
                    hmac_sha512_tag(
                        key@,
                        encode_utf8(password@) + encode_utf8(
                            match hmac_salt {
                                Some(s) => s@,
                                None => fresh@,
                            },
                        ),
                    ),
                )
            }),
    {
        proof {
            reveal_strlit("argon2");
            reveal_strlit("hmac");
            assert("argon2"@.len() != "hmac"@.len());
        }
        let decoded_pass = match base64decode(&password_hash) {
            Ok(d) => d,
            Err(_) => return Err(Error::GenericError),
        };
        let encoded;
        if starts_with(decoded_pass.as_str(), "$argon2i$") {
            encoded = match Self::encode_salted(password, "argon2", fresh, key) {
                Ok((enc, _)) => enc,
                Err(_) => return Err(Error::EncryptionError),
            };
        } else {
            let salt = match hmac_salt {
                Some(s) => s,
                None => fresh,
            };
            encoded = match Self::encode_salted(password, "hmac", salt, key) {
                Ok((enc, _)) => enc,
                Err(_) => return Err(Error::EncryptionError),
            };
        }
        if encoded == password_hash {
            Ok(())
        } else {
            Err(Error::PasswordNotMatching)
        }
    }
}

/// A newly made key for the keyed hashes, in Base64-URL.
#[derive(Debug)]
pub struct EncKey {
    pub new_key: String,
}

/// Makes a key of 72 random bytes and gives it in Base64-URL: 96
/// characters, which decode back to those bytes, so that the key is one
/// that `Config::from_env` takes as `PWD_KEY`.
pub fn gen_key() -> (k: EncKey)
    ensures
        exists|bytes: Seq<u8>|
            #![trigger base64_url_text(bytes)]
            bytes.len() == 72 && k.new_key@ == base64_url_text(bytes) && base64_url_bytes(k.new_key@)
                == Some(bytes),
        base64_url_shaped(k.new_key@, 72),
        k.new_key@.len() == 96,
{
    let mut key = vec![0u8; 72];
    fill_random(&mut key);
    let k = enc_key(key.as_slice());
    assert(k.new_key@ == base64_url_text(key@));
    k
}

/// The key made from the given bytes.
pub fn enc_key(key: &[u8]) -> (k: EncKey)
    ensures
        k.new_key@ == base64_url_text(key@),
        base64_url_shaped(k.new_key@, key@.len()),
        base64_url_bytes(k.new_key@) == Some(key@),
{
    let encoded = base64encode(key);
    EncKey { new_key: encoded }
}

} // verus!
