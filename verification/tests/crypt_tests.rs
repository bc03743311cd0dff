use user_auth::config::Config;
use user_auth::crypt::{enc_key, gen_key, ArgonError, Error, Password};
use user_auth::utils::{base64decode, base64encode};

const ARGON_PASSWORD_SOMESALT: &str = "JGFyZ29uMmkkdj0xOSRtPTQwOTYsdD0zLHA9MSRjMjl0WlhOaGJIUSRpV2gwNnZEOEZ5Mjd3ZjlucG42RlhXaUNYNEs2cFc2VWUxQm56ejA3WjhB";

#[test]
fn encode_salted_argon2_matches_known_hash() {
    let r = Password::encode_salted("password".to_string(), "argon2", "somesalt".to_string(), b"k");
    assert_eq!(r, Ok((ARGON_PASSWORD_SOMESALT.to_string(), None)));
    let decoded = base64decode(&r.unwrap().0).unwrap();
    assert_eq!(
        decoded,
        "$argon2i$v=19$m=4096,t=3,p=1$c29tZXNhbHQ$iWh06vD8Fy27wf9npn6FXWiCX4K6pW6Ue1Bnzz07Z8A"
    );
}

#[test]
fn encode_salted_argon2_refuses_a_short_salt() {
    let r = Password::encode_salted("password".to_string(), "argon2", "short".to_string(), b"k");
    assert_eq!(r, Err(Error::ArgonEncError(ArgonError::SaltTooShort)));
}

#[test]
fn encode_salted_hmac_matches_known_tag() {
    let r = Password::encode_salted(
        "hunter2".to_string(),
        "hmac",
        "saltsalt".to_string(),
        b"secret-key",
    );
    assert_eq!(
        r,
        Ok((
            "snAuCkRCFwJWvnDS8AZtwHi_1xvXiyOxeIoZNtQM7mO2htrwzvQgFt9kPXe8B2sQ3PIxO6LQsSygF-IAzbeGyg"
                .to_string(),
            Some("c2FsdHNhbHQ".to_string())
        ))
    );
}

#[test]
fn encode_refuses_an_unknown_scheme() {
    let r = Password::encode("pw".to_string(), "md5", Some("saltsalt".to_string()), b"k");
    assert_eq!(
        r,
        Err(Error::InvalidEncryptionScheme(
            "Invalid Scheme. Choose argon2 or hmac".to_string()
        ))
    );
}

#[test]
fn encode_with_given_salt_equals_encode_salted() {
    let a = Password::encode("hunter2".to_string(), "hmac", Some("saltsalt".to_string()), b"secret-key");
    let b = Password::encode_salted("hunter2".to_string(), "hmac", "saltsalt".to_string(), b"secret-key");
    assert_eq!(a, b);
}

#[test]
fn encode_without_salt_draws_one() {
    let (enc, salt) = Password::encode("pw".to_string(), "hmac", None, b"k").unwrap();
    let salt = base64decode(&salt.unwrap()).unwrap();
    assert_eq!(salt.len(), 36);
    let again = Password::encode_salted("pw".to_string(), "hmac", salt, b"k").unwrap();
    assert_eq!(again.0, enc);
}

#[test]
fn encode_argon2_without_salt_succeeds() {
    let (enc, salt) = Password::encode("pw".to_string(), "argon2", None, b"k").unwrap();
    assert!(salt.is_none());
    assert!(base64decode(&enc).unwrap().starts_with("$argon2i$v=19$m=4096,t=3,p=1$"));
}

#[test]
fn verify_password_salted_accepts_argon2_hash_made_with_same_salt() {
    let r = Password::verify_password_salted(
        "password".to_string(),
        ARGON_PASSWORD_SOMESALT.to_string(),
        None,
        "somesalt".to_string(),
        b"k",
    );
    assert_eq!(r, Ok(()));
}

#[test]
fn verify_password_salted_rejects_wrong_argon2_password() {
    let r = Password::verify_password_salted(
        "passw0rd".to_string(),
        ARGON_PASSWORD_SOMESALT.to_string(),
        None,
        "somesalt".to_string(),
        b"k",
    );
    assert_eq!(r, Err(Error::PasswordNotMatching));
}

#[test]
fn verify_password_draws_a_new_argon2_salt() {
    let r = Password::verify_password(
        "password".to_string(),
        ARGON_PASSWORD_SOMESALT.to_string(),
        None,
        b"k",
    );
    assert_eq!(r, Err(Error::PasswordNotMatching));
}

#[test]
fn verify_password_reports_undecodable_hash() {
    let r = Password::verify_password("pw".to_string(), "**".to_string(), None, b"k");
    assert_eq!(r, Err(Error::GenericError));
}

#[test]
fn verify_password_reports_binary_hmac_tag_as_undecodable() {
    let (enc, _) = Password::encode_salted(
        "hunter2".to_string(),
        "hmac",
        "saltsalt".to_string(),
        b"secret-key",
    )
    .unwrap();
    let r = Password::verify_password(
        "hunter2".to_string(),
        enc,
        Some("saltsalt".to_string()),
        b"secret-key",
    );
    assert_eq!(r, Err(Error::GenericError));
}

#[test]
fn verify_password_compares_text_hash_with_hmac_encoding() {
    let stored = base64encode(b"plain text");
    let r = Password::verify_password(
        "hunter2".to_string(),
        stored,
        Some("saltsalt".to_string()),
        b"secret-key",
    );
    assert_eq!(r, Err(Error::PasswordNotMatching));
}

#[test]
fn verify_password_salted_fails_when_argon2_refuses_the_salt() {
    let stored = base64encode(b"$argon2i$ plus");
    let r = Password::verify_password_salted(
        "pw".to_string(),
        stored,
        None,
        "short".to_string(),
        b"k",
    );
    assert_eq!(r, Err(Error::EncryptionError));
}

#[test]
fn enc_key_encodes_the_bytes() {
    let bytes: Vec<u8> = (0u8..72).collect();
    assert_eq!(
        enc_key(&bytes).new_key,
        "AAECAwQFBgcICQoLDA0ODxAREhMUFRYXGBkaGxwdHh8gISIjJCUmJygpKissLS4vMDEyMzQ1Njc4OTo7PD0-P0BBQkNERUZH"
    );
}

#[test]
fn gen_key_makes_72_bytes() {
    let k = gen_key();
    assert_eq!(k.new_key.len(), 96);
    assert_eq!(base64_url::decode(&k.new_key).unwrap().len(), 72);
}

#[test]
fn encode_salted_argon2_then_verify_with_same_salt_accepts() {
    let (enc, _) = Password::encode_salted("s3cret".to_string(), "argon2", "a-salt-value".to_string(), b"k").unwrap();
    let r = Password::verify_password_salted("s3cret".to_string(), enc, Some("other".to_string()), "a-salt-value".to_string(), b"k");
    assert_eq!(r, Ok(()));
}

#[test]
fn keyed_verdict_is_the_same_for_any_drawn_salt() {
    let stored = base64encode(b"plain text");
    let a = Password::verify_password_salted("pw".to_string(), stored.clone(), Some("saltsalt".to_string()), "fresh-one".to_string(), b"k");
    let b = Password::verify_password_salted("pw".to_string(), stored, Some("saltsalt".to_string()), "fresh-two".to_string(), b"k");
    assert_eq!(a, b);
    assert_eq!(a, Err(Error::PasswordNotMatching));
}

#[test]
fn encode_argon2_with_three_byte_salt_is_salt_too_short() {
    let r = Password::encode("freddiebum".to_string(), "argon2", Some("abc".to_string()), &[1, 2, 3]);
    assert_eq!(r, Err(Error::ArgonEncError(ArgonError::SaltTooShort)));
    let again = Password::encode("freddiebum".to_string(), "argon2", Some("abc".to_string()), &[1, 2, 3]);
    assert_eq!(r, again);
}

#[test]
fn encode_hmac_salt_text_decodes_back_and_tag_is_86_chars() {
    let (enc, salt) = Password::encode_salted("pw".to_string(), "hmac", "saltsalt".to_string(), b"k").unwrap();
    assert_eq!(base64_url::decode(&salt.unwrap()).unwrap(), b"saltsalt".to_vec());
    assert_eq!(enc.len(), 86);
    assert!(enc.chars().all(|c| c.is_ascii_alphanumeric() || c == '-' || c == '_'));
}

#[test]
fn generated_key_is_accepted_as_pwd_key() {
    let k = gen_key();
    let config = Config::from_env(Some(k.new_key.clone()), Some("postgres://localhost/db".to_string())).unwrap();
    assert_eq!(config.PWD_KEY.len(), 72);
    assert_eq!(enc_key(&config.PWD_KEY).new_key, k.new_key);
    assert_eq!(config.DB_URL, "postgres://localhost/db");
}
