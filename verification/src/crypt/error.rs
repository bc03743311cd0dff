use vstd::prelude::*;

verus! {

/// Why Argon2 hashing was refused: the variants of `argon2::Error`.
#[derive(Debug, Clone, Copy, PartialEq, Eq)]
pub enum ArgonError {
    OutputTooShort,
    OutputTooLong,
    PwdTooShort,
    PwdTooLong,
    SaltTooShort,
    SaltTooLong,
    AdTooShort,
    AdTooLong,
    SecretTooShort,
    SecretTooLong,
    TimeTooSmall,
    TimeTooLarge,
    MemoryTooLittle,
    MemoryTooMuch,
    LanesTooFew,
    LanesTooMany,
    IncorrectType,
    IncorrectVersion,
    DecodingFail,
}

/// Result of the password operations.
pub type Result<T> = core::result::Result<T, Error>;

/// Failures of the password operations.
#[derive(Debug, PartialEq)]
pub enum Error {
    GenericError,
    SHA512ErrorEnc,
    CryptAPIHandlerError,
    InvalidEncryptionScheme(String),
    SchemeNotFoundInContent,
    PasswordNotMatching,
    ArgonEncError(ArgonError),
    EncryptionError,
    MissingSalt,
}

} // verus!
