use vstd::prelude::*;

use crate::error::{Error, Result};
use crate::utils::{base64_url_bytes, base64_url_decode};

verus! {

/// Settings of the service, read from its environment.
#[allow(non_snake_case)]
pub struct Config {
    /// The key for keyed password hashes, given Base64-URL encoded.
    pub PWD_KEY: Vec<u8>,
    /// Where the database is.
    pub DB_URL: String,
}

/// The value of the variable `name`, where the environment has one.
pub fn get_env(name: &'static str, value: Option<String>) -> (r: Result<String>)
    ensures
        match value {
            Some(v) => r == Ok::<String, Error>(v),
            None => r == Err::<String, Error>(Error::ConfigMissingEnv(name)),
        },
{
    match value {
        Some(v) => Ok(v),
        None => Err(Error::ConfigMissingEnv(name)),
    }
}

/// The bytes that the variable `name` holds in Base64-URL.
pub fn get_env_b64_to_u8s(name: &'static str, value: Option<String>) -> (r: Result<Vec<u8>>)
    ensures
        match value {
            None => r == Err::<Vec<u8>, Error>(Error::ConfigMissingEnv(name)),
            Some(v) => match base64_url_bytes(v@) {
                Some(bytes) => r matches Ok(b) && b@ == bytes,
                None => r == Err::<Vec<u8>, Error>(Error::ConfigWrongFormat(name)),
            },
        },
{
    let text = get_env(name, value)?;
    match base64_url_decode(text.as_str()) {
        Some(bytes) => Ok(bytes),
        None => Err(Error::ConfigWrongFormat(name)),
    }
}

impl Config {
    /// Builds the settings from the values of the variables `PWD_KEY` and
    /// `DATABASE_URL` (`None` for a variable that is not set). `PWD_KEY` is
    /// looked at first.
    pub fn from_env(pwd_key: Option<String>, database_url: Option<String>) -> (r: Result<Config>)
        ensures
            match pwd_key {
                None => r == Err::<Config, Error>(Error::ConfigMissingEnv("PWD_KEY")),
                Some(k) => match base64_url_bytes(k@) {
                    None => r == Err::<Config, Error>(Error::ConfigWrongFormat("PWD_KEY")),
                    Some(key) => match database_url {
                        None => r == Err::<Config, Error>(Error::ConfigMissingEnv("DATABASE_URL")),
                        Some(url) => r matches Ok(c) && c.PWD_KEY@ == key && c.DB_URL == url,
                    },
                },
            },
    {
        Ok(Config {
            PWD_KEY: get_env_b64_to_u8s("PWD_KEY", pwd_key)?,
            DB_URL: get_env("DATABASE_URL", database_url)?,
        })
    }
}

} // verus!
