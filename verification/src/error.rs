use vstd::prelude::*;

use crate::{api, crypt};

verus! {

/// Result of the service's top-level operations.
pub type Result<T> = core::result::Result<T, Error>;

/// Failures of the service as a whole.
#[derive(Debug, PartialEq)]
pub enum Error {
    GenericError,
    Base64DecodeError,
    Crypt(crypt::error::Error),
    Api(api::Error),
    ConfigMissingEnv(&'static str),
    ConfigWrongFormat(&'static str),
}

} // verus!
