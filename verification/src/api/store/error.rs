use vstd::prelude::*;

verus! {

/// Result of setting up the database.
pub type Result<T> = core::result::Result<T, Error>;

/// Failures of setting up the database.
#[derive(Debug, PartialEq)]
pub enum Error {
    UnableToCreateDbPool(String),
}

} // verus!
