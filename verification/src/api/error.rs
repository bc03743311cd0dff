use vstd::prelude::*;

use crate::api::store;
use crate::crypt;
use crate::utils::same_text;

verus! {

/// What the service reads of an error that the database reported.
#[derive(Debug, PartialEq)]
pub struct DatabaseFailure {
    /// The database's message.
    pub message: String,
    /// The constraint that the statement violated, where there is one.
    pub constraint: Option<String>,
}

/// A failure of a database call.
#[derive(Debug, PartialEq)]
pub enum SqlxFailure {
    /// The database itself reported an error.
    Database(DatabaseFailure),
    /// Any other failure (connection, protocol, decoding), described.
    Other(String),
}

/// Failures of the HTTP handlers.
#[derive(Debug, PartialEq)]
pub enum Error {
    SqlxError(SqlxFailure),
    SqlxMigrationError(String),
    UserAlreadyExists(String),
    Base64DecodeError,
    Crypt(crypt::error::Error),
    Config(&'static str),
    Store(store::Error),
    ErrorUserDoesNotExist(String),
}

/// What a client is told about a failure.
#[derive(Debug, PartialEq)]
pub enum ClientError {
    UserAlreadyExists,
    InternalServerError,
    UserDoesNotExist,
}

/// HTTP status 400.
pub const BAD_REQUEST: u16 = 400;

/// HTTP status 500.
pub const INTERNAL_SERVER_ERROR: u16 = 500;

impl ClientError {
    /// The name of the variant, as clients see it in the `type` field.
    pub fn as_ref(&self) -> (name: &'static str)
        ensures
            name@ == match self {
                ClientError::UserAlreadyExists => "UserAlreadyExists"@,
                ClientError::InternalServerError => "InternalServerError"@,
                ClientError::UserDoesNotExist => "UserDoesNotExist"@,
            },
    {
        match self {
            ClientError::UserAlreadyExists => "UserAlreadyExists",
            ClientError::InternalServerError => "InternalServerError",
            ClientError::UserDoesNotExist => "UserDoesNotExist",
        }
    }
}

/// Whether `e` is the database's report that constraint `name` was violated.
pub open spec fn violates_constraint(e: Error, name: Seq<char>) -> bool {
    e matches Error::SqlxError(SqlxFailure::Database(f)) && f.constraint matches Some(c) && c@ == name
}

impl Error {
    /// The status and the client-facing error for a failure: a user that
    /// exists already, or does not exist, is the client's mistake (400);
    /// anything else is the server's (500).
    pub fn client_error_map(&self) -> (r: (u16, ClientError))
        ensures
            match self {
                Error::UserAlreadyExists(_) => r == (BAD_REQUEST, ClientError::UserAlreadyExists),
                Error::ErrorUserDoesNotExist(_) => r == (BAD_REQUEST, ClientError::UserDoesNotExist),
                _ => r == (INTERNAL_SERVER_ERROR, ClientError::InternalServerError),
            },
    {
        match self {
            Error::UserAlreadyExists(_) => (BAD_REQUEST, ClientError::UserAlreadyExists),
            Error::ErrorUserDoesNotExist(_) => (BAD_REQUEST, ClientError::UserDoesNotExist),
            _ => (INTERNAL_SERVER_ERROR, ClientError::InternalServerError),
        }
    }
}

/// What the response mapper sends in place of a failed response: the status
/// and client error of the failure that the handler left, where there is one.
pub fn client_response_error(service_error: Option<&Error>) -> (r: Option<(u16, ClientError)>)
    ensures
        match service_error {
            Some(e) => r matches Some(reply) && match *e {
                Error::UserAlreadyExists(_) => reply == (BAD_REQUEST, ClientError::UserAlreadyExists),
                Error::ErrorUserDoesNotExist(_) => reply == (BAD_REQUEST, ClientError::UserDoesNotExist),
                _ => reply == (INTERNAL_SERVER_ERROR, ClientError::InternalServerError),
            },
            None => r is None,
        },
{
    match service_error {
        Some(e) => Some(e.client_error_map()),
        None => None,
    }
}

/// Turning the database's report of a violated constraint into an error of
/// the handler's choosing.
pub trait ResultExt<T>: Sized {
    fn on_constraint<F: FnOnce(DatabaseFailure) -> Error>(self, name: &str, map_err: F) -> core::result::Result<T, Error>
        requires
            forall|f: DatabaseFailure| map_err.requires((f,)),
    ;
}

impl<T> ResultExt<T> for core::result::Result<T, Error> {
    /// Leaves the result as it is, but where it is the database's report
    /// that constraint `name` was violated: that becomes `map_err` of the
    /// report.
    fn on_constraint<F: FnOnce(DatabaseFailure) -> Error>(self, name: &str, map_err: F) -> (r: core::result::Result<T, Error>)
        ensures
            match self {
                Err(e) => if violates_constraint(e, name@) {
                    r matches Err(mapped) && e matches Error::SqlxError(SqlxFailure::Database(f)) && map_err.ensures((f,), mapped)
                } else {
                    r == self
                },
                Ok(_) => r == self,
            },
    {
        match self {
            Err(Error::SqlxError(SqlxFailure::Database(f))) => {
                let hit = match &f.constraint {
                    Some(c) => same_text(c.as_str(), name),
                    None => false,
                };
                if hit {
                    Err(map_err(f))
                } else {
                    Err(Error::SqlxError(SqlxFailure::Database(f)))
                }
            },
            other => other,
        }
    }
}

} // verus!
