//! User account service logic: configuration loading, password hashing and
//! checking, and the decisions behind the HTTP handlers, with contracts
//! checked by Verus.

pub mod error;
pub mod utils;
pub mod config;
pub mod crypt;
pub mod api;

pub use self::error::{Error, Result};
