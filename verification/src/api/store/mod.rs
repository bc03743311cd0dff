mod error;

pub use self::error::{Error, Result};
