pub mod create_user;
pub mod db_read;
pub mod delete_user;
pub mod error;
pub mod store;

pub use self::error::Error;

use vstd::prelude::*;

verus! {

/// A user as it is signed up.
pub struct UserFull {
    pub first_name: String,
    pub surname: String,
    pub email: String,
    pub username: String,
    pub password: String,
}

/// What the service answers for a new user.
pub struct UserResp {
    pub id: i32,
    pub name: String,
    pub email: String,
}

} // verus!
