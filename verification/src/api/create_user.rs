use vstd::prelude::*;

use crate::api::error::{violates_constraint, DatabaseFailure, Error, ResultExt};
use crate::api::{UserFull, UserResp};
use crate::crypt::{argon_encoding, uuid_text, Password};
use crate::crypt::error::Error as CryptError;

verus! {

/// What is stored for a new user besides the fields it signed up with.
pub struct NewUser {
    /// The first name and the surname, with a space between.
    pub full_name: String,
    /// The stored form of the Argon2i hash of the password.
    pub password_hash: String,
}

/// The first name and the surname of `body`, with a space between.
pub fn full_name(body: &UserFull) -> (name: String)
    ensures
        name@ == body.first_name@ + " "@ + body.surname@,
{
    let mut name = body.first_name.clone();
    name.append(" ");
    name.append(body.surname.as_str());
    name
}

/// Prepares a new user: the full name, and the password hashed with Argon2i
/// under a freshly drawn salt. A failure of the hashing is reported as an
/// encryption error.
pub fn new_user(body: &UserFull, key: &[u8]) -> (r: Result<NewUser, Error>)
    ensures
        exists|fresh: Seq<char>|
            #![trigger uuid_text(fresh)]
            uuid_text(fresh) && match argon_encoding(body.password@, fresh) {
                Some(hash) => r matches Ok(user) && user.full_name@ == body.first_name@ + " "@
                    + body.surname@ && user.password_hash@ == hash,
                None => r matches Err(Error::Crypt(CryptError::EncryptionError)),
            },
{
    let name = full_name(body);
    let hash_password = match Password::encode(body.password.clone(), "argon2", None, key) {
        Ok((enc, _)) => enc,
        Err(_) => return Err(Error::Crypt(CryptError::EncryptionError)),
    };
    Ok(NewUser { full_name: name, password_hash: hash_password })
}

/// The answer for a new user, from the database's reply to storing it: the
/// id that the database gave it, or, where the `email` constraint was
/// violated, the error that the user exists already.
pub fn user_response(body: &UserFull, full_name: String, inserted: Result<i32, Error>) -> (r: Result<
    UserResp,
    Error,
>)
    ensures
        match inserted {
            Ok(id) => r matches Ok(resp) && resp.id == id && resp.name == full_name && resp.email
                == body.email,
            Err(e) => if violates_constraint(e, "email"@) {
                r == Err::<UserResp, Error>(Error::UserAlreadyExists(body.email))
            } else {
                r == Err::<UserResp, Error>(e)
            },
        },
{
    let email = &body.email;
    let exists_already = |_failure: DatabaseFailure| -> (e: Error)
        ensures
            e == Error::UserAlreadyExists(*email),
        { Error::UserAlreadyExists(email.clone()) };
    let user_id = inserted.on_constraint("email", exists_already)?;
    Ok(UserResp { id: user_id, name: full_name, email: body.email.clone() })
}

} // verus!
