use vstd::prelude::*;

use crate::api::error::Error;

verus! {

/// What the service answers for a deleted user.
pub struct DeletedUser {
    pub message: String,
    pub email: String,
}

/// The answer for deleting the user with email `user`, from the number of
/// rows that the deletion removed: none means there was no such user.
pub fn delete_response(user: String, rows_affected: u64) -> (r: Result<DeletedUser, Error>)
    ensures
        rows_affected == 0 ==> r == Err::<DeletedUser, Error>(Error::ErrorUserDoesNotExist(user)),
        rows_affected != 0 ==> (r matches Ok(d) && d.message@ == "User deleted"@ && d.email@ == user@),
{
    if rows_affected == 0 {
        return Err(Error::ErrorUserDoesNotExist(user));
    }
    Ok(DeletedUser { message: "User deleted".to_owned(), email: user.clone() })
}

} // verus!
