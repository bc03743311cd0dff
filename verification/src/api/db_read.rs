use vstd::prelude::*;

verus! {

/// The user whose records the read handler lists.
pub const READ_USERNAME: &'static str = "jonbut34";

/// A row of the `users` table.
pub struct UserRecord {
    pub id: i32,
    pub first_name: String,
    pub surname: String,
    pub email: String,
    pub username: String,
    pub password: String,
}

/// What the read handler shows of a user.
pub struct UserSummary {
    pub id: i32,
    pub first_name: String,
    pub surname: String,
    pub email: String,
}

/// Whether `s` shows `u`: the same id, names and email.
pub open spec fn summarizes(s: UserSummary, u: UserRecord) -> bool {
    &&& s.id == u.id
    &&& s.first_name == u.first_name
    &&& s.surname == u.surname
    &&& s.email == u.email
}

/// A summary shows its row's id, names and email unchanged.
pub proof fn summary_keeps_row_fields(s: UserSummary, u: UserRecord)
    requires
        summarizes(s, u),
    ensures
        s.id == u.id,
        s.first_name@ == u.first_name@,
        s.surname@ == u.surname@,
        s.email@ == u.email@,
{
}

/// The summaries of the rows, in their order; username and password are
/// left out.
pub fn user_summaries(rows: Vec<UserRecord>) -> (summaries: Vec<UserSummary>)
    ensures
        summaries@.len() == rows@.len(),
        forall|i: int| 0 <= i < rows@.len() ==> summarizes(#[trigger] summaries@[i], rows@[i]),
        forall|i: int|
            0 <= i < rows@.len() ==> {
                &&& #[trigger] summaries@[i].id == rows@[i].id
                &&& summaries@[i].first_name@ == rows@[i].first_name@
                &&& summaries@[i].surname@ == rows@[i].surname@
                &&& summaries@[i].email@ == rows@[i].email@
            },
{
    let mut summaries: Vec<UserSummary> = Vec::new();
    let n = rows.len();
    for i in 0..n
        invariant
            n == rows@.len(),
            summaries@.len() == i,
            forall|j: int| 0 <= j < i ==> summarizes(#[trigger] summaries@[j], rows@[j]),
    {
        let row = &rows[i];
        summaries.push(
            UserSummary {
                id: row.id,
                first_name: row.first_name.clone(),
                surname: row.surname.clone(),
                email: row.email.clone(),
            },
        );
    }
    summaries
}

} // verus!
