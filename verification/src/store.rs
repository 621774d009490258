//! The table of users: the rows in the order they were inserted, with no id
//! and no email held twice.

use vstd::prelude::*;
use crate::routes::user::{StoreError, User, UserView};

verus! {

/// Some row of `t` has the id `id`.
pub open spec fn has_id(t: Seq<UserView>, id: u128) -> bool {
    exists|i: int| 0 <= i < t.len() && (#[trigger] t[i]).id == id
}

/// Some row of `t` has the email `email`.
pub open spec fn has_email(t: Seq<UserView>, email: Seq<char>) -> bool {
    exists|i: int| 0 <= i < t.len() && (#[trigger] t[i]).email == email
}

/// A place in `t` of a row with the id `id`, where there is one.
pub open spec fn index_of_id(t: Seq<UserView>, id: u128) -> int {
    choose|i: int| 0 <= i < t.len() && (#[trigger] t[i]).id == id
}

/// A place in `t` of a row with the email `email`, where there is one.
pub open spec fn index_of_email(t: Seq<UserView>, email: Seq<char>) -> int {
    choose|i: int| 0 <= i < t.len() && (#[trigger] t[i]).email == email
}

/// The row of `t` with the id `id`.
pub open spec fn row_with_id(t: Seq<UserView>, id: u128) -> Option<UserView> {
    if has_id(t, id) {
        Some(t[index_of_id(t, id)])
    } else {
        None
    }
}

/// The row of `t` with the email `email`.
pub open spec fn row_with_email(t: Seq<UserView>, email: Seq<char>) -> Option<UserView> {
    if has_email(t, email) {
        Some(t[index_of_email(t, email)])
    } else {
        None
    }
}

/// No two rows of `t` share an id.
pub open spec fn distinct_ids(t: Seq<UserView>) -> bool {
    forall|i: int, j: int| 0 <= i < j < t.len() ==> (#[trigger] t[i]).id != (#[trigger] t[j]).id
}

/// No two rows of `t` share an email.
pub open spec fn distinct_emails(t: Seq<UserView>) -> bool {
    forall|i: int, j: int|
        0 <= i < j < t.len() ==> (#[trigger] t[i]).email != (#[trigger] t[j]).email
}

/// What the table's constraints demand of its rows.
pub open spec fn well_formed(t: Seq<UserView>) -> bool {
    distinct_ids(t) && distinct_emails(t)
}

/// What an insert of `row` into `t` reports: a row with its id or its email
/// is a violation of the table's constraints.
pub open spec fn insert_result(t: Seq<UserView>, row: UserView) -> Result<(), StoreError> {
    if has_id(t, row.id) || has_email(t, row.email) {
        Err(StoreError::UniqueViolation)
    } else {
        Ok(())
    }
}

/// The table after an insert of `row`: the row comes last, or nothing
/// changes where the insert is refused.
pub open spec fn inserted(t: Seq<UserView>, row: UserView) -> Seq<UserView> {
    if insert_result(t, row) is Ok {
        t.push(row)
    } else {
        t
    }
}

/// The row `row` with a new name and password, written at `now`.
pub open spec fn rewritten_row(row: UserView, name: Seq<char>, password: Seq<char>, now: i64) -> UserView {
    UserView {
        id: row.id,
        name,
        email: row.email,
        password,
        created_at: row.created_at,
        updated_at: now,
    }
}

/// The table after the row with the id `id` got a new name and password at
/// `now`; a table without such a row stays as it is.
pub open spec fn rewritten(
    t: Seq<UserView>,
    id: u128,
    name: Seq<char>,
    password: Seq<char>,
    now: i64,
) -> Seq<UserView> {
    if has_id(t, id) {
        t.update(index_of_id(t, id), rewritten_row(t[index_of_id(t, id)], name, password, now))
    } else {
        t
    }
}

/// The table after its row with the id `id` is removed; a table without
/// such a row stays as it is.
pub open spec fn removed(t: Seq<UserView>, id: u128) -> Seq<UserView> {
    if has_id(t, id) {
        t.remove(index_of_id(t, id))
    } else {
        t
    }
}

/// The rows of a vector of users, each by its view.
pub open spec fn rows_view(rows: Seq<User>) -> Seq<UserView> {
    rows.map_values(|u: User| u@)
}

/// What a lookup found, the row by its view.
pub open spec fn found_view(found: Option<User>) -> Option<UserView> {
    match found {
        Some(u) => Some(u@),
        None => None,
    }
}

/// In a table without a repeated id, a row with the id `id` stands at one
/// place only.
pub proof fn lemma_index_of_id(t: Seq<UserView>, id: u128, i: int)
    requires
        distinct_ids(t),
        0 <= i < t.len(),
        t[i].id == id,
    ensures
        has_id(t, id),
        index_of_id(t, id) == i,
        row_with_id(t, id) == Some(t[i]),
{
    let j = index_of_id(t, id);
    assert(0 <= j < t.len() && t[j].id == id);
    if j < i {
        assert(t[j].id != t[i].id);
    } else if i < j {
        assert(t[i].id != t[j].id);
    }
}

/// In a table without a repeated email, a row with the email `email`
/// stands at one place only.
pub proof fn lemma_index_of_email(t: Seq<UserView>, email: Seq<char>, i: int)
    requires
        distinct_emails(t),
        0 <= i < t.len(),
        t[i].email == email,
    ensures
        has_email(t, email),
        index_of_email(t, email) == i,
        row_with_email(t, email) == Some(t[i]),
{
    let j = index_of_email(t, email);
    assert(0 <= j < t.len() && t[j].email == email);
    if j < i {
        assert(t[j].email != t[i].email);
    } else if i < j {
        assert(t[i].email != t[j].email);
    }
}

/// The users that are stored.
pub struct UserTable {
    rows: Vec<User>,
}

impl View for UserTable {
    type V = Seq<UserView>;

    closed spec fn view(&self) -> Seq<UserView> {
        rows_view(self.rows@)
    }
}

impl UserTable {
    /// The table keeps its constraints.
    pub open spec fn wf(&self) -> bool {
        well_formed(self@)
    }

    /// A table without rows.
    pub fn new() -> (table: UserTable)
        ensures
            table@ == Seq::<UserView>::empty(),
            table.wf(),
    {
        let table = UserTable { rows: Vec::new() };
        assert(table@ =~= Seq::<UserView>::empty());
        table
    }

    /// The number of rows.
    pub fn len(&self) -> (n: usize)
        ensures
            n == self@.len(),
    {
        self.rows.len()
    }

    fn position_of_id(&self, id: u128) -> (at: Option<usize>)
        ensures
            match at {
                Some(i) => i < self@.len() && self@[i as int].id == id,
                None => !has_id(self@, id),
            },
    {
        let mut i: usize = 0;
        while i < self.rows.len()
            invariant
                i <= self.rows.len(),
                forall|k: int| 0 <= k < i ==> (#[trigger] self@[k]).id != id,
            decreases self.rows.len() - i,
        {
            if self.rows[i].id == id {
                return Some(i);
            }
            i += 1;
        }
        None
    }

    fn position_of_email(&self, email: &String) -> (at: Option<usize>)
        ensures
            match at {
                Some(i) => i < self@.len() && self@[i as int].email == email@,
                None => !has_email(self@, email@),
            },
    {
        let mut i: usize = 0;
        while i < self.rows.len()
            invariant
                i <= self.rows.len(),
                forall|k: int| 0 <= k < i ==> (#[trigger] self@[k]).email != email@,
            decreases self.rows.len() - i,
        {
            if self.rows[i].email == *email {
                return Some(i);
            }
            i += 1;
        }
        None
    }

    /// The row with the id `id`, if the table holds one.
    pub fn find_by_id(&self, id: u128) -> (found: Option<User>)
        requires
            self.wf(),
        ensures
            found_view(found) == row_with_id(self@, id),
    {
        match self.position_of_id(id) {
            Some(i) => {
                proof {
                    lemma_index_of_id(self@, id, i as int);
                }
                Some(self.rows[i].clone())
            },
            None => None,
        }
    }

    /// The row with the email `email`, if the table holds one.
    pub fn find_by_email(&self, email: &str) -> (found: Option<User>)
        requires
            self.wf(),
        ensures
            found_view(found) == row_with_email(self@, email@),
    {
        let email = email.to_owned();
        match self.position_of_email(&email) {
            Some(i) => {
                proof {
                    lemma_index_of_email(self@, email@, i as int);
                }
                Some(self.rows[i].clone())
            },
            None => None,
        }
    }

    /// All rows, in the table's order.
    pub fn list_all(&self) -> (rows: Vec<User>)
        ensures
            rows_view(rows@) == self@,
    {
        let mut rows: Vec<User> = Vec::new();
        let mut i: usize = 0;
        while i < self.rows.len()
            invariant
                i <= self.rows.len(),
                rows@.len() == i,
                forall|k: int| 0 <= k < i ==> (#[trigger] rows@[k])@ == self@[k],
            decreases self.rows.len() - i,
        {
            rows.push(self.rows[i].clone());
            i += 1;
        }
        assert(rows_view(rows@) =~= self@);
        rows
    }

    /// Inserts `user` as the last row, unless a row has its id or its email.
    pub fn insert_user(&mut self, user: User) -> (r: Result<(), StoreError>)
        requires
            old(self).wf(),
        ensures
            final(self).wf(),
            r == insert_result(old(self)@, user@),
            final(self)@ == inserted(old(self)@, user@),
    {
        if self.position_of_id(user.id).is_some() {
            return Err(StoreError::UniqueViolation);
        }
        if self.position_of_email(&user.email).is_some() {
            return Err(StoreError::UniqueViolation);
        }
        self.rows.push(user);
        assert(self@ =~= old(self)@.push(user@));
        Ok(())
    }

    /// Writes a new name and password, and `now` as the time of the change,
    /// to the row with the id `id`. Nothing changes where the table holds no
    /// such row.
    pub fn update_user(&mut self, id: u128, name: String, password: String, now: i64)
        requires
            old(self).wf(),
        ensures
            final(self).wf(),
            final(self)@ == rewritten(old(self)@, id, name@, password@, now),
    {
        match self.position_of_id(id) {
            Some(i) => {
                proof {
                    lemma_index_of_id(self@, id, i as int);
                }
                let row = User {
                    id,
                    name,
                    email: self.rows[i].email.clone(),
                    password,
                    created_at: self.rows[i].created_at,
                    updated_at: now,
                };
                self.rows.set(i, row);
                assert(self@ =~= old(self)@.update(i as int, row@));
            },
            None => {},
        }
    }

    /// Removes the row with the id `id`. Nothing changes where the table
    /// holds no such row.
    pub fn delete_user(&mut self, id: u128)
        requires
            old(self).wf(),
        ensures
            final(self).wf(),
            final(self)@ == removed(old(self)@, id),
    {
        match self.position_of_id(id) {
            Some(i) => {
                proof {
                    lemma_index_of_id(self@, id, i as int);
                }
                self.rows.remove(i);
                assert(self@ =~= old(self)@.remove(i as int));
            },
            None => {},
        }
    }
}

} // verus!
