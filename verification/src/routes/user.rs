//! The user resource: its records, what a client may send and see, and the
//! decisions the service takes on what the store reports.

use vstd::prelude::*;
use vstd::std_specs::convert::FromSpecImpl;

verus! {

/// A stored user. `id` is the 128-bit value of the user's UUID; the two
/// timestamps count microseconds since the Unix epoch.
#[derive(Debug)]
pub struct User {
    pub id: u128,
    pub name: String,
    pub email: String,
    pub password: String,
    pub created_at: i64,
    pub updated_at: i64,
}

/// What a client is shown of a user: everything but the password.
#[derive(Debug)]
pub struct GetUser {
    pub id: u128,
    pub name: String,
    pub email: String,
    pub created_at: i64,
    pub updated_at: i64,
}

/// The body of a request to create a user.
#[derive(Debug)]
pub struct CreateUser {
    pub name: String,
    pub email: String,
    pub password: String,
}

/// The body of a request to change a user: a field left out stays as stored.
#[derive(Debug)]
pub struct UpdateUser {
    pub name: Option<String>,
    pub password: Option<String>,
}

/// Why the service refused or failed a request.
#[derive(Clone, Copy, Debug, PartialEq, Eq, Structural)]
pub enum ServiceError {
    InvalidInput,
    NotFound,
    Conflict,
    StorageError,
}

/// What the service tells apart among the failures a store reports.
#[derive(Clone, Copy, Debug, PartialEq, Eq, Structural)]
pub enum StoreError {
    /// A query that must return a row returned none.
    RowNotFound,
    /// A uniqueness constraint of the table refused the row.
    UniqueViolation,
    /// Any other fault: the connection, a timeout, the query itself.
    Other,
}

/// A stored user, its texts as sequences of characters.
pub struct UserView {
    pub id: u128,
    pub name: Seq<char>,
    pub email: Seq<char>,
    pub password: Seq<char>,
    pub created_at: i64,
    pub updated_at: i64,
}

/// A projection, its texts as sequences of characters.
pub struct GetUserView {
    pub id: u128,
    pub name: Seq<char>,
    pub email: Seq<char>,
    pub created_at: i64,
    pub updated_at: i64,
}

/// A request to create a user, its texts as sequences of characters.
pub struct CreateUserView {
    pub name: Seq<char>,
    pub email: Seq<char>,
    pub password: Seq<char>,
}

/// A request to change a user, its texts as sequences of characters.
pub struct UpdateUserView {
    pub name: Option<Seq<char>>,
    pub password: Option<Seq<char>>,
}

impl View for User {
    type V = UserView;

    open spec fn view(&self) -> UserView {
        UserView {
            id: self.id,
            name: self.name@,
            email: self.email@,
            password: self.password@,
            created_at: self.created_at,
            updated_at: self.updated_at,
        }
    }
}

impl View for GetUser {
    type V = GetUserView;

    open spec fn view(&self) -> GetUserView {
        GetUserView {
            id: self.id,
            name: self.name@,
            email: self.email@,
            created_at: self.created_at,
            updated_at: self.updated_at,
        }
    }
}

impl View for CreateUser {
    type V = CreateUserView;

    open spec fn view(&self) -> CreateUserView {
        CreateUserView { name: self.name@, email: self.email@, password: self.password@ }
    }
}

impl View for UpdateUser {
    type V = UpdateUserView;

    open spec fn view(&self) -> UpdateUserView {
        UpdateUserView {
            name: match self.name {
                Some(n) => Some(n@),
                None => None,
            },
            password: match self.password {
                Some(p) => Some(p@),
                None => None,
            },
        }
    }
}

impl UserView {
    /// The projection of the record: the record without its password.
    pub open spec fn projection(self) -> GetUserView {
        GetUserView {
            id: self.id,
            name: self.name,
            email: self.email,
            created_at: self.created_at,
            updated_at: self.updated_at,
        }
    }

    /// The record after a change: the fields that `patch` supplies replace
    /// the stored ones, the rest stay, and `updated_at` becomes `now`.
    pub open spec fn merged(self, patch: UpdateUserView, now: i64) -> UserView {
        UserView {
            id: self.id,
            name: match patch.name {
                Some(n) => n,
                None => self.name,
            },
            email: self.email,
            password: match patch.password {
                Some(p) => p,
                None => self.password,
            },
            created_at: self.created_at,
            updated_at: now,
        }
    }
}

impl CreateUserView {
    /// All three fields are there: none is empty.
    pub open spec fn is_complete(self) -> bool {
        self.name.len() > 0 && self.email.len() > 0 && self.password.len() > 0
    }

    /// The record of a user created from this request with `id` at `now`.
    pub open spec fn record(self, id: u128, now: i64) -> UserView {
        UserView {
            id,
            name: self.name,
            email: self.email,
            password: self.password,
            created_at: now,
            updated_at: now,
        }
    }
}

impl Clone for User {
    fn clone(&self) -> (copy: User)
        ensures
            copy@ == self@,
    {
        User {
            id: self.id,
            name: self.name.clone(),
            email: self.email.clone(),
            password: self.password.clone(),
            created_at: self.created_at,
            updated_at: self.updated_at,
        }
    }
}

impl From<User> for GetUser {
    fn from(user: User) -> (shown: GetUser) {
        GetUser {
            id: user.id,
            name: user.name,
            email: user.email,
            created_at: user.created_at,
            updated_at: user.updated_at,
        }
    }
}

impl FromSpecImpl<User> for GetUser {
    open spec fn obeys_from_spec() -> bool {
        true
    }

    open spec fn from_spec(user: User) -> GetUser {
        GetUser {
            id: user.id,
            name: user.name,
            email: user.email,
            created_at: user.created_at,
            updated_at: user.updated_at,
        }
    }
}

/// The projection of a stored user.
pub fn project(user: User) -> (shown: GetUser)
    ensures
        shown@ == user@.projection(),
{
    GetUser::from(user)
}

impl CreateUser {
    /// Whether the request names a user in full.
    pub fn is_complete(&self) -> (complete: bool)
        ensures
            complete == self@.is_complete(),
    {
        !self.name.as_str().is_empty() && !self.email.as_str().is_empty()
            && !self.password.as_str().is_empty()
    }

    /// The record to store for this request.
    pub fn into_user(self, id: u128, now: i64) -> (user: User)
        ensures
            user@ == self@.record(id, now),
    {
        User {
            id,
            name: self.name,
            email: self.email,
            password: self.password,
            created_at: now,
            updated_at: now,
        }
    }
}

impl UpdateUser {
    /// Applies the change to the record that was found.
    pub fn merge_into(self, found: User, now: i64) -> (user: User)
        ensures
            user@ == found@.merged(self@, now),
    {
        let name = match self.name {
            Some(n) => n,
            None => found.name,
        };
        let password = match self.password {
            Some(p) => p,
            None => found.password,
        };
        User {
            id: found.id,
            name,
            email: found.email,
            password,
            created_at: found.created_at,
            updated_at: now,
        }
    }
}

} // verus!
