//! The user service: what each operation returns and how it changes the
//! table, and the decisions it takes on what a store reports.

use vstd::prelude::*;
use crate::clock::current_time;
use crate::ids::{fresh_id, is_version_4};
use crate::routes::reply::{get_result_view, list_result_view, shown_view};
use crate::routes::user::{
    project, CreateUser, CreateUserView, GetUser, GetUserView, ServiceError, StoreError,
    UpdateUser, UpdateUserView, User, UserView,
};
use crate::store::{
    found_view, has_email, has_id, index_of_id, removed, row_with_id, rows_view, UserTable,
};

verus! {

/// The projections of the rows of `t`, in the table's order.
pub open spec fn projections(t: Seq<UserView>) -> Seq<GetUserView> {
    t.map_values(|u: UserView| u.projection())
}

/// What a fetch by id returns on the table `t`.
pub open spec fn get_result(t: Seq<UserView>, id: u128) -> Result<GetUserView, ServiceError> {
    match row_with_id(t, id) {
        Some(row) => Ok(row.projection()),
        None => Err(ServiceError::NotFound),
    }
}

/// What the creation of a user from `input` under the id `id` returns on
/// the table `t`. An email that is taken is a conflict, whatever the other
/// fields hold; then the request must be complete; and an id that is taken
/// violates the table's constraints, which is a conflict too.
pub open spec fn create_result(t: Seq<UserView>, input: CreateUserView, id: u128) -> Result<
    u128,
    ServiceError,
> {
    if has_email(t, input.email) {
        Err(ServiceError::Conflict)
    } else if !input.is_complete() {
        Err(ServiceError::InvalidInput)
    } else if has_id(t, id) {
        Err(ServiceError::Conflict)
    } else {
        Ok(id)
    }
}

/// The table after that creation at the time `now`.
pub open spec fn created(t: Seq<UserView>, input: CreateUserView, id: u128, now: i64) -> Seq<
    UserView,
> {
    if create_result(t, input, id) is Ok {
        t.push(input.record(id, now))
    } else {
        t
    }
}

/// What a change of the user `id` returns on the table `t`.
pub open spec fn update_result(t: Seq<UserView>, id: u128) -> Result<(), ServiceError> {
    if has_id(t, id) {
        Ok(())
    } else {
        Err(ServiceError::NotFound)
    }
}

/// The table after the change `patch` of the user `id` at the time `now`.
pub open spec fn updated(t: Seq<UserView>, id: u128, patch: UpdateUserView, now: i64) -> Seq<
    UserView,
> {
    if has_id(t, id) {
        t.update(index_of_id(t, id), t[index_of_id(t, id)].merged(patch, now))
    } else {
        t
    }
}

/// What the check before an insert decides, given whether the lookup by
/// email found a row.
pub open spec fn precheck(input: CreateUserView, exists: Result<bool, StoreError>) -> Result<
    (),
    ServiceError,
> {
    match exists {
        Err(_) => Err(ServiceError::StorageError),
        Ok(true) => Err(ServiceError::Conflict),
        Ok(false) => if input.is_complete() {
            Ok(())
        } else {
            Err(ServiceError::InvalidInput)
        },
    }
}

/// What a creation returns, given what the insert reported.
pub open spec fn insert_outcome(id: u128, reported: Result<(), StoreError>) -> Result<
    u128,
    ServiceError,
> {
    match reported {
        Ok(_) => Ok(id),
        Err(StoreError::UniqueViolation) => Err(ServiceError::Conflict),
        Err(_) => Err(ServiceError::StorageError),
    }
}

/// What a lookup by id comes to, given what the store reported.
pub open spec fn fetch_outcome(found: Result<Option<UserView>, StoreError>) -> Result<
    UserView,
    ServiceError,
> {
    match found {
        Ok(Some(row)) => Ok(row),
        Ok(None) => Err(ServiceError::NotFound),
        Err(StoreError::RowNotFound) => Err(ServiceError::NotFound),
        Err(_) => Err(ServiceError::StorageError),
    }
}

/// What a write comes to, given what the store reported.
pub open spec fn write_outcome(reported: Result<(), StoreError>) -> Result<(), ServiceError> {
    match reported {
        Ok(_) => Ok(()),
        Err(_) => Err(ServiceError::StorageError),
    }
}

/// What a listing comes to, given what the store reported.
pub open spec fn list_outcome(rows: Result<Seq<UserView>, StoreError>) -> Result<
    Seq<GetUserView>,
    ServiceError,
> {
    match rows {
        Ok(t) => Ok(projections(t)),
        Err(_) => Err(ServiceError::StorageError),
    }
}

/// What a store reported of a lookup, the row by its view.
pub open spec fn lookup_view(found: Result<Option<User>, StoreError>) -> Result<
    Option<UserView>,
    StoreError,
> {
    match found {
        Ok(row) => Ok(found_view(row)),
        Err(e) => Err(e),
    }
}

/// What a store reported of a listing, the rows by their views.
pub open spec fn listing_view(rows: Result<Vec<User>, StoreError>) -> Result<
    Seq<UserView>,
    StoreError,
> {
    match rows {
        Ok(v) => Ok(rows_view(v@)),
        Err(e) => Err(e),
    }
}

/// The result of a lookup, the row by its view.
pub open spec fn fetched_view(r: Result<User, ServiceError>) -> Result<UserView, ServiceError> {
    match r {
        Ok(row) => Ok(row@),
        Err(e) => Err(e),
    }
}

/// The projection of a fetched row, or the error of the fetch.
pub open spec fn projected(r: Result<UserView, ServiceError>) -> Result<
    GetUserView,
    ServiceError,
> {
    match r {
        Ok(row) => Ok(row.projection()),
        Err(e) => Err(e),
    }
}

/// Decides whether a creation may go on to the insert.
pub fn check_create(user: &CreateUser, exists: Result<bool, StoreError>) -> (r: Result<
    (),
    ServiceError,
>)
    ensures
        r == precheck(user@, exists),
{
    match exists {
        Err(_) => Err(ServiceError::StorageError),
        Ok(true) => Err(ServiceError::Conflict),
        Ok(false) => {
            if user.is_complete() {
                Ok(())
            } else {
                Err(ServiceError::InvalidInput)
            }
        },
    }
}

/// Decides what a creation returns once the insert has reported.
pub fn created_id(id: u128, reported: Result<(), StoreError>) -> (r: Result<u128, ServiceError>)
    ensures
        r == insert_outcome(id, reported),
{
    match reported {
        Ok(_) => Ok(id),
        Err(StoreError::UniqueViolation) => Err(ServiceError::Conflict),
        Err(_) => Err(ServiceError::StorageError),
    }
}

/// Decides what a lookup by id comes to.
pub fn fetched(found: Result<Option<User>, StoreError>) -> (r: Result<User, ServiceError>)
    ensures
        fetched_view(r) == fetch_outcome(lookup_view(found)),
{
    match found {
        Ok(Some(row)) => Ok(row),
        Ok(None) => Err(ServiceError::NotFound),
        Err(StoreError::RowNotFound) => Err(ServiceError::NotFound),
        Err(_) => Err(ServiceError::StorageError),
    }
}

/// Decides what a fetch returns: the projection of the row that was found.
pub fn shown(found: Result<Option<User>, StoreError>) -> (r: Result<GetUser, ServiceError>)
    ensures
        get_result_view(r) == projected(fetch_outcome(lookup_view(found))),
{
    match fetched(found) {
        Ok(row) => Ok(project(row)),
        Err(e) => Err(e),
    }
}

/// Decides what a write comes to.
pub fn written(reported: Result<(), StoreError>) -> (r: Result<(), ServiceError>)
    ensures
        r == write_outcome(reported),
{
    match reported {
        Ok(_) => Ok(()),
        Err(_) => Err(ServiceError::StorageError),
    }
}

/// Decides what a listing returns: the projection of each row, in order.
pub fn listed(rows: Result<Vec<User>, StoreError>) -> (r: Result<Vec<GetUser>, ServiceError>)
    ensures
        list_result_view(r) == list_outcome(listing_view(rows)),
{
    match rows {
        Err(_) => Err(ServiceError::StorageError),
        Ok(rows) => {
            let mut users: Vec<GetUser> = Vec::new();
            let mut i: usize = 0;
            while i < rows.len()
                invariant
                    i <= rows.len(),
                    users@.len() == i,
                    forall|k: int| 0 <= k < i ==> (#[trigger] users@[k])@ == rows@[k]@.projection(),
                decreases rows.len() - i,
            {
                users.push(project(rows[i].clone()));
                i += 1;
            }
            assert(shown_view(users@) =~= projections(rows_view(rows@)));
            Ok(users)
        },
    }
}

/// What a creation does once the lookup by email has reported.
#[derive(Debug)]
pub enum CreateNext {
    /// Insert this record.
    Insert(User),
    /// End with this error, and insert nothing.
    Refuse(ServiceError),
}

/// What a change does once the lookup by id has reported.
#[derive(Debug)]
pub enum UpdateNext {
    /// Write the name, the password and the time of change of this record.
    Write(User),
    /// End with this error, and write nothing.
    Refuse(ServiceError),
}

/// The next step of a creation, the record by its view.
pub enum CreateNextView {
    Insert(UserView),
    Refuse(ServiceError),
}

/// The next step of a change, the record by its view.
pub enum UpdateNextView {
    Write(UserView),
    Refuse(ServiceError),
}

impl View for CreateNext {
    type V = CreateNextView;

    open spec fn view(&self) -> CreateNextView {
        match self {
            CreateNext::Insert(row) => CreateNextView::Insert(row@),
            CreateNext::Refuse(e) => CreateNextView::Refuse(*e),
        }
    }
}

impl View for UpdateNext {
    type V = UpdateNextView;

    open spec fn view(&self) -> UpdateNextView {
        match self {
            UpdateNext::Write(row) => UpdateNextView::Write(row@),
            UpdateNext::Refuse(e) => UpdateNextView::Refuse(*e),
        }
    }
}

/// The step that follows the lookup by email in a creation under the id
/// `id` at the time `now`.
pub open spec fn create_next(
    input: CreateUserView,
    exists: Result<bool, StoreError>,
    id: u128,
    now: i64,
) -> CreateNextView {
    match precheck(input, exists) {
        Ok(_) => CreateNextView::Insert(input.record(id, now)),
        Err(e) => CreateNextView::Refuse(e),
    }
}

/// The step that follows the lookup by id in a change at the time `now`.
pub open spec fn update_next(
    patch: UpdateUserView,
    found: Result<Option<UserView>, StoreError>,
    now: i64,
) -> UpdateNextView {
    match fetch_outcome(found) {
        Ok(row) => UpdateNextView::Write(row.merged(patch, now)),
        Err(e) => UpdateNextView::Refuse(e),
    }
}

/// Decides the step that follows the lookup by email, for a creation under
/// the id `id` at the time `now`.
pub fn create_after_lookup_with(
    user: CreateUser,
    exists: Result<bool, StoreError>,
    id: u128,
    now: i64,
) -> (next: CreateNext)
    ensures
        next@ == create_next(user@, exists, id, now),
{
    match check_create(&user, exists) {
        Ok(_) => CreateNext::Insert(user.into_user(id, now)),
        Err(e) => CreateNext::Refuse(e),
    }
}

/// Decides the step that follows the lookup by email. A record to insert
/// has a fresh random id, and the present time as the time of its creation
/// and of its last change.
pub fn create_after_lookup(user: CreateUser, exists: Result<bool, StoreError>) -> (next: CreateNext)
    ensures
        match next {
            CreateNext::Insert(row) => next@ == create_next(user@, exists, row.id, row.created_at)
                && is_version_4(row.id) && row.created_at >= 0,
            CreateNext::Refuse(e) => precheck(user@, exists) == Err::<(), ServiceError>(e),
        },
{
    match check_create(&user, exists) {
        Ok(_) => {
            let id = fresh_id();
            let now = current_time();
            CreateNext::Insert(user.into_user(id, now))
        },
        Err(e) => CreateNext::Refuse(e),
    }
}

/// Decides the step that follows the lookup by id, for a change at the
/// time `now`.
pub fn update_after_fetch_at(
    change: UpdateUser,
    found: Result<Option<User>, StoreError>,
    now: i64,
) -> (next: UpdateNext)
    ensures
        next@ == update_next(change@, lookup_view(found), now),
{
    match fetched(found) {
        Ok(row) => UpdateNext::Write(change.merge_into(row, now)),
        Err(e) => UpdateNext::Refuse(e),
    }
}

/// Decides the step that follows the lookup by id. A record to write has
/// the present time as the time of its last change.
pub fn update_after_fetch(change: UpdateUser, found: Result<Option<User>, StoreError>) -> (next:
    UpdateNext)
    ensures
        match next {
            UpdateNext::Write(row) => next@ == update_next(
                change@,
                lookup_view(found),
                row.updated_at,
            ) && row.updated_at >= 0,
            UpdateNext::Refuse(e) => fetch_outcome(lookup_view(found)) == Err::<
                UserView,
                ServiceError,
            >(e),
        },
{
    match fetched(found) {
        Ok(row) => {
            let now = current_time();
            UpdateNext::Write(change.merge_into(row, now))
        },
        Err(e) => UpdateNext::Refuse(e),
    }
}

/// Lists all users, in the table's order.
pub fn get_all_users_repository(table: &UserTable) -> (r: Result<Vec<GetUser>, ServiceError>)
    requires
        table.wf(),
    ensures
        list_result_view(r) == Ok::<Seq<GetUserView>, ServiceError>(projections(table@)),
{
    listed(Ok(table.list_all()))
}

/// Fetches the user with the id `id`.
pub fn get_user_by_id_repository(id: u128, table: &UserTable) -> (r: Result<GetUser, ServiceError>)
    requires
        table.wf(),
    ensures
        get_result_view(r) == get_result(table@, id),
{
    shown(Ok(table.find_by_id(id)))
}

/// Whether a user with the email `email` is stored.
pub fn check_if_user_exists(email: &str, table: &UserTable) -> (r: Result<bool, StoreError>)
    requires
        table.wf(),
    ensures
        r == Ok::<bool, StoreError>(has_email(table@, email@)),
{
    let found = table.find_by_email(email);
    Ok(found.is_some())
}

/// Creates a user from `user` under the id `id` at the time `now`.
pub fn create_user_repository(user: CreateUser, id: u128, now: i64, table: &mut UserTable) -> (r:
    Result<u128, ServiceError>)
    requires
        old(table).wf(),
    ensures
        final(table).wf(),
        r == create_result(old(table)@, user@, id),
        final(table)@ == created(old(table)@, user@, id, now),
{
    let exists = check_if_user_exists(user.email.as_str(), table);
    match create_after_lookup_with(user, exists, id, now) {
        CreateNext::Insert(row) => {
            let reported = table.insert_user(row);
            created_id(id, reported)
        },
        CreateNext::Refuse(e) => Err(e),
    }
}

/// Changes the user with the id `id` at the time `now`: the fields that
/// `user` supplies replace the stored ones.
pub fn update_user_repository(id: u128, user: UpdateUser, now: i64, table: &mut UserTable) -> (r:
    Result<(), ServiceError>)
    requires
        old(table).wf(),
    ensures
        final(table).wf(),
        r == update_result(old(table)@, id),
        final(table)@ == updated(old(table)@, id, user@, now),
{
    match update_after_fetch_at(user, Ok(table.find_by_id(id)), now) {
        UpdateNext::Write(row) => {
            table.update_user(id, row.name, row.password, row.updated_at);
            written(Ok(()))
        },
        UpdateNext::Refuse(e) => Err(e),
    }
}

/// Deletes the user with the id `id`. A user that is not there is no error.
pub fn delete_user_repository(id: u128, table: &mut UserTable) -> (r: Result<(), ServiceError>)
    requires
        old(table).wf(),
    ensures
        final(table).wf(),
        r == Ok::<(), ServiceError>(()),
        final(table)@ == removed(old(table)@, id),
{
    table.delete_user(id);
    written(Ok(()))
}

} // verus!
