//! The handlers: each reads its request, asks the service once and turns
//! what it returned into a reply.

use vstd::prelude::*;
use crate::clock::current_time;
use crate::ids::{fresh_id, is_version_4, named_id, parsed_id, request_id};
use crate::routes::reply::{
    create_reply, create_response, delete_reply, delete_response, get_reply, get_response,
    health_reply, health_response, list_reply, list_response, update_reply, update_response,
    HttpReply, HttpReplyView,
};
use crate::routes::service::{
    create_result, create_user_repository, created, delete_user_repository, get_all_users_repository,
    get_result, get_user_by_id_repository, projections, update_result, update_user_repository,
    updated,
};
use crate::routes::user::{
    CreateUser, CreateUserView, GetUserView, ServiceError, UpdateUser, UpdateUserView, UserView,
};
use crate::store::{removed, UserTable};

verus! {

/// What a fetch returns for the id that the request names.
pub open spec fn get_request_result(id: Result<u128, ServiceError>, t: Seq<UserView>) -> Result<
    GetUserView,
    ServiceError,
> {
    match id {
        Ok(id) => get_result(t, id),
        Err(e) => Err(e),
    }
}

/// What a change returns for the id that the request names.
pub open spec fn update_request_result(id: Result<u128, ServiceError>, t: Seq<UserView>) -> Result<
    (),
    ServiceError,
> {
    match id {
        Ok(id) => update_result(t, id),
        Err(e) => Err(e),
    }
}

/// The table after a change of the user that the request names: a request
/// without a valid id leaves it alone.
pub open spec fn update_request_table(
    id: Result<u128, ServiceError>,
    t: Seq<UserView>,
    patch: UpdateUserView,
    now: i64,
) -> Seq<UserView> {
    match id {
        Ok(id) => updated(t, id, patch, now),
        Err(_) => t,
    }
}

/// What a deletion returns for the id that the request names.
pub open spec fn delete_request_result(id: Result<u128, ServiceError>) -> Result<(), ServiceError> {
    match id {
        Ok(_) => Ok(()),
        Err(e) => Err(e),
    }
}

/// The table after a deletion of the user that the request names.
pub open spec fn delete_request_table(id: Result<u128, ServiceError>, t: Seq<UserView>) -> Seq<
    UserView,
> {
    match id {
        Ok(id) => removed(t, id),
        Err(_) => t,
    }
}

/// A creation under a random id `id` at the time `now` took the table from
/// `before` to `after` and was answered with `reply`.
pub open spec fn create_effect(
    before: Seq<UserView>,
    input: CreateUserView,
    id: u128,
    now: i64,
    after: Seq<UserView>,
    reply: HttpReplyView,
) -> bool {
    &&& is_version_4(id)
    &&& now >= 0
    &&& after == created(before, input, id, now)
    &&& reply == create_reply(create_result(before, input, id))
}

/// A change at the time `now` took the table from `before` to `after`.
pub open spec fn update_effect(
    before: Seq<UserView>,
    id: Result<u128, ServiceError>,
    patch: UpdateUserView,
    now: i64,
    after: Seq<UserView>,
) -> bool {
    &&& now >= 0
    &&& after == update_request_table(id, before, patch, now)
}

/// Answers the liveness probe: success with an empty body, whatever the
/// state of the store.
pub fn health_check() -> (reply: HttpReply)
    ensures
        reply@ == health_reply(),
{
    health_response()
}

/// Lists all users.
pub fn get_users(table: &UserTable) -> (reply: HttpReply)
    requires
        table.wf(),
    ensures
        reply@ == list_reply(Ok(projections(table@))),
{
    list_response(get_all_users_repository(table))
}

/// Fetches the user that `id` names, once the id has been read.
pub fn get_user_parsed(id: Result<u128, ServiceError>, table: &UserTable) -> (reply: HttpReply)
    requires
        table.wf(),
    ensures
        reply@ == get_reply(get_request_result(id, table@)),
{
    match id {
        Ok(id) => get_response(get_user_by_id_repository(id, table)),
        Err(e) => get_response(Err(e)),
    }
}

/// Fetches the user whose id is written in `id`.
pub fn get_user(id: &str, table: &UserTable) -> (reply: HttpReply)
    requires
        table.wf(),
    ensures
        reply@ == get_reply(get_request_result(named_id(parsed_id(id@)), table@)),
{
    get_user_parsed(request_id(id), table)
}

/// Creates a user from `json` under the id `id` at the time `now`.
pub fn create_user_with(json: CreateUser, id: u128, now: i64, table: &mut UserTable) -> (reply:
    HttpReply)
    requires
        old(table).wf(),
    ensures
        final(table).wf(),
        reply@ == create_reply(create_result(old(table)@, json@, id)),
        final(table)@ == created(old(table)@, json@, id, now),
{
    create_response(create_user_repository(json, id, now, table))
}

/// Creates a user from `json`, under a fresh random id, at the present
/// time.
pub fn create_user(json: CreateUser, table: &mut UserTable) -> (reply: HttpReply)
    requires
        old(table).wf(),
    ensures
        final(table).wf(),
        exists|id: u128, now: i64| #[trigger]
            create_effect(old(table)@, json@, id, now, final(table)@, reply@),
{
    let id = fresh_id();
    let now = current_time();
    let ghost input = json@;
    let reply = create_user_with(json, id, now, table);
    assert(create_effect(old(table)@, input, id, now, table@, reply@));
    reply
}

/// Changes the user that `id` names at the time `now`, once the id has been
/// read.
pub fn update_user_parsed(
    id: Result<u128, ServiceError>,
    json: UpdateUser,
    now: i64,
    table: &mut UserTable,
) -> (reply: HttpReply)
    requires
        old(table).wf(),
    ensures
        final(table).wf(),
        reply@ == update_reply(update_request_result(id, old(table)@)),
        final(table)@ == update_request_table(id, old(table)@, json@, now),
{
    match id {
        Ok(id) => update_response(update_user_repository(id, json, now, table)),
        Err(e) => update_response(Err(e)),
    }
}

/// Changes the user whose id is written in `id`, at the present time.
pub fn update_user(id: &str, json: UpdateUser, table: &mut UserTable) -> (reply: HttpReply)
    requires
        old(table).wf(),
    ensures
        final(table).wf(),
        reply@ == update_reply(update_request_result(named_id(parsed_id(id@)), old(table)@)),
        exists|now: i64| #[trigger]
            update_effect(old(table)@, named_id(parsed_id(id@)), json@, now, final(table)@),
{
    let id = request_id(id);
    let now = current_time();
    let ghost patch = json@;
    let reply = update_user_parsed(id, json, now, table);
    assert(update_effect(old(table)@, id, patch, now, table@));
    reply
}

/// Deletes the user that `id` names, once the id has been read.
pub fn delete_user_parsed(id: Result<u128, ServiceError>, table: &mut UserTable) -> (reply:
    HttpReply)
    requires
        old(table).wf(),
    ensures
        final(table).wf(),
        reply@ == delete_reply(delete_request_result(id)),
        final(table)@ == delete_request_table(id, old(table)@),
{
    match id {
        Ok(id) => delete_response(delete_user_repository(id, table)),
        Err(e) => delete_response(Err(e)),
    }
}

/// Deletes the user whose id is written in `id`.
pub fn delete_user(id: &str, table: &mut UserTable) -> (reply: HttpReply)
    requires
        old(table).wf(),
    ensures
        final(table).wf(),
        reply@ == delete_reply(delete_request_result(named_id(parsed_id(id@)))),
        final(table)@ == delete_request_table(named_id(parsed_id(id@)), old(table)@),
{
    delete_user_parsed(request_id(id), table)
}

} // verus!
