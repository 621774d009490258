//! What a client is told: a status code and a body, for each outcome of
//! each request.

use vstd::prelude::*;
use crate::routes::user::{GetUser, GetUserView, ServiceError};

verus! {

/// The body of a reply, before it is written out.
#[derive(Debug)]
pub enum ReplyBody {
    /// No body at all.
    Empty,
    /// A short text.
    Text(String),
    /// The id of a user, sent as a JSON value.
    Id(u128),
    /// One user, sent as a JSON object.
    User(GetUser),
    /// Users, sent as a JSON array.
    Users(Vec<GetUser>),
}

/// A reply to a request.
#[derive(Debug)]
pub struct HttpReply {
    pub status: u16,
    pub body: ReplyBody,
}

/// The body of a reply, its texts as sequences of characters.
pub enum ReplyBodyView {
    Empty,
    Text(Seq<char>),
    Id(u128),
    User(GetUserView),
    Users(Seq<GetUserView>),
}

/// A reply, its body by its view.
pub struct HttpReplyView {
    pub status: u16,
    pub body: ReplyBodyView,
}

/// The users of a vector of projections, each by its view.
pub open spec fn shown_view(users: Seq<GetUser>) -> Seq<GetUserView> {
    users.map_values(|u: GetUser| u@)
}

impl View for ReplyBody {
    type V = ReplyBodyView;

    open spec fn view(&self) -> ReplyBodyView {
        match self {
            ReplyBody::Empty => ReplyBodyView::Empty,
            ReplyBody::Text(t) => ReplyBodyView::Text(t@),
            ReplyBody::Id(id) => ReplyBodyView::Id(*id),
            ReplyBody::User(u) => ReplyBodyView::User(u@),
            ReplyBody::Users(us) => ReplyBodyView::Users(shown_view(us@)),
        }
    }
}

impl View for HttpReply {
    type V = HttpReplyView;

    open spec fn view(&self) -> HttpReplyView {
        HttpReplyView { status: self.status, body: self.body@ }
    }
}

/// A reply with a text as its body.
pub open spec fn text_reply(status: u16, text: Seq<char>) -> HttpReplyView {
    HttpReplyView { status, body: ReplyBodyView::Text(text) }
}

/// The reply to a fault of the store: it says nothing of the cause.
pub open spec fn internal_error_reply() -> HttpReplyView {
    text_reply(500, "Internal Server Error"@)
}

/// The reply to an id that is no UUID.
pub open spec fn invalid_id_reply() -> HttpReplyView {
    text_reply(400, "Invalid id"@)
}

/// The reply of the liveness probe: success, and no body.
pub open spec fn health_reply() -> HttpReplyView {
    HttpReplyView { status: 200, body: ReplyBodyView::Empty }
}

/// The reply to a request for all users.
pub open spec fn list_reply(r: Result<Seq<GetUserView>, ServiceError>) -> HttpReplyView {
    match r {
        Ok(users) => HttpReplyView { status: 200, body: ReplyBodyView::Users(users) },
        Err(_) => internal_error_reply(),
    }
}

/// The reply to a request for one user. A user that is not there is
/// reported like a fault of the store.
pub open spec fn get_reply(r: Result<GetUserView, ServiceError>) -> HttpReplyView {
    match r {
        Ok(user) => HttpReplyView { status: 200, body: ReplyBodyView::User(user) },
        Err(ServiceError::InvalidInput) => invalid_id_reply(),
        Err(_) => internal_error_reply(),
    }
}

/// The reply to a request to create a user.
pub open spec fn create_reply(r: Result<u128, ServiceError>) -> HttpReplyView {
    match r {
        Ok(id) => HttpReplyView { status: 200, body: ReplyBodyView::Id(id) },
        Err(ServiceError::InvalidInput) => text_reply(400, "Invalid input"@),
        Err(ServiceError::Conflict) => text_reply(400, "User already exists"@),
        Err(_) => internal_error_reply(),
    }
}

/// The reply to a request to change a user.
pub open spec fn update_reply(r: Result<(), ServiceError>) -> HttpReplyView {
    match r {
        Ok(_) => text_reply(200, "User updated"@),
        Err(ServiceError::InvalidInput) => invalid_id_reply(),
        Err(ServiceError::NotFound) => text_reply(404, "User not found"@),
        Err(_) => internal_error_reply(),
    }
}

/// The reply to a request to delete a user.
pub open spec fn delete_reply(r: Result<(), ServiceError>) -> HttpReplyView {
    match r {
        Ok(_) => text_reply(200, "User deleted"@),
        Err(ServiceError::InvalidInput) => invalid_id_reply(),
        Err(_) => internal_error_reply(),
    }
}

/// The result of a listing, the users by their views.
pub open spec fn list_result_view(r: Result<Vec<GetUser>, ServiceError>) -> Result<
    Seq<GetUserView>,
    ServiceError,
> {
    match r {
        Ok(users) => Ok(shown_view(users@)),
        Err(e) => Err(e),
    }
}

/// The result of a fetch, the user by its view.
pub open spec fn get_result_view(r: Result<GetUser, ServiceError>) -> Result<
    GetUserView,
    ServiceError,
> {
    match r {
        Ok(user) => Ok(user@),
        Err(e) => Err(e),
    }
}

fn text(status: u16, message: &str) -> (reply: HttpReply)
    ensures
        reply@ == text_reply(status, message@),
{
    HttpReply { status, body: ReplyBody::Text(message.to_owned()) }
}

fn internal_error() -> (reply: HttpReply)
    ensures
        reply@ == internal_error_reply(),
{
    text(500, "Internal Server Error")
}

fn invalid_id() -> (reply: HttpReply)
    ensures
        reply@ == invalid_id_reply(),
{
    text(400, "Invalid id")
}

/// Answers the liveness probe.
pub fn health_response() -> (reply: HttpReply)
    ensures
        reply@ == health_reply(),
{
    HttpReply { status: 200, body: ReplyBody::Empty }
}

/// Answers a request for all users with what the service returned.
pub fn list_response(result: Result<Vec<GetUser>, ServiceError>) -> (reply: HttpReply)
    ensures
        reply@ == list_reply(list_result_view(result)),
{
    match result {
        Ok(users) => HttpReply { status: 200, body: ReplyBody::Users(users) },
        Err(_) => internal_error(),
    }
}

/// Answers a request for one user with what the service returned.
pub fn get_response(result: Result<GetUser, ServiceError>) -> (reply: HttpReply)
    ensures
        reply@ == get_reply(get_result_view(result)),
{
    match result {
        Ok(user) => HttpReply { status: 200, body: ReplyBody::User(user) },
        Err(ServiceError::InvalidInput) => invalid_id(),
        Err(_) => internal_error(),
    }
}

/// Answers a request to create a user with what the service returned.
pub fn create_response(result: Result<u128, ServiceError>) -> (reply: HttpReply)
    ensures
        reply@ == create_reply(result),
{
    match result {
        Ok(id) => HttpReply { status: 200, body: ReplyBody::Id(id) },
        Err(ServiceError::InvalidInput) => text(400, "Invalid input"),
        Err(ServiceError::Conflict) => text(400, "User already exists"),
        Err(_) => internal_error(),
    }
}

/// Answers a request to change a user with what the service returned.
pub fn update_response(result: Result<(), ServiceError>) -> (reply: HttpReply)
    ensures
        reply@ == update_reply(result),
{
    match result {
        Ok(_) => text(200, "User updated"),
        Err(ServiceError::InvalidInput) => invalid_id(),
        Err(ServiceError::NotFound) => text(404, "User not found"),
        Err(_) => internal_error(),
    }
}

/// Answers a request to delete a user with what the service returned.
pub fn delete_response(result: Result<(), ServiceError>) -> (reply: HttpReply)
    ensures
        reply@ == delete_reply(result),
{
    match result {
        Ok(_) => text(200, "User deleted"),
        Err(ServiceError::InvalidInput) => invalid_id(),
        Err(_) => internal_error(),
    }
}

} // verus!
