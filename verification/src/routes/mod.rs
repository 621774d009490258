//! The requests the service answers.

pub mod guarantees;
pub mod handlers;
pub mod reply;
pub mod service;
pub mod user;

pub use handlers::health_check;
pub use reply::{HttpReply, ReplyBody};
pub use user::{CreateUser, GetUser, ServiceError, StoreError, UpdateUser, User};
