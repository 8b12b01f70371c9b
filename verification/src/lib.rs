pub mod chat_service;
pub mod errors;
pub mod ident;
pub mod mailbox;
pub mod notification;
pub mod playground;
pub mod user;
pub mod user_data;
pub mod user_list;

pub use chat_service::handle_send;
pub use errors::ServiceError;
pub use ident::{credentials_from_metadata, Identity};
pub use notification::{Notification, OutgoingPayload, SendRequest, SendResponse, UserHandle};
pub use user::User;
pub use user_data::UserData;
pub use user_list::UserList;
