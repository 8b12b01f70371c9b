//! The wire-level values the relay moves around: public user handles,
//! notifications, and the send request/response pair.

use vstd::prelude::*;

verus! {

/// The public part of an identity: the opaque id and the display name.
/// This is what other users are allowed to see; the secret token never
/// travels inside a notification.
pub struct UserHandle {
    pub id: String,
    pub name: String,
}

/// Mathematical image of a `UserHandle`.
pub struct HandleView {
    pub id: Seq<char>,
    pub name: Seq<char>,
}

impl View for UserHandle {
    type V = HandleView;

    open spec fn view(&self) -> HandleView {
        HandleView { id: self.id@, name: self.name@ }
    }
}

impl Clone for UserHandle {
    fn clone(&self) -> (r: Self)
        ensures
            r@ == self@,
    {
        UserHandle { id: self.id.clone(), name: self.name.clone() }
    }
}

/// One inbound notification, as delivered through a mailbox: the public
/// handle of the originating user plus the payload.
pub enum Notification {
    Online { from: UserHandle, is_online: bool },
    Message { from: UserHandle, message_id: String, content: String },
    Delivered { from: UserHandle, message_id: String },
    Read { from: UserHandle, message_id: String },
    Typing { from: UserHandle, is_typing: bool },
}

/// Mathematical image of a `Notification`.
pub enum NotificationView {
    Online { from: HandleView, is_online: bool },
    Message { from: HandleView, message_id: Seq<char>, content: Seq<char> },
    Delivered { from: HandleView, message_id: Seq<char> },
    Read { from: HandleView, message_id: Seq<char> },
    Typing { from: HandleView, is_typing: bool },
}

impl View for Notification {
    type V = NotificationView;

    open spec fn view(&self) -> NotificationView {
        match self {
            Notification::Online { from, is_online } => NotificationView::Online {
                from: from@,
                is_online: *is_online,
            },
            Notification::Message { from, message_id, content } => NotificationView::Message {
                from: from@,
                message_id: message_id@,
                content: content@,
            },
            Notification::Delivered { from, message_id } => NotificationView::Delivered {
                from: from@,
                message_id: message_id@,
            },
            Notification::Read { from, message_id } => NotificationView::Read {
                from: from@,
                message_id: message_id@,
            },
            Notification::Typing { from, is_typing } => NotificationView::Typing {
                from: from@,
                is_typing: *is_typing,
            },
        }
    }
}

/// The presence notification that the fanout broadcasts for `h`.
pub open spec fn presence_view(h: HandleView, is_online: bool) -> NotificationView {
    NotificationView::Online { from: h, is_online }
}

/// The payload of an outbound `Send` call, mirroring the request oneof.
pub enum OutgoingPayload {
    Message { content: String },
    Typing { is_typing: bool },
    Read { message_id: String },
}

/// Mathematical image of an `OutgoingPayload`.
pub enum PayloadView {
    Message { content: Seq<char> },
    Typing { is_typing: bool },
    Read { message_id: Seq<char> },
}

impl View for OutgoingPayload {
    type V = PayloadView;

    open spec fn view(&self) -> PayloadView {
        match self {
            OutgoingPayload::Message { content } => PayloadView::Message { content: content@ },
            OutgoingPayload::Typing { is_typing } => PayloadView::Typing { is_typing: *is_typing },
            OutgoingPayload::Read { message_id } => PayloadView::Read { message_id: message_id@ },
        }
    }
}

/// A `Send` request: destination and payload arrive as options because the
/// wire format cannot rule out their absence; a missing field is rejected.
pub struct SendRequest {
    pub to: Option<UserHandle>,
    pub payload: Option<OutgoingPayload>,
}

/// A `Send` response: the server-generated message id, present exactly
/// when the payload was a `Message`.
#[derive(Debug, PartialEq, Eq)]
pub struct SendResponse {
    pub message_id: Option<String>,
}

} // verus!
