//! The `Send` handler: resolves the authenticated caller and the
//! destination, turns the outbound payload into the inbound notification
//! the destination will see, and enqueues it into the destination's
//! mailbox without blocking.

use vstd::prelude::*;

use crate::errors::ServiceError;
use crate::ident::fresh_uuid;
use crate::mailbox::{mailbox_bound, mailbox_queue, try_enqueue};
use crate::notification::{
    HandleView, Notification, NotificationView, OutgoingPayload, PayloadView, SendRequest,
    SendResponse,
};
use crate::user::User;
use crate::user_list::UserList;

verus! {

/// A record whose mailbox and fields are exactly as they were: what a
/// rejected `Send` leaves behind for every user.
pub open spec fn record_kept(o: User, n: User) -> bool {
    &&& n.user_data.user == o.user_data.user
    &&& n.user_data.token == o.user_data.token
    &&& n.user_data.is_online == o.user_data.is_online
    &&& n.notifications_rx == o.notifications_rx
    &&& mailbox_bound(n.user_data.notifications_tx) == mailbox_bound(o.user_data.notifications_tx)
    &&& mailbox_queue(n.user_data.notifications_tx) == mailbox_queue(o.user_data.notifications_tx)
}

/// A record whose mailbox gained exactly the notification `nv` at the
/// end, all its other fields untouched: what a successful `Send` does to
/// the destination.
pub open spec fn record_delivered(o: User, n: User, nv: NotificationView) -> bool {
    &&& n.user_data.user == o.user_data.user
    &&& n.user_data.token == o.user_data.token
    &&& n.user_data.is_online == o.user_data.is_online
    &&& n.notifications_rx == o.notifications_rx
    &&& mailbox_bound(n.user_data.notifications_tx) == mailbox_bound(o.user_data.notifications_tx)
    &&& mailbox_queue(n.user_data.notifications_tx) == mailbox_queue(
        o.user_data.notifications_tx,
    ).push(nv)
}

/// The inbound notification a payload turns into: `from` is the caller's
/// public handle; `message_id` is the server-generated id and is read
/// only for `Message` payloads.
pub open spec fn forwarded_view(
    from: HandleView,
    p: PayloadView,
    message_id: Seq<char>,
) -> NotificationView {
    match p {
        PayloadView::Message { content } => NotificationView::Message { from, message_id, content },
        PayloadView::Typing { is_typing } => NotificationView::Typing { from, is_typing },
        PayloadView::Read { message_id: read_id } => NotificationView::Read {
            from,
            message_id: read_id,
        },
    }
}

/// The message id a `Send` response reports, or the empty sequence when
/// it reports none.
pub open spec fn response_id(resp: SendResponse) -> Seq<char> {
    match resp.message_id {
        Some(m) => m@,
        None => Seq::<char>::empty(),
    }
}

/// Handles one `Send` call made by the (already interceptor-checked)
/// caller `caller_id`. On success exactly one notification — built from
/// the request payload, stamped with the caller's public handle, and for
/// a `Message` payload carrying the same fresh id the response reports —
/// is appended to the destination's mailbox; every other record is
/// untouched. On any failure nothing is delivered and no id is reported.
pub fn handle_send(users: &mut UserList, caller_id: &str, request: &SendRequest) -> (r: Result<
    SendResponse,
    ServiceError,
>)
    requires
        old(users).wf(),
    ensures
        final(users).wf(),
        final(users)@.len() == old(users)@.len(),
        !old(users).contains_id(caller_id@) ==> r == Err::<SendResponse, ServiceError>(
            ServiceError::Internal,
        ),
        old(users).contains_id(caller_id@) && (request.to is None || request.payload is None)
            ==> r == Err::<SendResponse, ServiceError>(ServiceError::Internal),
        (request.to matches Some(d) && old(users).contains_id(caller_id@) && request.payload is Some
            && !old(users).contains_id(d.id@)) ==> r == Err::<SendResponse, ServiceError>(
            ServiceError::NotFound,
        ),
        (request.to matches Some(d) && old(users).contains_id(caller_id@) && request.payload is Some
            && old(users).contains_id(d.id@)) ==> (r is Ok || r == Err::<
            SendResponse,
            ServiceError,
        >(ServiceError::Internal)),
        r is Err ==> forall|j: int|
            0 <= j < old(users)@.len() ==> record_kept(
                old(users)@[j],
                #[trigger] final(users)@[j],
            ),
        r matches Ok(resp) ==> ({
            &&& old(users).contains_id(caller_id@)
            &&& request.to is Some
            &&& request.payload is Some
            &&& (request.to matches Some(d) && request.payload matches Some(p) && ({
                let from = old(users)@[old(users).index_of(caller_id@)].user_data.user@;
                let i = old(users).index_of(d.id@);
                &&& old(users).contains_id(d.id@)
                &&& forall|j: int|
                    0 <= j < old(users)@.len() && j != i ==> (#[trigger] final(users)@[j])
                        == old(users)@[j]
                &&& record_delivered(
                    old(users)@[i],
                    final(users)@[i],
                    forwarded_view(from, p@, response_id(resp)),
                )
                &&& (p matches OutgoingPayload::Message { .. } <==> resp.message_id is Some)
            }))
        }),
{
    let caller = match users.get_user(caller_id) {
        Ok(u) => u.user_data.user(),
        Err(_) => {
            return Err(ServiceError::Internal);
        },
    };
    let to = match &request.to {
        Some(t) => t,
        None => {
            return Err(ServiceError::Internal);
        },
    };
    let payload = match &request.payload {
        Some(p) => p,
        None => {
            return Err(ServiceError::Internal);
        },
    };
    let i = match users.find_index(to.id.as_str()) {
        Some(i) => i,
        None => {
            return Err(ServiceError::NotFound);
        },
    };
    proof {
        let w = users.index_of(to.id@);
        assert(users.contains_id(to.id@));
        assert(0 <= w < users@.len());
        assert(users@[w].user_data.user.id@ == to.id@);
        assert(w == i as int);
        let c = users.index_of(caller_id@);
        assert(caller@ == users@[c].user_data.user@);
    }
    let ghost pre = users@;
    let (notification, reply) = match payload {
        OutgoingPayload::Message { content } => {
            let message_id = fresh_uuid();
            let n = Notification::Message {
                from: caller,
                message_id: message_id.clone(),
                content: content.clone(),
            };
            (n, SendResponse { message_id: Some(message_id) })
        },
        OutgoingPayload::Typing { is_typing } => {
            (
                Notification::Typing { from: caller, is_typing: *is_typing },
                SendResponse { message_id: None },
            )
        },
        OutgoingPayload::Read { message_id } => {
            (
                Notification::Read { from: caller, message_id: message_id.clone() },
                SendResponse { message_id: None },
            )
        },
    };
    let tx = users.sender_at(i);
    let ok = try_enqueue(tx, notification);
    proof {
        assert(forall|j: int|
            0 <= j < users@.len() && j != i as int ==> (#[trigger] users@[j])
                == pre[j]);
        assert(users@[i as int].user_data.user == pre[i as int].user_data.user);
    }
    if ok {
        Ok(reply)
    } else {
        Err(ServiceError::Internal)
    }
}

} // verus!
