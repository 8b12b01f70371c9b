//! The bounded per-user mailbox, backed by a tokio mpsc channel.
//!
//! The channel itself is outside code; this module declares its two
//! endpoint types, names the abstract state a producer handle sees, and
//! wraps the calls the registry makes. Everything else in the crate
//! reasons about mailboxes only through these contracts.
//!
//! The consumer half is drained (or dropped) outside the library, so the
//! state named here is the handle's send history: which notifications were
//! enqueued and in what order, never what is currently buffered or whether
//! the next enqueue will succeed. The registry only ever appends.

use vstd::prelude::*;

use crate::notification::{Notification, NotificationView};

verus! {

/// How many undelivered notifications one mailbox buffers.
pub const MAILBOX_CAPACITY: usize = 4;

#[verifier::external_type_specification]
#[verifier::external_body]
#[verifier::reject_recursive_types(T)]
pub struct ExSender<T>(tokio::sync::mpsc::Sender<T>);

#[verifier::external_type_specification]
#[verifier::external_body]
#[verifier::reject_recursive_types(T)]
pub struct ExReceiver<T>(tokio::sync::mpsc::Receiver<T>);

/// The notifications sent through this producer handle since the channel
/// was created, oldest first. The consumer drains the channel outside the
/// library, so this is a history of what was enqueued, not a picture of
/// what is still buffered.
pub uninterp spec fn mailbox_queue(tx: tokio::sync::mpsc::Sender<Notification>) -> Seq<
    NotificationView,
>;

/// The buffer bound the channel behind this producer handle was created
/// with.
pub uninterp spec fn mailbox_bound(tx: tokio::sync::mpsc::Sender<Notification>) -> nat;

/// Relies on tokio::sync::mpsc::channel: a freshly created bounded channel
/// holds no messages and buffers up to `capacity` of them. The channel
/// panics on a capacity of zero or above its semaphore's permit limit
/// (an eighth of `usize::MAX`), so the bounds here exclude both.
#[verifier::external_body]
pub fn new_mailbox(capacity: usize) -> (r: (
    tokio::sync::mpsc::Sender<Notification>,
    tokio::sync::mpsc::Receiver<Notification>,
))
    requires
        1 <= capacity <= usize::MAX / 8,
    ensures
        mailbox_queue(r.0) == Seq::<NotificationView>::empty(),
        mailbox_bound(r.0) == capacity as nat,
{
    tokio::sync::mpsc::channel(capacity)
}

/// Relies on tokio::sync::mpsc::Sender::try_send: on success the message
/// is appended in FIFO order; on failure (buffer full at call time, or
/// the receiver half gone) nothing is enqueued. Whether a given call
/// succeeds depends on how far the consumer has drained, so success is
/// never promised and never ruled out.
#[verifier::external_body]
pub fn try_enqueue(tx: &mut tokio::sync::mpsc::Sender<Notification>, n: Notification) -> (r: bool)
    ensures
        mailbox_bound(*final(tx)) == mailbox_bound(*old(tx)),
        r ==> mailbox_queue(*final(tx)) == mailbox_queue(*old(tx)).push(n@),
        !r ==> mailbox_queue(*final(tx)) == mailbox_queue(*old(tx)),
{
    tx.try_send(n).is_ok()
}

} // verus!
