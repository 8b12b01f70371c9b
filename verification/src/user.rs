//! A registered user: the registry-owned record plus the take-once
//! consumer half of the user's mailbox.

use vstd::prelude::*;

use crate::mailbox::{mailbox_bound, mailbox_queue, new_mailbox, MAILBOX_CAPACITY};
use crate::notification::Notification;
use crate::user_data::UserData;

verus! {

/// One registry entry. `notifications_rx` holds the mailbox consumer
/// until the user's receive stream claims it; a claimed consumer is never
/// handed out twice.
pub struct User {
    pub user_data: UserData,
    pub notifications_rx: Option<tokio::sync::mpsc::Receiver<Notification>>,
}

impl User {
    /// Creates a user named `name` with a fresh identity and an empty
    /// mailbox whose consumer is still available.
    pub fn new(name: &str) -> (r: User)
        ensures
            r.user_data.user.name@ == name@,
            r.user_data.is_online == false,
            r.notifications_rx is Some,
            mailbox_queue(r.user_data.notifications_tx) == Seq::<
                crate::notification::NotificationView,
            >::empty(),
            mailbox_bound(r.user_data.notifications_tx) == MAILBOX_CAPACITY as nat,
    {
        let (notifications_tx, notifications_rx) = new_mailbox(MAILBOX_CAPACITY);
        User {
            user_data: UserData::new(name.to_owned(), notifications_tx),
            notifications_rx: Some(notifications_rx),
        }
    }

    /// Claims the mailbox consumer. The first claim succeeds; every later
    /// claim observes `None` and fails, which is what makes a second
    /// concurrent receive stream impossible.
    pub fn take_receiver(&mut self) -> (r: Option<tokio::sync::mpsc::Receiver<Notification>>)
        ensures
            r == old(self).notifications_rx,
            final(self).notifications_rx is None,
            final(self).user_data == old(self).user_data,
    {
        self.notifications_rx.take()
    }

    pub fn id(&self) -> (r: String)
        ensures
            r@ == self.user_data.user.id@,
    {
        self.user_data.id()
    }
}

} // verus!
