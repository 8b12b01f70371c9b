//! The per-user record the registry owns: identity, presence flag, and
//! the producer half of the user's mailbox.

use vstd::prelude::*;

use crate::ident::fresh_uuid;
use crate::notification::{Notification, UserHandle};

verus! {

/// Everything the registry keeps for one connected user. The mailbox
/// producer handle lives here so that presence fanout and `Send` can
/// enqueue into this user's mailbox; the consumer half lives in `User`.
pub struct UserData {
    pub user: UserHandle,
    pub token: String,
    pub is_online: bool,
    pub notifications_tx: tokio::sync::mpsc::Sender<Notification>,
}

impl UserData {
    /// Issues a fresh random id and token for `name` and binds the record
    /// to the given mailbox producer handle.
    pub fn new(name: String, sender: tokio::sync::mpsc::Sender<Notification>) -> (r: UserData)
        ensures
            r.user.name@ == name@,
            r.is_online == false,
            r.notifications_tx == sender,
    {
        let id = fresh_uuid();
        let token = fresh_uuid();
        UserData {
            user: UserHandle { id, name },
            token,
            is_online: false,
            notifications_tx: sender,
        }
    }

    /// The public handle (id and display name) of this user.
    pub fn user(&self) -> (r: UserHandle)
        ensures
            r@ == self.user@,
    {
        self.user.clone()
    }

    pub fn id(&self) -> (r: String)
        ensures
            r@ == self.user.id@,
    {
        self.user.id.clone()
    }

    pub fn name(&self) -> (r: String)
        ensures
            r@ == self.user.name@,
    {
        self.user.name.clone()
    }

    pub fn token(&self) -> (r: String)
        ensures
            r@ == self.token@,
    {
        self.token.clone()
    }

    pub fn is_online(&self) -> (r: bool)
        ensures
            r == self.is_online,
    {
        self.is_online
    }

    pub fn set_online(&mut self, is_online: bool)
        ensures
            *final(self) == (UserData { is_online, ..*old(self) }),
    {
        self.is_online = is_online;
    }
}

} // verus!
