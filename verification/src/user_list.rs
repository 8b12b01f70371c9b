//! The user registry: the single source of truth for who is connected,
//! plus the presence fanout that runs on registration and removal.

use vstd::prelude::*;

use crate::errors::ServiceError;
use crate::ident::{fresh_uuid, str_eq, Identity};
use crate::mailbox::{mailbox_bound, mailbox_queue, new_mailbox, try_enqueue, MAILBOX_CAPACITY};
use crate::notification::{presence_view, HandleView, Notification, NotificationView, UserHandle};
use crate::user::User;
use crate::user_data::UserData;

verus! {

/// The set of currently registered users. Every mutation goes through the
/// methods here; the well-formedness invariant is that no two records
/// share an id. The record list itself stays behind this boundary:
/// callers see it only as the spec-level sequence `self@`.
pub struct UserList {
    users: Vec<User>,
}

impl View for UserList {
    type V = Seq<User>;

    closed spec fn view(&self) -> Seq<User> {
        self.users@
    }
}

/// What one presence-fanout step may do to a bystander record `o`,
/// yielding `n`: identity, token, presence flag and consumer slot are
/// untouched, and the mailbox either gained exactly the one presence
/// notification `nv` (appended at the end) or — delivery being best
/// effort — nothing at all. A bystander never receives `nv` twice.
pub open spec fn fanout_step(o: User, n: User, nv: NotificationView) -> bool {
    &&& n.user_data.user == o.user_data.user
    &&& n.user_data.token == o.user_data.token
    &&& n.user_data.is_online == o.user_data.is_online
    &&& n.notifications_rx == o.notifications_rx
    &&& mailbox_bound(n.user_data.notifications_tx) == mailbox_bound(o.user_data.notifications_tx)
    &&& (mailbox_queue(n.user_data.notifications_tx) == mailbox_queue(
        o.user_data.notifications_tx,
    ).push(nv) || mailbox_queue(n.user_data.notifications_tx) == mailbox_queue(
        o.user_data.notifications_tx,
    ))
}

/// `q` is what seeding a fresh mailbox against the peers `peers` can
/// leave behind: an in-order selection of the peers' `Online(true)`
/// notifications, at most one per peer and nothing else. Which peers are
/// missing is exactly the set whose best-effort enqueue was dropped.
pub open spec fn seeded_mailbox(q: Seq<NotificationView>, peers: Seq<HandleView>) -> bool
    decreases peers.len(),
{
    if peers.len() == 0 {
        q == Seq::<NotificationView>::empty()
    } else {
        ||| (q.len() > 0 && q.last() == presence_view(peers.last(), true) && seeded_mailbox(
            q.drop_last(),
            peers.drop_last(),
        ))
        ||| seeded_mailbox(q, peers.drop_last())
    }
}

/// A seeded mailbox never holds more notifications than there are peers.
pub proof fn lemma_seeded_mailbox_len(q: Seq<NotificationView>, peers: Seq<HandleView>)
    requires
        seeded_mailbox(q, peers),
    ensures
        q.len() <= peers.len(),
    decreases peers.len(),
{
    if peers.len() == 0 {
    } else if q.len() > 0 && q.last() == presence_view(peers.last(), true) && seeded_mailbox(
        q.drop_last(),
        peers.drop_last(),
    ) {
        lemma_seeded_mailbox_len(q.drop_last(), peers.drop_last());
    } else {
        lemma_seeded_mailbox_len(q, peers.drop_last());
    }
}

/// Law: when no seed was dropped — the mailbox holds as many
/// notifications as there are peers — a newly registered user's mailbox
/// contains exactly one `Online(true)` notification per already-connected
/// peer, in registry order.
pub proof fn lemma_seeded_mailbox_complete(q: Seq<NotificationView>, peers: Seq<HandleView>)
    requires
        seeded_mailbox(q, peers),
        q.len() == peers.len(),
    ensures
        forall|i: int| 0 <= i < peers.len() ==> q[i] == presence_view(peers[i], true),
    decreases peers.len(),
{
    if peers.len() == 0 {
    } else if q.len() > 0 && q.last() == presence_view(peers.last(), true) && seeded_mailbox(
        q.drop_last(),
        peers.drop_last(),
    ) {
        lemma_seeded_mailbox_complete(q.drop_last(), peers.drop_last());
        assert forall|i: int| 0 <= i < peers.len() implies q[i] == presence_view(
            peers[i],
            true,
        ) by {
            if i < peers.len() - 1 {
                assert(q.drop_last()[i] == presence_view(peers.drop_last()[i], true));
                assert(q.drop_last()[i] == q[i]);
                assert(peers.drop_last()[i] == peers[i]);
            } else {
                assert(q[i] == q.last());
                assert(peers[i] == peers.last());
            }
        }
    } else {
        assert(seeded_mailbox(q, peers.drop_last()));
        lemma_seeded_mailbox_len(q, peers.drop_last());
        assert(false);
    }
}

/// Appending one more peer to a seeding run: the mailbox either kept the
/// seed (it grew by that peer's notification) or dropped it.
proof fn lemma_seeded_mailbox_extend(
    q: Seq<NotificationView>,
    peers: Seq<HandleView>,
    h: HandleView,
)
    requires
        seeded_mailbox(q, peers),
    ensures
        seeded_mailbox(q.push(presence_view(h, true)), peers.push(h)),
        seeded_mailbox(q, peers.push(h)),
{
    assert(q.push(presence_view(h, true)).drop_last() =~= q);
    assert(peers.push(h).drop_last() =~= peers);
    assert(q.push(presence_view(h, true)).last() == presence_view(h, true));
}

impl UserList {
    /// The public handles currently registered, in registry order.
    pub open spec fn handles(self) -> Seq<HandleView> {
        self@.map_values(|u: User| u.user_data.user@)
    }

    pub open spec fn contains_id(self, id: Seq<char>) -> bool {
        exists|i: int|
            0 <= i < self@.len() && #[trigger] self@[i].user_data.user.id@ == id
    }

    /// The index of the record holding `id`; meaningful only when
    /// `contains_id(id)` holds and, under `wf()`, unique.
    pub open spec fn index_of(self, id: Seq<char>) -> int {
        choose|i: int|
            0 <= i < self@.len() && #[trigger] self@[i].user_data.user.id@ == id
    }

    /// No duplicate ids: the registry's id list is a set.
    pub open spec fn wf(self) -> bool {
        forall|i: int, j: int|
            0 <= i < j < self@.len() ==> #[trigger] self@[i].user_data.user.id@
                != #[trigger] self@[j].user_data.user.id@
    }

    /// Some record carries exactly this id and this token.
    pub open spec fn authenticated(self, id: Seq<char>, token: Seq<char>) -> bool {
        exists|i: int|
            0 <= i < self@.len() && (#[trigger] self@[i].user_data.user.id@) == id
                && self@[i].user_data.token@ == token
    }

    pub fn new() -> (r: UserList)
        ensures
            r@ == Seq::<User>::empty(),
            r.wf(),
    {
        UserList { users: Vec::new() }
    }

    /// Mutable access to the mailbox producer handle of the record at
    /// index `i`; everything else about the record and the registry is
    /// untouched.
    pub(crate) fn sender_at(&mut self, i: usize) -> (r: &mut tokio::sync::mpsc::Sender<
        Notification,
    >)
        requires
            i < old(self)@.len(),
        ensures
            *r == old(self)@[i as int].user_data.notifications_tx,
            final(self)@ == old(self)@.update(
                i as int,
                (User {
                    user_data: (UserData {
                        notifications_tx: *final(r),
                        ..old(self)@[i as int].user_data
                    }),
                    ..old(self)@[i as int]
                }),
            ),
    {
        &mut self.users[i].user_data.notifications_tx
    }

    /// The index of the record holding `user_id`, if any.
    pub(crate) fn find_index(&self, user_id: &str) -> (r: Option<usize>)
        ensures
            match r {
                Some(i) => i < self@.len() && self@[i as int].user_data.user.id@
                    == user_id@,
                None => !self.contains_id(user_id@),
            },
    {
        let mut i: usize = 0;
        while i < self.users.len()
            invariant
                i <= self@.len(),
                forall|k: int|
                    0 <= k < i ==> #[trigger] self@[k].user_data.user.id@ != user_id@,
            decreases self@.len() - i,
        {
            if str_eq(self.users[i].user_data.user.id.as_str(), user_id) {
                return Some(i);
            }
            i += 1;
        }
        None
    }

    /// Read-only lookup of a destination user.
    pub fn get_user(&self, user_id: &str) -> (r: Result<&User, ServiceError>)
        requires
            self.wf(),
        ensures
            r is Ok <==> self.contains_id(user_id@),
            r matches Ok(u) ==> {
                &&& u.user_data.user.id@ == user_id@
                &&& *u == self@[self.index_of(user_id@)]
            },
            r is Err ==> r == Err::<&User, ServiceError>(ServiceError::NotFound),
    {
        match self.find_index(user_id) {
            Some(i) => {
                let u = &self.users[i];
                proof {
                    assert(self.contains_id(user_id@));
                    let w = self.index_of(user_id@);
                    assert(self@[w].user_data.user.id@ == user_id@);
                    assert(w == i as int);
                }
                Ok(u)
            },
            None => Err(ServiceError::NotFound),
        }
    }

    /// Registers a new user under `name`: issues a fresh identity whose id
    /// does not collide with any registered id, seeds the newcomer's
    /// mailbox with one `Online(true)` notification per already-connected
    /// peer, best-effort notifies every peer that the newcomer is online,
    /// and appends the record. In the (collision-resistant) event that the
    /// generated id is already present, fails with `AlreadyExists` and
    /// changes nothing.
    pub fn create_user(&mut self, name: &str) -> (r: Result<Identity, ServiceError>)
        requires
            old(self).wf(),
        ensures
            final(self).wf(),
            old(self)@.len() == 0 ==> r is Ok,
            match r {
                Ok(ident) => {
                    let nu = final(self)@.last();
                    &&& !old(self).contains_id(ident.id@)
                    &&& final(self).contains_id(ident.id@)
                    &&& ident.name@ == name@
                    &&& final(self)@.len() == old(self)@.len() + 1
                    &&& nu.user_data.user.id@ == ident.id@
                    &&& nu.user_data.user.name@ == name@
                    &&& nu.user_data.token@ == ident.token@
                    &&& nu.user_data.is_online == false
                    &&& nu.notifications_rx is Some
                    &&& mailbox_bound(nu.user_data.notifications_tx) == MAILBOX_CAPACITY as nat
                    &&& seeded_mailbox(
                        mailbox_queue(nu.user_data.notifications_tx),
                        old(self).handles(),
                    )
                    &&& forall|j: int|
                        0 <= j < old(self)@.len() ==> fanout_step(
                            old(self)@[j],
                            #[trigger] final(self)@[j],
                            presence_view(nu.user_data.user@, true),
                        )
                },
                Err(e) => e == ServiceError::AlreadyExists && final(self)@ == old(self)@,
            },
    {
        let id = fresh_uuid();
        let token = fresh_uuid();
        self.create_user_with_id(id.as_str(), token.as_str(), name)
    }

    /// Registers a new user under the caller-supplied identity. This is
    /// the deterministic heart of registration: it succeeds exactly when
    /// `user_id` is not registered yet, and fails with `AlreadyExists` —
    /// changing nothing — when it is.
    pub fn create_user_with_id(&mut self, user_id: &str, token: &str, name: &str) -> (r: Result<
        Identity,
        ServiceError,
    >)
        requires
            old(self).wf(),
        ensures
            final(self).wf(),
            r is Ok <==> !old(self).contains_id(user_id@),
            match r {
                Ok(ident) => {
                    let nu = final(self)@.last();
                    &&& ident.id@ == user_id@
                    &&& ident.token@ == token@
                    &&& ident.name@ == name@
                    &&& final(self).contains_id(user_id@)
                    &&& final(self)@.len() == old(self)@.len() + 1
                    &&& nu.user_data.user.id@ == user_id@
                    &&& nu.user_data.user.name@ == name@
                    &&& nu.user_data.token@ == token@
                    &&& nu.user_data.is_online == false
                    &&& nu.notifications_rx is Some
                    &&& mailbox_bound(nu.user_data.notifications_tx) == MAILBOX_CAPACITY as nat
                    &&& seeded_mailbox(
                        mailbox_queue(nu.user_data.notifications_tx),
                        old(self).handles(),
                    )
                    &&& forall|j: int|
                        0 <= j < old(self)@.len() ==> fanout_step(
                            old(self)@[j],
                            #[trigger] final(self)@[j],
                            presence_view(nu.user_data.user@, true),
                        )
                },
                Err(e) => e == ServiceError::AlreadyExists && final(self)@ == old(self)@,
            },
    {
        if self.find_index(user_id).is_some() {
            return Err(ServiceError::AlreadyExists);
        }

        let (notifications_tx, notifications_rx) = new_mailbox(MAILBOX_CAPACITY);
        let mut user = User {
            user_data: UserData {
                user: UserHandle { id: user_id.to_owned(), name: name.to_owned() },
                token: token.to_owned(),
                is_online: false,
                notifications_tx,
            },
            notifications_rx: Some(notifications_rx),
        };

        let new_handle = user.user_data.user();
        let ghost nv = presence_view(user.user_data.user@, true);
        let ghost peers = self.handles();

        let mut j: usize = 0;
        while j < self.users.len()
            invariant
                old(self).wf(),
                j <= self@.len(),
                self@.len() == old(self)@.len(),
                peers == old(self).handles(),
                forall|k: int|
                    j <= k < self@.len() ==> #[trigger] self@[k] == old(self)@[k],
                forall|k: int|
                    0 <= k < j ==> fanout_step(old(self)@[k], #[trigger] self@[k], nv),
                new_handle@ == user.user_data.user@,
                nv == presence_view(user.user_data.user@, true),
                user.user_data.user.id@ == user_id@,
                user.user_data.user.name@ == name@,
                user.user_data.token@ == token@,
                user.user_data.is_online == false,
                user.notifications_rx is Some,
                mailbox_bound(user.user_data.notifications_tx) == MAILBOX_CAPACITY as nat,
                seeded_mailbox(mailbox_queue(user.user_data.notifications_tx), peers.take(j as int)),
                !old(self).contains_id(user_id@),
            decreases self@.len() - j,
        {
            let ghost pre = self@;
            let peer_handle = self.users[j].user_data.user();
            let _ = try_enqueue(
                &mut self.users[j].user_data.notifications_tx,
                Notification::Online { from: new_handle.clone(), is_online: true },
            );
            proof {
                assert(fanout_step(pre[j as int], self@[j as int], nv));
            }
            let ghost q0 = mailbox_queue(user.user_data.notifications_tx);
            let _ = try_enqueue(
                &mut user.user_data.notifications_tx,
                Notification::Online { from: peer_handle, is_online: true },
            );
            proof {
                assert(peers[j as int] == old(self)@[j as int].user_data.user@);
                assert(peer_handle@ == peers[j as int]);
                lemma_seeded_mailbox_extend(q0, peers.take(j as int), peers[j as int]);
                assert(peers.take(j + 1) =~= peers.take(j as int).push(peers[j as int]));
            }
            j += 1;
        }

        let ident = Identity {
            id: user.user_data.id(),
            token: user.user_data.token(),
            name: user.user_data.name(),
        };
        proof {
            assert(peers.take(self@.len() as int) =~= peers);
        }
        let ghost pre_push = self@;
        self.users.push(user);
        proof {
            assert(forall|k: int|
                0 <= k < pre_push.len() ==> (#[trigger] pre_push[k].user_data.user.id@) == old(self)@[k].user_data.user.id@);
            assert(forall|k: int|
                0 <= k < pre_push.len() ==> (#[trigger] old(self)@[k].user_data.user.id@)
                    != self@.last().user_data.user.id@);
            assert(self.contains_id(ident.id@));
        }
        Ok(ident)
    }

    /// Flips `user`'s presence flag and best-effort notifies every
    /// registered record with a different id that `user` is now
    /// online/offline. Records carrying `user`'s own id are skipped and
    /// left untouched.
    pub fn set_user_online(&mut self, user: &mut User, is_online: bool)
        ensures
            final(user).user_data.user == old(user).user_data.user,
            final(user).user_data.token == old(user).user_data.token,
            final(user).user_data.notifications_tx == old(user).user_data.notifications_tx,
            final(user).user_data.is_online == is_online,
            final(user).notifications_rx == old(user).notifications_rx,
            final(self)@.len() == old(self)@.len(),
            old(self).wf() ==> final(self).wf(),
            forall|j: int|
                0 <= j < old(self)@.len() ==> if old(self)@[j].user_data.user.id@
                    == old(user).user_data.user.id@ {
                    (#[trigger] final(self)@[j]) == old(self)@[j]
                } else {
                    fanout_step(
                        old(self)@[j],
                        final(self)@[j],
                        presence_view(old(user).user_data.user@, is_online),
                    )
                },
    {
        user.user_data.set_online(is_online);
        let handle = user.user_data.user();
        let ghost nv = presence_view(old(user).user_data.user@, is_online);

        let mut j: usize = 0;
        while j < self.users.len()
            invariant
                j <= self@.len(),
                self@.len() == old(self)@.len(),
                handle@ == old(user).user_data.user@,
                user.user_data.user == old(user).user_data.user,
                nv == presence_view(old(user).user_data.user@, is_online),
                forall|k: int|
                    j <= k < self@.len() ==> #[trigger] self@[k] == old(self)@[k],
                forall|k: int|
                    0 <= k < j ==> if old(self)@[k].user_data.user.id@ == old(user).user_data.user.id@ {
                        (#[trigger] self@[k]) == old(self)@[k]
                    } else {
                        fanout_step(old(self)@[k], self@[k], nv)
                    },
            decreases self@.len() - j,
        {
            let same = str_eq(
                self.users[j].user_data.user.id.as_str(),
                user.user_data.user.id.as_str(),
            );
            if !same {
                let _ = try_enqueue(
                    &mut self.users[j].user_data.notifications_tx,
                    Notification::Online { from: handle.clone(), is_online },
                );
            }
            j += 1;
        }
    }

    /// Deregisters `user_id`: removes the record if present (closing both
    /// mailbox halves it still owns) and best-effort notifies every
    /// remaining user that the departed user went offline. A second
    /// removal of the same id observes `NotFound` and changes nothing.
    pub fn remove_user(&mut self, user_id: &str) -> (r: Result<(), ServiceError>)
        requires
            old(self).wf(),
        ensures
            final(self).wf(),
            r is Ok <==> old(self).contains_id(user_id@),
            r is Err ==> r == Err::<(), ServiceError>(ServiceError::NotFound) && final(self)@ == old(self)@,
            r is Ok ==> ({
                let i = old(self).index_of(user_id@);
                let h = old(self)@[i].user_data.user@;
                &&& final(self)@.len() + 1 == old(self)@.len()
                &&& !final(self).contains_id(user_id@)
                &&& forall|j: int|
                    0 <= j < final(self)@.len() ==> fanout_step(
                        old(self)@.remove(i)[j],
                        #[trigger] final(self)@[j],
                        presence_view(h, false),
                    )
            }),
    {
        let i = match self.find_index(user_id) {
            Some(i) => i,
            None => {
                return Err(ServiceError::NotFound);
            },
        };
        proof {
            let w = old(self).index_of(user_id@);
            assert(old(self).contains_id(user_id@));
            assert(0 <= w < old(self)@.len());
            assert(old(self)@[w].user_data.user.id@ == user_id@);
            assert(w == i as int);
        }
        let mut user = self.users.remove(i);
        proof {
            assert(forall|k: int|
                0 <= k < self@.len() ==> (#[trigger] self@[k].user_data.user.id@)
                    != user_id@);
        }
        self.set_user_online(&mut user, false);
        proof {
            let ghost mid = old(self)@.remove(i as int);
            assert(forall|j: int|
                0 <= j < self@.len() ==> (#[trigger] self@[j].user_data.user)
                    == mid[j].user_data.user);
            assert(forall|i1: int, j1: int|
                0 <= i1 < j1 < self@.len()
                    ==> (#[trigger] self@[i1].user_data.user.id@)
                    != (#[trigger] self@[j1].user_data.user.id@)) by {
                assert(forall|i1: int, j1: int|
                    0 <= i1 < j1 < mid.len() ==> (#[trigger] mid[i1].user_data.user.id@)
                        != (#[trigger] mid[j1].user_data.user.id@));
            }
        }
        Ok(())
    }

    /// Claims the mailbox consumer for `user_id`: the take-once accessor
    /// behind `Receive`. Fails with `NotFound` when the user is absent or
    /// the consumer was already claimed, leaving the registry untouched.
    pub fn take_receiver(&mut self, user_id: &str) -> (r: Result<
        tokio::sync::mpsc::Receiver<Notification>,
        ServiceError,
    >)
        requires
            old(self).wf(),
        ensures
            final(self).wf(),
            r is Ok <==> (old(self).contains_id(user_id@) && old(self)@[old(self).index_of(
                user_id@,
            )].notifications_rx is Some),
            r is Err ==> r == Err::<tokio::sync::mpsc::Receiver<Notification>, ServiceError>(
                ServiceError::NotFound,
            ) && final(self)@ == old(self)@,
            r matches Ok(rx) ==> ({
                let i = old(self).index_of(user_id@);
                &&& old(self)@[i].notifications_rx == Some(rx)
                &&& final(self)@ == old(self)@.update(
                    i,
                    (User { user_data: old(self)@[i].user_data, notifications_rx: None }),
                )
            }),
    {
        let i = match self.find_index(user_id) {
            Some(i) => i,
            None => {
                return Err(ServiceError::NotFound);
            },
        };
        proof {
            let w = old(self).index_of(user_id@);
            assert(old(self).contains_id(user_id@));
            assert(0 <= w < old(self)@.len());
            assert(old(self)@[w].user_data.user.id@ == user_id@);
            assert(w == i as int);
        }
        let got = self.users[i].take_receiver();
        match got {
            Some(rx) => Ok(rx),
            None => {
                proof {
                    assert(final(self)@ =~= old(self)@);
                }
                Err(ServiceError::NotFound)
            },
        }
    }

    /// The token check behind the authentication interceptor: true exactly
    /// when `user_id` is registered under this `user_token`.
    pub fn is_user_authenticated(&self, user_id: &str, user_token: &str) -> (r: bool)
        ensures
            r == self.authenticated(user_id@, user_token@),
    {
        let mut i: usize = 0;
        while i < self.users.len()
            invariant
                i <= self@.len(),
                forall|k: int|
                    0 <= k < i ==> !((#[trigger] self@[k].user_data.user.id@) == user_id@
                        && self@[k].user_data.token@ == user_token@),
            decreases self@.len() - i,
        {
            if str_eq(self.users[i].user_data.user.id.as_str(), user_id) && str_eq(
                self.users[i].user_data.token.as_str(),
                user_token,
            ) {
                return true;
            }
            i += 1;
        }
        false
    }
}

} // verus!
