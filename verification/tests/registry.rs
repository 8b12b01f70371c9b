use chat_server::credentials_from_metadata;
use chat_server::Notification;
use chat_server::ServiceError;
use chat_server::UserList;

fn drain(rx: &mut tokio::sync::mpsc::Receiver<Notification>) -> Vec<Notification> {
    let mut out = Vec::new();
    while let Ok(n) = rx.try_recv() {
        out.push(n);
    }
    out
}

#[test]
fn register_issues_distinct_ids() {
    let mut users = UserList::new();
    let a = users.create_user("alice").unwrap();
    let b = users.create_user("bob").unwrap();
    assert_ne!(a.id, b.id);
    assert_eq!(a.name, "alice");
    assert_eq!(b.name, "bob");
    assert!(users.get_user(a.id.as_str()).is_ok());
    assert!(users.get_user(b.id.as_str()).is_ok());
}

#[test]
fn registering_a_taken_id_fails_with_already_exists() {
    let mut users = UserList::new();
    let a = users
        .create_user_with_id("id-1", "token-1", "alice")
        .unwrap();
    assert_eq!(a.id, "id-1");
    assert_eq!(a.token, "token-1");
    assert_eq!(a.name, "alice");
    match users.create_user_with_id("id-1", "token-2", "impostor") {
        Err(ServiceError::AlreadyExists) => {}
        _ => panic!("duplicate id must be rejected"),
    }
    // the rejected registration left no trace: still exactly one record.
    assert!(users.get_user("id-1").is_ok());
    assert!(users.is_user_authenticated("id-1", "token-1"));
    assert!(!users.is_user_authenticated("id-1", "token-2"));
}

#[test]
fn new_user_is_seeded_once_per_peer() {
    let mut users = UserList::new();
    users.create_user_with_id("id-a", "t", "alice").unwrap();
    users.create_user_with_id("id-b", "t", "bob").unwrap();
    users.create_user_with_id("id-c", "t", "carol").unwrap();
    users.create_user_with_id("id-d", "t", "dave").unwrap();

    // dave joined three peers: exactly one Online(true) seed per peer,
    // in registry order.
    let mut rx = users.take_receiver("id-d").unwrap();
    let got = drain(&mut rx);
    assert_eq!(got.len(), 3);
    let expected = ["id-a", "id-b", "id-c"];
    for (n, want) in got.iter().zip(expected.iter()) {
        match n {
            Notification::Online { from, is_online } => {
                assert!(*is_online);
                assert_eq!(from.id.as_str(), *want);
            }
            _ => panic!("expected an online notification"),
        }
    }
}

#[test]
fn authentication_requires_matching_token() {
    let mut users = UserList::new();
    let a = users.create_user("alice").unwrap();
    assert!(users.is_user_authenticated(a.id.as_str(), a.token.as_str()));
    assert!(!users.is_user_authenticated(a.id.as_str(), "wrong-token"));
    assert!(!users.is_user_authenticated("unknown-id", a.token.as_str()));
}

#[test]
fn new_user_mailbox_is_seeded_with_online_peers() {
    let mut users = UserList::new();
    let a = users.create_user("alice").unwrap();
    let b = users.create_user("bob").unwrap();

    // bob joined with exactly one peer: his mailbox holds one seed.
    let mut rx_b = users.take_receiver(b.id.as_str()).unwrap();
    let got = drain(&mut rx_b);
    assert_eq!(got.len(), 1);
    match &got[0] {
        Notification::Online { from, is_online } => {
            assert!(*is_online);
            assert_eq!(from.id, a.id);
            assert_eq!(from.name, "alice");
        }
        _ => panic!("expected an online notification"),
    }

    // alice joined an empty registry but was then told bob came online.
    let mut rx_a = users.take_receiver(a.id.as_str()).unwrap();
    let got = drain(&mut rx_a);
    assert_eq!(got.len(), 1);
    match &got[0] {
        Notification::Online { from, is_online } => {
            assert!(*is_online);
            assert_eq!(from.id, b.id);
        }
        _ => panic!("expected an online notification"),
    }
}

#[test]
fn deregistration_fans_out_one_offline_notification() {
    let mut users = UserList::new();
    let a = users.create_user("alice").unwrap();
    let b = users.create_user("bob").unwrap();
    let c = users.create_user("carol").unwrap();

    users.remove_user(b.id.as_str()).unwrap();

    // alice saw bob and carol come online, then bob go offline: 3 in FIFO order.
    let mut rx_a = users.take_receiver(a.id.as_str()).unwrap();
    let got = drain(&mut rx_a);
    assert_eq!(got.len(), 3);
    match &got[0] {
        Notification::Online { from, is_online } => {
            assert!(*is_online);
            assert_eq!(from.id, b.id);
        }
        _ => panic!("expected an online notification"),
    }
    match &got[1] {
        Notification::Online { from, is_online } => {
            assert!(*is_online);
            assert_eq!(from.id, c.id);
        }
        _ => panic!("expected an online notification"),
    }
    match &got[2] {
        Notification::Online { from, is_online } => {
            assert!(!*is_online);
            assert_eq!(from.id, b.id);
        }
        _ => panic!("expected an offline notification"),
    }

    // carol was seeded with alice and bob, then told bob left: exactly one offline.
    let mut rx_c = users.take_receiver(c.id.as_str()).unwrap();
    let got = drain(&mut rx_c);
    assert_eq!(got.len(), 3);
    let offline: Vec<&Notification> = got
        .iter()
        .filter(|n| matches!(n, Notification::Online { is_online: false, .. }))
        .collect();
    assert_eq!(offline.len(), 1);
    match offline[0] {
        Notification::Online { from, .. } => assert_eq!(from.id, b.id),
        _ => unreachable!(),
    }
}

#[test]
fn deregistration_is_not_repeatable() {
    let mut users = UserList::new();
    let a = users.create_user("alice").unwrap();
    assert_eq!(users.remove_user("no-such-id"), Err(ServiceError::NotFound));
    assert_eq!(users.remove_user(a.id.as_str()), Ok(()));
    assert!(users.get_user(a.id.as_str()).is_err());
    assert_eq!(users.remove_user(a.id.as_str()), Err(ServiceError::NotFound));
}

#[test]
fn mailbox_consumer_is_take_once() {
    let mut users = UserList::new();
    let a = users.create_user("alice").unwrap();
    assert!(users.take_receiver(a.id.as_str()).is_ok());
    match users.take_receiver(a.id.as_str()) {
        Err(ServiceError::NotFound) => {}
        _ => panic!("second take must fail"),
    }
    match users.take_receiver("no-such-id") {
        Err(ServiceError::NotFound) => {}
        _ => panic!("unknown user must fail"),
    }
    // the record itself is untouched by the failed takes
    assert!(users.get_user(a.id.as_str()).is_ok());
}

#[test]
fn call_metadata_must_carry_both_credentials() {
    let ok = credentials_from_metadata(Some("id-1".to_owned()), Some("tok-1".to_owned()));
    assert_eq!(ok, Ok(("id-1".to_owned(), "tok-1".to_owned())));
    assert_eq!(
        credentials_from_metadata(None, Some("tok-1".to_owned())),
        Err(ServiceError::Unauthenticated)
    );
    assert_eq!(
        credentials_from_metadata(Some("id-1".to_owned()), None),
        Err(ServiceError::Unauthenticated)
    );
    assert_eq!(credentials_from_metadata(None, None), Err(ServiceError::Unauthenticated));
}

#[test]
fn error_messages_name_the_failure() {
    assert_eq!(ServiceError::Unauthenticated.message(), "could not authenticate");
    assert_eq!(ServiceError::NotFound.message(), "user id not found");
    assert_eq!(ServiceError::AlreadyExists.message(), "user already exists");
    assert_eq!(ServiceError::Internal.message(), "internal error");
}
