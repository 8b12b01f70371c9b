use chat_server::handle_send;
use chat_server::Notification;
use chat_server::OutgoingPayload;
use chat_server::SendRequest;
use chat_server::ServiceError;
use chat_server::UserHandle;
use chat_server::UserList;

fn drain(rx: &mut tokio::sync::mpsc::Receiver<Notification>) -> Vec<Notification> {
    let mut out = Vec::new();
    while let Ok(n) = rx.try_recv() {
        out.push(n);
    }
    out
}

fn to_handle(id: &str) -> Option<UserHandle> {
    Some(UserHandle { id: id.to_owned(), name: String::new() })
}

#[test]
fn message_round_trip_reports_the_delivered_id() {
    let mut users = UserList::new();
    let a = users.create_user("alice").unwrap();
    let b = users.create_user("bob").unwrap();

    let request = SendRequest {
        to: to_handle(b.id.as_str()),
        payload: Some(OutgoingPayload::Message { content: "hi bob".to_owned() }),
    };
    let response = handle_send(&mut users, a.id.as_str(), &request).unwrap();
    let sent_id = response.message_id.expect("a message send reports its id");

    let mut rx_b = users.take_receiver(b.id.as_str()).unwrap();
    let got = drain(&mut rx_b);
    // bob's mailbox: the seed for alice, then the message.
    assert_eq!(got.len(), 2);
    match &got[1] {
        Notification::Message { from, message_id, content } => {
            assert_eq!(content, "hi bob");
            assert_eq!(from.id, a.id);
            assert_eq!(from.name, "alice");
            assert_eq!(*message_id, sent_id);
        }
        _ => panic!("expected a message notification"),
    }
}

#[test]
fn send_to_unknown_destination_reports_not_found() {
    let mut users = UserList::new();
    let a = users.create_user("alice").unwrap();
    let b = users.create_user("bob").unwrap();

    let request = SendRequest {
        to: to_handle("no-such-id"),
        payload: Some(OutgoingPayload::Message { content: "lost".to_owned() }),
    };
    let r = handle_send(&mut users, a.id.as_str(), &request);
    assert_eq!(r, Err(ServiceError::NotFound));

    // nothing was delivered anywhere.
    let mut rx_b = users.take_receiver(b.id.as_str()).unwrap();
    let got = drain(&mut rx_b);
    assert_eq!(got.len(), 1);
    assert!(matches!(&got[0], Notification::Online { .. }));
}

#[test]
fn send_with_missing_fields_is_rejected() {
    let mut users = UserList::new();
    let a = users.create_user("alice").unwrap();
    let b = users.create_user("bob").unwrap();

    let no_destination = SendRequest {
        to: None,
        payload: Some(OutgoingPayload::Typing { is_typing: true }),
    };
    assert_eq!(
        handle_send(&mut users, a.id.as_str(), &no_destination),
        Err(ServiceError::Internal)
    );

    let no_payload = SendRequest { to: to_handle(b.id.as_str()), payload: None };
    assert_eq!(
        handle_send(&mut users, a.id.as_str(), &no_payload),
        Err(ServiceError::Internal)
    );
}

#[test]
fn send_from_unknown_caller_is_rejected() {
    let mut users = UserList::new();
    let b = users.create_user("bob").unwrap();
    let request = SendRequest {
        to: to_handle(b.id.as_str()),
        payload: Some(OutgoingPayload::Message { content: "hi".to_owned() }),
    };
    assert_eq!(
        handle_send(&mut users, "never-registered", &request),
        Err(ServiceError::Internal)
    );
}

#[test]
fn send_to_full_mailbox_is_rejected() {
    let mut users = UserList::new();
    let a = users.create_user("alice").unwrap();
    let b = users.create_user("bob").unwrap();

    // bob's mailbox holds one seed; three more messages fill its four slots.
    for k in 0..3 {
        let request = SendRequest {
            to: to_handle(b.id.as_str()),
            payload: Some(OutgoingPayload::Message { content: format!("m{}", k) }),
        };
        assert!(handle_send(&mut users, a.id.as_str(), &request).is_ok());
    }
    let overflow = SendRequest {
        to: to_handle(b.id.as_str()),
        payload: Some(OutgoingPayload::Message { content: "overflow".to_owned() }),
    };
    assert_eq!(
        handle_send(&mut users, a.id.as_str(), &overflow),
        Err(ServiceError::Internal)
    );

    // the four buffered notifications are intact and in order.
    let mut rx_b = users.take_receiver(b.id.as_str()).unwrap();
    let got = drain(&mut rx_b);
    assert_eq!(got.len(), 4);
    match &got[3] {
        Notification::Message { content, .. } => assert_eq!(content, "m2"),
        _ => panic!("expected a message notification"),
    }
}

#[test]
fn send_to_departed_consumer_is_rejected() {
    let mut users = UserList::new();
    let a = users.create_user("alice").unwrap();
    let b = users.create_user("bob").unwrap();

    // bob's stream is taken and then dropped: his mailbox can no longer accept.
    let rx_b = users.take_receiver(b.id.as_str()).unwrap();
    drop(rx_b);

    let request = SendRequest {
        to: to_handle(b.id.as_str()),
        payload: Some(OutgoingPayload::Message { content: "hi".to_owned() }),
    };
    assert_eq!(
        handle_send(&mut users, a.id.as_str(), &request),
        Err(ServiceError::Internal)
    );
}

#[test]
fn typing_and_read_signals_are_forwarded() {
    let mut users = UserList::new();
    let a = users.create_user("alice").unwrap();
    let b = users.create_user("bob").unwrap();

    let typing = SendRequest {
        to: to_handle(b.id.as_str()),
        payload: Some(OutgoingPayload::Typing { is_typing: true }),
    };
    let r = handle_send(&mut users, a.id.as_str(), &typing).unwrap();
    assert!(r.message_id.is_none());

    let read = SendRequest {
        to: to_handle(b.id.as_str()),
        payload: Some(OutgoingPayload::Read { message_id: "msg-7".to_owned() }),
    };
    let r = handle_send(&mut users, a.id.as_str(), &read).unwrap();
    assert!(r.message_id.is_none());

    let mut rx_b = users.take_receiver(b.id.as_str()).unwrap();
    let got = drain(&mut rx_b);
    assert_eq!(got.len(), 3);
    match &got[1] {
        Notification::Typing { from, is_typing } => {
            assert!(*is_typing);
            assert_eq!(from.id, a.id);
        }
        _ => panic!("expected a typing notification"),
    }
    match &got[2] {
        Notification::Read { from, message_id } => {
            assert_eq!(message_id.as_str(), "msg-7");
            assert_eq!(from.id, a.id);
        }
        _ => panic!("expected a read notification"),
    }
}
