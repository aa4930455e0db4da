use ep_server::connection::{AcceptError, ConnAction, ConnectionServer, Fetch, TAG_INBOUND, TAG_OUTBOUND};

#[test]
fn listener_badge_asks_for_an_accept() {
    let mut s = ConnectionServer::bind(1234);
    assert_eq!(s.on_message(Some(1234), &vec![0, 1, 2]), ConnAction::Accept);
    assert_eq!(s.on_message(Some(1234), &vec![]), ConnAction::Accept);
}

#[test]
fn accept_refuses_listener_badge_and_live_badges() {
    let mut s = ConnectionServer::bind(1234);
    assert_eq!(s.accept(1234), Err(AcceptError::ListenerBadge));
    assert_eq!(s.accept(100), Ok(()));
    assert_eq!(s.accept(100), Err(AcceptError::BadgeInUse));
    assert_eq!(s.accept(101), Ok(()));
    assert_eq!(s.waiting(100), Some((true, true)));
    assert_eq!(s.waiting(1234), None);
    assert_eq!(s.waiting(7), None);
}

#[test]
fn inbound_bytes_reach_the_connection_sink() {
    let mut s = ConnectionServer::bind(1234);
    assert_eq!(s.on_message(Some(1234), &vec![]), ConnAction::Accept);
    assert_eq!(s.accept(100), Ok(()));
    let out = s.on_message(Some(100), &vec![TAG_INBOUND, b'h', b'i']);
    assert_eq!(out, ConnAction::Inbound { badge: 100, count: 2 });
    assert_eq!(s.take_inbound(100), Some(b"hi".to_vec()));
    assert_eq!(s.take_inbound(100), Some(Vec::new()));
}

#[test]
fn inbound_bytes_accumulate_per_connection() {
    let mut s = ConnectionServer::bind(1);
    s.accept(100).unwrap();
    s.accept(101).unwrap();
    s.on_message(Some(100), &vec![0, 1, 2]);
    s.on_message(Some(101), &vec![0, 9]);
    s.on_message(Some(100), &vec![0, 3]);
    assert_eq!(s.on_message(Some(100), &vec![0]), ConnAction::Inbound { badge: 100, count: 0 });
    assert_eq!(s.take_inbound(100), Some(vec![1, 2, 3]));
    assert_eq!(s.take_inbound(101), Some(vec![9]));
    assert_eq!(s.take_inbound(102), None);
}

#[test]
fn outbound_request_with_nothing_pending_sends_nothing() {
    let mut s = ConnectionServer::bind(1234);
    s.accept(100).unwrap();
    assert_eq!(s.on_message(Some(100), &vec![TAG_OUTBOUND]), ConnAction::Idle { badge: 100 });
}

#[test]
fn outbound_request_drains_what_is_pending() {
    let mut s = ConnectionServer::bind(1234);
    s.accept(100).unwrap();
    s.accept(101).unwrap();
    assert!(s.queue_output(100, &vec![b'o']));
    assert!(s.queue_output(100, &vec![b'k', b'!']));
    assert!(!s.queue_output(5, &vec![1]));
    assert_eq!(s.on_message(Some(101), &vec![1]), ConnAction::Idle { badge: 101 });
    assert_eq!(
        s.on_message(Some(100), &vec![1, 42]),
        ConnAction::Send { badge: 100, bytes: b"ok!".to_vec() }
    );
    assert_eq!(s.on_message(Some(100), &vec![1]), ConnAction::Idle { badge: 100 });
}

#[test]
fn unknown_tag_or_missing_tag_is_a_protocol_error() {
    let mut s = ConnectionServer::bind(1234);
    s.accept(100).unwrap();
    s.queue_output(100, &vec![5]);
    assert_eq!(s.on_message(Some(100), &vec![2, 1, 1]), ConnAction::ProtocolError { badge: 100 });
    assert_eq!(s.on_message(Some(100), &vec![255]), ConnAction::ProtocolError { badge: 100 });
    assert_eq!(s.on_message(Some(100), &vec![]), ConnAction::ProtocolError { badge: 100 });
    assert_eq!(s.take_inbound(100), Some(Vec::new()));
    assert_eq!(s.on_message(Some(100), &vec![1]), ConnAction::Send { badge: 100, bytes: vec![5] });
}

#[test]
fn unknown_and_unbadged_messages_are_dropped() {
    let mut s = ConnectionServer::bind(1234);
    s.accept(100).unwrap();
    assert_eq!(s.on_message(None, &vec![0, 1]), ConnAction::Unbadged);
    assert_eq!(s.on_message(Some(77), &vec![0, 1]), ConnAction::UnknownBadge { badge: 77 });
    assert_eq!(s.on_message(Some(100), &vec![0, 1]), ConnAction::Inbound { badge: 100, count: 1 });
    assert_eq!(s.take_inbound(100), Some(vec![1]));
}

#[test]
fn fetch_follows_the_direction_tag_of_live_connections() {
    let mut s = ConnectionServer::bind(1234);
    s.accept(100).unwrap();
    assert_eq!(s.fetch(Some(100), &vec![0, 9]), Fetch::PeerBytes);
    assert_eq!(s.fetch(Some(100), &vec![1]), Fetch::PendingOutput);
    assert_eq!(s.fetch(Some(100), &vec![2]), Fetch::Nothing);
    assert_eq!(s.fetch(Some(100), &vec![]), Fetch::Nothing);
    assert_eq!(s.fetch(Some(1234), &vec![0]), Fetch::Nothing);
    assert_eq!(s.fetch(Some(101), &vec![0]), Fetch::Nothing);
    assert_eq!(s.fetch(None, &vec![1]), Fetch::Nothing);
}
