use ws_broadcast::message::WsMessage;
use ws_broadcast::session::{step, Action, Event, Inbound, Phase};

#[test]
fn registration_activates() {
    let (p, a) = step(Phase::Registering, Event::Registered);
    assert_eq!(p, Phase::Active);
    assert!(matches!(a, Action::Wait));
}

#[test]
fn valid_text_is_broadcast() {
    let (p, a) = step(Phase::Active, Event::Received(Inbound::Text("héllo".as_bytes().to_vec())));
    assert_eq!(p, Phase::Active);
    match a {
        Action::Broadcast(WsMessage::Text(t)) => assert_eq!(t, "héllo"),
        other => panic!("expected a text broadcast, got {:?}", other),
    }
}

#[test]
fn malformed_text_ends_session() {
    let (p, a) = step(Phase::Active, Event::Received(Inbound::Text(vec![0xff, 0xfe])));
    assert_eq!(p, Phase::Closing);
    assert!(matches!(a, Action::Deregister));
}

#[test]
fn binary_is_broadcast() {
    let (p, a) = step(Phase::Active, Event::Received(Inbound::Binary(vec![1, 2, 3])));
    assert_eq!(p, Phase::Active);
    match a {
        Action::Broadcast(WsMessage::Binary(b)) => assert_eq!(b, vec![1, 2, 3]),
        other => panic!("expected a binary broadcast, got {:?}", other),
    }
}

#[test]
fn control_frames_are_ignored() {
    let (p, a) = step(Phase::Active, Event::Received(Inbound::Control));
    assert_eq!(p, Phase::Active);
    assert!(matches!(a, Action::Wait));
}

#[test]
fn queued_message_is_written() {
    let (p, a) = step(Phase::Active, Event::Outgoing(WsMessage::Text("x".to_string())));
    assert_eq!(p, Phase::Active);
    match a {
        Action::Write(WsMessage::Text(t)) => assert_eq!(t, "x"),
        other => panic!("expected a write, got {:?}", other),
    }
}

#[test]
fn close_and_failures_end_session() {
    for event in [
        Event::Received(Inbound::Close),
        Event::ReadFailed,
        Event::WriteFailed,
        Event::ChannelClosed,
    ] {
        let (p, a) = step(Phase::Active, event);
        assert_eq!(p, Phase::Closing);
        assert!(matches!(a, Action::Deregister));
    }
}

#[test]
fn deregistration_closes() {
    let (p, a) = step(Phase::Closing, Event::Deregistered);
    assert_eq!(p, Phase::Closed);
    assert!(matches!(a, Action::Wait));
    let (p, a) = step(Phase::Closing, Event::Received(Inbound::Binary(vec![1])));
    assert_eq!(p, Phase::Closing);
    assert!(matches!(a, Action::Wait));
    let (p, a) = step(Phase::Closed, Event::Outgoing(WsMessage::Binary(vec![1])));
    assert_eq!(p, Phase::Closed);
    assert!(matches!(a, Action::Wait));
}
