use tokio::sync::mpsc::error::TryRecvError;
use tokio::sync::mpsc::{unbounded_channel, UnboundedReceiver};
use ws_broadcast::message::WsMessage;
use ws_broadcast::registry::State;

fn join(state: &mut State, id: u64) -> UnboundedReceiver<WsMessage> {
    let (tx, rx) = unbounded_channel();
    state.register(id, tx);
    rx
}

fn text_of(msg: WsMessage) -> String {
    match msg {
        WsMessage::Text(t) => t,
        other => panic!("expected a text message, got {:?}", other),
    }
}

fn binary_of(msg: WsMessage) -> Vec<u8> {
    match msg {
        WsMessage::Binary(b) => b,
        other => panic!("expected a binary message, got {:?}", other),
    }
}

#[test]
fn end_to_end_hello_then_binary() {
    let mut state = State::new();
    let mut a = join(&mut state, 1);
    let mut b = join(&mut state, 2);
    let mut c = join(&mut state, 3);

    state.broadcast(&1, WsMessage::Text("hello".to_string()));
    assert_eq!(text_of(b.try_recv().unwrap()), "hello");
    assert_eq!(b.try_recv().unwrap_err(), TryRecvError::Empty);
    assert_eq!(text_of(c.try_recv().unwrap()), "hello");
    assert_eq!(c.try_recv().unwrap_err(), TryRecvError::Empty);
    assert_eq!(a.try_recv().unwrap_err(), TryRecvError::Empty);

    state.deregister(2);
    drop(b);
    state.broadcast(&1, WsMessage::Binary(vec![1, 2, 3]));
    assert_eq!(binary_of(c.try_recv().unwrap()), vec![1, 2, 3]);
    assert_eq!(c.try_recv().unwrap_err(), TryRecvError::Empty);
    assert_eq!(a.try_recv().unwrap_err(), TryRecvError::Empty);
}

#[test]
fn broadcast_reaches_every_peer_but_sender() {
    let mut state = State::new();
    let mut rxs: Vec<UnboundedReceiver<WsMessage>> = Vec::new();
    for id in 0..5u64 {
        rxs.push(join(&mut state, id));
    }
    state.broadcast(&2, WsMessage::Binary(vec![9]));
    for (id, rx) in rxs.iter_mut().enumerate() {
        if id == 2 {
            assert_eq!(rx.try_recv().unwrap_err(), TryRecvError::Empty);
        } else {
            assert_eq!(binary_of(rx.try_recv().unwrap()), vec![9]);
            assert_eq!(rx.try_recv().unwrap_err(), TryRecvError::Empty);
        }
    }
}

#[test]
fn messages_of_one_sender_arrive_in_order() {
    let mut state = State::new();
    let _a = join(&mut state, 10);
    let mut b = join(&mut state, 20);
    let _c = join(&mut state, 30);
    state.broadcast(&10, WsMessage::Text("m1".to_string()));
    state.broadcast(&30, WsMessage::Text("other".to_string()));
    state.broadcast(&10, WsMessage::Text("m2".to_string()));
    assert_eq!(text_of(b.try_recv().unwrap()), "m1");
    assert_eq!(text_of(b.try_recv().unwrap()), "other");
    assert_eq!(text_of(b.try_recv().unwrap()), "m2");
    assert_eq!(b.try_recv().unwrap_err(), TryRecvError::Empty);
}

#[test]
fn departed_client_gets_nothing() {
    let mut state = State::new();
    let _a = join(&mut state, 1);
    let mut b = join(&mut state, 2);
    let mut c = join(&mut state, 3);
    state.deregister(2);
    assert!(!state.is_registered(2));
    assert_eq!(state.len(), 2);
    state.broadcast(&1, WsMessage::Text("after".to_string()));
    assert_eq!(b.try_recv().unwrap_err(), TryRecvError::Disconnected);
    assert_eq!(text_of(c.try_recv().unwrap()), "after");
}

#[test]
fn deregister_absent_is_no_op() {
    let mut state = State::new();
    let _a = join(&mut state, 1);
    state.deregister(7);
    state.deregister(7);
    assert_eq!(state.len(), 1);
    assert!(state.is_registered(1));
}

#[test]
fn dead_reader_does_not_disturb_broadcast() {
    let mut state = State::new();
    let _a = join(&mut state, 1);
    let b = join(&mut state, 2);
    let mut c = join(&mut state, 3);
    drop(b);
    state.broadcast(&1, WsMessage::Pong(vec![4, 5]));
    match c.try_recv().unwrap() {
        WsMessage::Pong(p) => assert_eq!(p, vec![4, 5]),
        other => panic!("expected a pong, got {:?}", other),
    }
}

#[test]
fn lone_sender_broadcast_is_no_op() {
    let mut state = State::new();
    state.broadcast(&1, WsMessage::Text("nobody".to_string()));
    let mut a = join(&mut state, 1);
    state.broadcast(&1, WsMessage::Text("alone".to_string()));
    assert_eq!(a.try_recv().unwrap_err(), TryRecvError::Empty);
    assert_eq!(state.len(), 1);
}

#[test]
fn register_same_identity_last_wins() {
    let mut state = State::new();
    let _a = join(&mut state, 1);
    let mut first = join(&mut state, 2);
    let mut second = join(&mut state, 2);
    assert_eq!(state.len(), 2);
    assert_eq!(first.try_recv().unwrap_err(), TryRecvError::Disconnected);
    state.broadcast(&1, WsMessage::Close(1000, "bye".to_string()));
    match second.try_recv().unwrap() {
        WsMessage::Close(code, reason) => {
            assert_eq!(code, 1000);
            assert_eq!(reason, "bye");
        }
        other => panic!("expected a close, got {:?}", other),
    }
}
