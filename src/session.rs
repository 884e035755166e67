use crate::message::{MessageView, WsMessage};
use vstd::prelude::*;
use vstd::utf8::{decode_utf8, valid_utf8};

verus! {

/// Where a connection session stands in its life.
#[derive(Clone, Copy, Debug, PartialEq, Eq, Structural)]
pub enum Phase {
    Registering,
    Active,
    Closing,
    Closed,
}

/// An inbound frame, as the framing layer reports it.
#[derive(Debug)]
pub enum Inbound {
    Text(Vec<u8>),
    Binary(Vec<u8>),
    Close,
    /// Any other frame (ping, pong, continuation), answered by the framing layer.
    Control,
}

/// What happened to a session since its last step.
#[derive(Debug)]
pub enum Event {
    /// The session's entry in the registry is in place.
    Registered,
    /// A frame arrived from the client.
    Received(Inbound),
    /// Reading from the client failed or the stream ended.
    ReadFailed,
    /// A message was taken off the session's own delivery channel.
    Outgoing(WsMessage),
    /// The session's delivery channel has no sender left.
    ChannelClosed,
    /// Writing to the client failed.
    WriteFailed,
    /// The session's entry in the registry is gone.
    Deregistered,
}

/// What the session's driver is to do next.
#[derive(Debug)]
pub enum Action {
    /// Nothing; wait for the next event.
    Wait,
    /// Hand the message to every other registered client.
    Broadcast(WsMessage),
    /// Write the message to this session's own client.
    Write(WsMessage),
    /// Remove this session from the registry.
    Deregister,
}

/// The events that end an active session: a close frame, a text frame that
/// is not UTF-8, a failed read or write, or the delivery channel closing.
pub open spec fn ends_session(e: Event) -> bool {
    match e {
        Event::Received(Inbound::Close) | Event::ReadFailed | Event::ChannelClosed
        | Event::WriteFailed => true,
        Event::Received(Inbound::Text(b)) => !valid_utf8(b@),
        _ => false,
    }
}

/// Relies on `String::from_utf8`: it succeeds exactly on valid UTF-8, and
/// the text it returns is the one those bytes encode.
#[verifier::external_body]
fn text_from_utf8(bytes: Vec<u8>) -> (r: Option<String>)
    ensures
        r is Some <==> valid_utf8(bytes@),
        r matches Some(s) ==> s@ == decode_utf8(bytes@),
{
    String::from_utf8(bytes).ok()
}

/// One step of a connection session: from its phase and the latest event to
/// its next phase and the action its driver performs.
pub fn step(phase: Phase, event: Event) -> (r: (Phase, Action))
    ensures
        phase == Phase::Registering ==> r.1 is Wait && r.0 == (if event is Registered {
            Phase::Active
        } else {
            Phase::Registering
        }),
        phase == Phase::Active && ends_session(event) ==> r.0 == Phase::Closing && r.1 is Deregister,
        phase == Phase::Active && !ends_session(event) ==> r.0 == Phase::Active,
        phase == Phase::Active ==> match event {
            Event::Received(Inbound::Text(b)) => valid_utf8(b@) ==> (r.1 matches Action::Broadcast(m)
                && m@ == MessageView::Text(decode_utf8(b@))),
            Event::Received(Inbound::Binary(b)) => r.1 matches Action::Broadcast(m) && m@
                == MessageView::Binary(b@),
            Event::Outgoing(m) => r.1 matches Action::Write(w) && w@ == m@,
            Event::Received(Inbound::Control) | Event::Registered | Event::Deregistered => r.1 is Wait,
            _ => true,
        },
        phase == Phase::Closing ==> r.1 is Wait && r.0 == (if event is Deregistered {
            Phase::Closed
        } else {
            Phase::Closing
        }),
        phase == Phase::Closed ==> r.0 == Phase::Closed && r.1 is Wait,
{
    match phase {
        Phase::Registering => match event {
            Event::Registered => (Phase::Active, Action::Wait),
            _ => (Phase::Registering, Action::Wait),
        },
        Phase::Active => match event {
            Event::Received(Inbound::Text(bytes)) => match text_from_utf8(bytes) {
                Some(text) => (Phase::Active, Action::Broadcast(WsMessage::Text(text))),
                None => (Phase::Closing, Action::Deregister),
            },
            Event::Received(Inbound::Binary(bytes)) => (
                Phase::Active,
                Action::Broadcast(WsMessage::Binary(bytes)),
            ),
            Event::Received(Inbound::Close) => (Phase::Closing, Action::Deregister),
            Event::Received(Inbound::Control) => (Phase::Active, Action::Wait),
            Event::Outgoing(msg) => (Phase::Active, Action::Write(msg)),
            Event::ReadFailed | Event::ChannelClosed | Event::WriteFailed => (
                Phase::Closing,
                Action::Deregister,
            ),
            Event::Registered | Event::Deregistered => (Phase::Active, Action::Wait),
        },
        Phase::Closing => match event {
            Event::Deregistered => (Phase::Closed, Action::Wait),
            _ => (Phase::Closing, Action::Wait),
        },
        Phase::Closed => (Phase::Closed, Action::Wait),
    }
}

} // verus!
