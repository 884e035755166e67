use crate::message::{MessageView, WsMessage};
use tokio::sync::mpsc::UnboundedSender;
use vstd::prelude::*;

verus! {

/// The sending half of a client's delivery channel (tokio's unbounded mpsc).
#[verifier::external_type_specification]
#[verifier::external_body]
#[verifier::reject_recursive_types(T)]
pub struct ExUnboundedSender<T>(UnboundedSender<T>);

/// A record of every message handed to a delivery channel through
/// `enqueue`, each with the channel it was handed to, oldest first.
pub struct SendLog {
    sent: Ghost<Seq<(UnboundedSender<WsMessage>, MessageView)>>,
}

impl SendLog {
    pub closed spec fn sent(&self) -> Seq<(UnboundedSender<WsMessage>, MessageView)> {
        self.sent@
    }

    /// A record of nothing sent yet.
    pub fn new() -> (r: SendLog)
        ensures
            r.sent() == Seq::<(UnboundedSender<WsMessage>, MessageView)>::empty(),
    {
        SendLog { sent: Ghost(Seq::empty()) }
    }
}

/// Relies on tokio's `UnboundedSender::send`: it hands `msg` to the channel
/// of `tx` without blocking, and drops it when the receiving half is gone.
/// The record gains exactly that hand-over; nothing is promised about the
/// receiving side, which other tasks drain concurrently.
#[verifier::external_body]
pub(crate) fn enqueue(log: &mut SendLog, tx: &UnboundedSender<WsMessage>, msg: WsMessage)
    ensures
        final(log).sent() == old(log).sent().push((*tx, msg@)),
{
    let _ = tx.send(msg);
}

} // verus!
