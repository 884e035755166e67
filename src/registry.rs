use crate::channel::{enqueue, SendLog};
use crate::message::{MessageView, WsMessage};
use std::collections::HashMap;
use tokio::sync::mpsc::UnboundedSender;
use vstd::prelude::*;

verus! {

broadcast use vstd::std_specs::hash::group_hash_axioms;

/// What identifies one live connection.
pub type ClientId = u64;

/// The handle through which the registry feeds a client's delivery channel.
/// The channel is unbounded: a slow reader lets its queue grow, and no
/// message is ever dropped or refused for want of room.
pub type Tx = UnboundedSender<WsMessage>;

/// The registry's abstract state: for each registered client, the messages
/// broadcast to it since it registered, oldest first. `State::sent` records
/// the channel each copy was handed to.
pub type Deliveries = Map<ClientId, Seq<MessageView>>;

/// The state after `sender` broadcasts `m`: every other registered client has
/// `m` appended to what it was handed; the sender and the membership are
/// untouched.
pub open spec fn broadcast_result(d: Deliveries, sender: ClientId, m: MessageView) -> Deliveries {
    Map::new(|k: ClientId| d.contains_key(k), |k: ClientId| if k == sender { d[k] } else { d[k].push(m) })
}

/// Hands a copy of `msg` to the channel of every client in `clients` but
/// `sender`, each exactly once, in the order in which the map is walked.
fn fan_out(clients: &HashMap<ClientId, Tx>, log: &mut SendLog, sender: &ClientId, msg: WsMessage)
    ensures
        exists|ks: Seq<ClientId>|
            {
                &&& ks.no_duplicates()
                &&& ks.to_set() == clients@.dom().remove(*sender)
                &&& final(log).sent() == old(log).sent() + ks.map_values(
                    |k: ClientId| (clients@[k], msg@),
                )
            },
{
    let ghost sent0 = log.sent();
    let ghost chans = clients@;
    let ghost mut ks: Seq<ClientId> = Seq::empty();
    assert(log.sent() =~= sent0 + ks.map_values(|k: ClientId| (chans[k], msg@)));
    for entry in it: clients.iter()
        invariant
            clients@ == chans,
            it.seq().no_duplicates(),
            forall|i: int| 0 <= i < it.seq().len() ==> #[trigger] clients@.contains_key(*it.seq()[i].0)
                && clients@[*it.seq()[i].0] == *it.seq()[i].1,
            forall|k: ClientId| #[trigger] clients@.contains_key(k) ==> it.seq().contains((&k, &clients@[k])),
            ks.no_duplicates(),
            forall|k: ClientId| #[trigger] ks.contains(k) <==> (k != *sender && exists|i: int|
                0 <= i < it.index() && *it.seq()[i].0 == k),
            forall|k: ClientId| #[trigger] chans.contains_key(k) && k != *sender ==> ks.contains(k)
                || exists|i: int| it.index() <= i < it.seq().len() && *it.seq()[i].0 == k,
            log.sent() == sent0 + ks.map_values(|k: ClientId| (chans[k], msg@)),
    {
        let (id, tx) = entry;
        assert(entry == it.seq()[it.index() as int]);
        assert forall|i: int| 0 <= i < it.index() implies *it.seq()[i].0 != *id by {
            if *it.seq()[i].0 == *id {
                assert(clients@.contains_key(*it.seq()[i].0));
                assert(clients@.contains_key(*it.seq()[it.index() as int].0));
                assert(it.seq()[i] == it.seq()[it.index() as int]);
            }
        }
        if *id != *sender {
            enqueue(log, tx, msg.clone());
            proof {
                let ks0 = ks;
                assert(!ks0.contains(*id));
                assert(clients@.contains_key(*it.seq()[it.index() as int].0));
                ks = ks.push(*id);
                assert(ks.map_values(|k: ClientId| (chans[k], msg@)) =~= ks0.map_values(
                    |k: ClientId| (chans[k], msg@),
                ).push((chans[*id], msg@)));
                assert forall|k: ClientId| #[trigger] ks.contains(k) <==> (k != *sender
                    && exists|i: int| 0 <= i < it.index() + 1 && *it.seq()[i].0 == k) by {
                    if k == *id {
                        assert(ks[ks.len() - 1] == k);
                    }
                    if ks0.contains(k) {
                        let j = ks0.index_of(k);
                        assert(ks[j] == k);
                    }
                    if ks.contains(k) && k != *id {
                        let j = ks.index_of(k);
                        assert(ks0[j] == k);
                    }
                }
            }
        }
    }
    proof {
        assert(ks.to_set() =~= clients@.dom().remove(*sender));
    }
}

/// The connection registry: which clients are live, and the channel of each.
pub struct State {
    clients: HashMap<ClientId, Tx>,
    deliveries: Ghost<Deliveries>,
    log: SendLog,
}

impl View for State {
    type V = Deliveries;

    closed spec fn view(&self) -> Deliveries {
        self.deliveries@
    }
}

impl State {
    /// The registered clients are exactly those with a channel.
    pub closed spec fn wf(&self) -> bool {
        self.clients@.dom() == self.deliveries@.dom()
    }

    /// An empty registry.
    pub fn new() -> (r: State)
        ensures
            r.wf(),
            r@ == Map::<ClientId, Seq<MessageView>>::empty(),
            r.sent() == Seq::<(Tx, MessageView)>::empty(),
    {
        State { clients: HashMap::new(), deliveries: Ghost(Map::empty()), log: SendLog::new() }
    }

    /// Every message handed to a delivery channel by this registry, with that
    /// channel, oldest first.
    pub closed spec fn sent(&self) -> Seq<(Tx, MessageView)> {
        self.log.sent()
    }

    /// The channel through which `id` is fed.
    pub closed spec fn channel_of(&self, id: ClientId) -> Tx {
        self.clients@[id]
    }

    /// Whether `id` is currently a broadcast target.
    pub fn is_registered(&self, id: ClientId) -> (r: bool)
        requires
            self.wf(),
        ensures
            r == self@.contains_key(id),
    {
        self.clients.contains_key(&id)
    }

    /// The number of registered clients.
    pub fn len(&self) -> (r: usize)
        requires
            self.wf(),
        ensures
            r == self@.len(),
    {
        self.clients.len()
    }

    /// Makes `id` a broadcast target fed through `tx`. Registering an identity
    /// that is already present replaces its channel: the last registration
    /// wins, and the new entry starts with nothing delivered.
    pub fn register(&mut self, id: ClientId, tx: Tx)
        requires
            old(self).wf(),
        ensures
            final(self).wf(),
            final(self)@ == old(self)@.insert(id, Seq::empty()),
            final(self).channel_of(id) == tx,
            forall|k: ClientId| k != id && old(self)@.contains_key(k) ==> final(self).channel_of(k)
                == old(self).channel_of(k),
            final(self).sent() == old(self).sent(),
    {
        self.clients.insert(id, tx);
        self.deliveries = Ghost(self.deliveries@.insert(id, Seq::empty()));
    }

    /// Removes `id` from the broadcast targets; removing an absent identity
    /// changes nothing.
    pub fn deregister(&mut self, id: ClientId)
        requires
            old(self).wf(),
        ensures
            final(self).wf(),
            final(self)@ == old(self)@.remove(id),
            forall|k: ClientId| k != id && old(self)@.contains_key(k) ==> final(self).channel_of(k)
                == old(self).channel_of(k),
            final(self).sent() == old(self).sent(),
    {
        self.clients.remove(&id);
        self.deliveries = Ghost(self.deliveries@.remove(id));
    }

    /// Hands a copy of `msg` to the channel of every registered client but
    /// `sender`, completing the whole fan-out before returning. A channel
    /// whose reader is gone drops its copy silently. The registry is held
    /// exclusively for the whole fan-out, so two broadcasts never interleave
    /// and each sender's messages reach every peer in the order sent.
    pub fn broadcast(&mut self, sender: &ClientId, msg: WsMessage)
        requires
            old(self).wf(),
        ensures
            final(self).wf(),
            final(self)@ == broadcast_result(old(self)@, *sender, msg@),
            forall|k: ClientId| old(self)@.contains_key(k) ==> final(self).channel_of(k)
                == old(self).channel_of(k),
            exists|ks: Seq<ClientId>|
                {
                    &&& ks.no_duplicates()
                    &&& ks.to_set() == old(self)@.dom().remove(*sender)
                    &&& final(self).sent() == old(self).sent() + ks.map_values(
                        |k: ClientId| (old(self).channel_of(k), msg@),
                    )
                },
    {
        let ghost d = self.deliveries@;
        fan_out(&self.clients, &mut self.log, sender, msg);
        proof {
            assert(broadcast_result(d, *sender, msg@).dom() =~= d.dom());
        }
        self.deliveries = Ghost(broadcast_result(d, *sender, msg@));
    }
}

} // verus!
