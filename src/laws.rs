use crate::frames::FrameKind;
use crate::message::{frame_view_of, MessageView};
use crate::registry::{broadcast_result, ClientId, Deliveries};
use vstd::prelude::*;
use vstd::utf8::{decode_utf8, encode_utf8, encode_utf8_decode_utf8, encode_utf8_valid_utf8, valid_utf8};

verus! {

/// The deliveries after a run of broadcasts, each a pair of sender and
/// message, performed in order.
pub open spec fn broadcast_all(d: Deliveries, runs: Seq<(ClientId, MessageView)>) -> Deliveries
    decreases runs.len(),
{
    if runs.len() == 0 {
        d
    } else {
        broadcast_all(broadcast_result(d, runs[0].0, runs[0].1), runs.drop_first())
    }
}

/// A broadcast by `a` is handed exactly once to every other registered
/// client, never to `a` itself, and changes no membership.
pub proof fn lemma_reaches_every_peer(d: Deliveries, a: ClientId, m: MessageView)
    ensures
        broadcast_result(d, a, m).dom() == d.dom(),
        forall|b: ClientId| #[trigger] d.contains_key(b) && b != a ==> broadcast_result(d, a, m)[b]
            == d[b].push(m),
        d.contains_key(a) ==> broadcast_result(d, a, m)[a] == d[a],
{
    assert(broadcast_result(d, a, m).dom() =~= d.dom());
}

/// Broadcasts only ever append: each client keeps what it was handed before,
/// and the membership is unchanged.
pub proof fn lemma_broadcasts_append(d: Deliveries, runs: Seq<(ClientId, MessageView)>)
    ensures
        broadcast_all(d, runs).dom() == d.dom(),
        forall|b: ClientId| #[trigger] d.contains_key(b) ==> broadcast_all(d, runs)[b].len() >= d[b].len()
            && broadcast_all(d, runs)[b].subrange(0, d[b].len() as int) == d[b],
    decreases runs.len(),
{
    if runs.len() > 0 {
        let d1 = broadcast_result(d, runs[0].0, runs[0].1);
        lemma_reaches_every_peer(d, runs[0].0, runs[0].1);
        lemma_broadcasts_append(d1, runs.drop_first());
        assert forall|b: ClientId| #[trigger] d.contains_key(b) implies broadcast_all(d, runs)[b].len()
            >= d[b].len() && broadcast_all(d, runs)[b].subrange(0, d[b].len() as int) == d[b] by {
            let f = broadcast_all(d, runs)[b];
            assert(d1.contains_key(b));
            assert(f.subrange(0, d1[b].len() as int) == d1[b]);
            assert(d1[b].subrange(0, d[b].len() as int) =~= d[b]);
            assert(f.subrange(0, d[b].len() as int) =~= f.subrange(0, d1[b].len() as int).subrange(
                0,
                d[b].len() as int,
            ));
        }
    }
}

/// For a fixed sender, order is kept: when `a` broadcasts `m1`, then any
/// run of broadcasts by anyone takes place, then `a` broadcasts `m2`, every
/// other client registered throughout is handed `m1` at an earlier position
/// than `m2`.
pub proof fn lemma_sender_order(
    d: Deliveries,
    a: ClientId,
    m1: MessageView,
    between: Seq<(ClientId, MessageView)>,
    m2: MessageView,
)
    ensures
        ({
            let d1 = broadcast_result(d, a, m1);
            let d3 = broadcast_result(broadcast_all(d1, between), a, m2);
            forall|b: ClientId| #[trigger] d.contains_key(b) && b != a ==> {
                let i = d[b].len() as int;
                let j = d3[b].len() - 1;
                &&& i < j
                &&& d3[b][i] == m1
                &&& d3[b][j] == m2
            }
        }),
{
    let d1 = broadcast_result(d, a, m1);
    let d2 = broadcast_all(d1, between);
    let d3 = broadcast_result(d2, a, m2);
    lemma_reaches_every_peer(d, a, m1);
    lemma_broadcasts_append(d1, between);
    lemma_reaches_every_peer(d2, a, m2);
    assert forall|b: ClientId| #[trigger] d.contains_key(b) && b != a implies {
        let i = d[b].len() as int;
        let j = d3[b].len() - 1;
        &&& i < j
        &&& d3[b][i] == m1
        &&& d3[b][j] == m2
    } by {
        let i = d[b].len() as int;
        assert(d1.contains_key(b));
        assert(d2.contains_key(b));
        assert(d1[b][i] == m1);
        assert(d2[b].subrange(0, d1[b].len() as int)[i] == d2[b][i]);
        assert(d3[b] == d2[b].push(m2));
        assert(d3[b][i] == d2[b][i]);
    }
}

/// A client that has left is handed nothing by any later broadcast, and the
/// clients that remain are served as before.
pub proof fn lemma_departed_gets_nothing(d: Deliveries, a: ClientId, s: ClientId, m: MessageView)
    ensures
        !broadcast_result(d.remove(a), s, m).contains_key(a),
        forall|b: ClientId| #[trigger] d.contains_key(b) && b != a && b != s ==> broadcast_result(
            d.remove(a),
            s,
            m,
        )[b] == d[b].push(m),
{
    lemma_reaches_every_peer(d.remove(a), s, m);
}

/// A broadcast with no other registered client changes nothing.
pub proof fn lemma_lone_sender(d: Deliveries, a: ClientId, m: MessageView)
    requires
        forall|b: ClientId| d.contains_key(b) ==> b == a,
    ensures
        broadcast_result(d, a, m) == d,
{
    assert(broadcast_result(d, a, m) =~= d);
}

/// With no other registered client, the clients a broadcast hands copies
/// to form an empty sequence: no channel is sent anything.
pub proof fn lemma_lone_sender_sends_nothing(d: Deliveries, a: ClientId, ks: Seq<ClientId>)
    requires
        forall|b: ClientId| d.contains_key(b) ==> b == a,
        ks.no_duplicates(),
        ks.to_set() == d.dom().remove(a),
    ensures
        ks == Seq::<ClientId>::empty(),
{
    if ks.len() > 0 {
        assert(ks.to_set().contains(ks[0]));
    }
    assert(ks =~= Seq::<ClientId>::empty());
}

/// Registering an identity that is already present is the same as
/// registering it once: the earlier entry and what it was handed are
/// replaced by a fresh one.
pub proof fn lemma_register_twice(d: Deliveries, id: ClientId)
    ensures
        d.insert(id, Seq::empty()).insert(id, Seq::empty()) == d.insert(id, Seq::empty()),
        d.insert(id, Seq::empty())[id] == Seq::<MessageView>::empty(),
{
    assert(d.insert(id, Seq::empty()).insert(id, Seq::empty()) =~= d.insert(id, Seq::empty()));
}

/// The frame written for a message gives the message back: a text frame's
/// payload is valid UTF-8 decoding to the text, binary and pong frames carry
/// the bytes as they are, and a close frame carries the code big-endian in
/// its first two bytes, then the reason.
pub proof fn lemma_frame_round_trip(m: MessageView)
    ensures
        frame_view_of(m).fin,
        match m {
            MessageView::Text(t) => {
                &&& frame_view_of(m).kind == FrameKind::Text
                &&& valid_utf8(frame_view_of(m).payload)
                &&& decode_utf8(frame_view_of(m).payload) == t
            },
            MessageView::Binary(b) => frame_view_of(m).kind == FrameKind::Binary
                && frame_view_of(m).payload == b,
            MessageView::Pong(b) => frame_view_of(m).kind == FrameKind::Pong
                && frame_view_of(m).payload == b,
            MessageView::Close(code, reason) => {
                let p = frame_view_of(m).payload;
                &&& frame_view_of(m).kind == FrameKind::Close
                &&& p.len() == 2 + encode_utf8(reason).len()
                &&& p[0] as int * 256 + p[1] as int == code as int
                &&& p.subrange(2, p.len() as int) == encode_utf8(reason)
                &&& valid_utf8(p.subrange(2, p.len() as int))
                &&& decode_utf8(p.subrange(2, p.len() as int)) == reason
            },
        },
{
    match m {
        MessageView::Text(t) => {
            encode_utf8_valid_utf8(t);
            encode_utf8_decode_utf8(t);
        },
        MessageView::Close(code, reason) => {
            let p = frame_view_of(m).payload;
            assert(p.subrange(2, p.len() as int) =~= encode_utf8(reason));
            encode_utf8_valid_utf8(reason);
            encode_utf8_decode_utf8(reason);
        },
        _ => {},
    }
}

} // verus!
