//! Reliable, lock-step delivery of the orchestrator's outbound traffic.
//!
//! [`send_message`] is the sole path for orchestrator-to-session
//! communication: one outbound message, then a blocking wait for that
//! session's acknowledgment.  The send primitive demands — and the
//! verifier checks at every send — that no earlier message to the same
//! session is still awaiting its acknowledgment, so delivery is
//! lock-step by construction; the ghost traffic histories state exactly
//! which messages were queued to which session.  A session whose
//! handshake breaks is tagged Disconnected and never sent anything
//! again.

use vstd::prelude::*;

use crate::channel::{recv_reply, send_to_client, send_to_main, MainLink};
use crate::engine::EngineView;
use crate::game::Directive;
use crate::messages::{msg_content_eq, Card, ClientToGame, GameToClient, GameToMain};
use crate::session::{all_settled, delivered, delivered_hand, delivered_matching};
use crate::session::{GameClientInterface, GciState};

verus! {

/// Delivery never reassigns player indices, and changes a session's
/// state only to tag a broken one Disconnected.
pub open spec fn records_preserved(
    pre: Seq<GameClientInterface>,
    post: Seq<GameClientInterface>,
) -> bool {
    &&& post.len() == pre.len()
    &&& forall|i: int| 0 <= i < pre.len() ==> (#[trigger] post[i]).index == pre[i].index
    &&& forall|i: int|
        0 <= i < pre.len() ==> ((#[trigger] post[i]).state == pre[i].state || post[i].state
            is Disconnected)
}

/// One broadcast recipient: a session already cut off is passed over
/// untouched; every other session is queued a copy of the message and
/// acknowledges it.
pub open spec fn broadcast_one(
    pre: GameClientInterface,
    post: GameClientInterface,
    message: GameToClient,
) -> bool {
    if pre.state is Disconnected {
        post == pre
    } else {
        delivered_matching(pre, post, message)
    }
}

/// One hand-report recipient: a player session is queued exactly its own
/// hand as the snapshot gives it — so its player index is within the
/// snapshot — while watchers and cut-off sessions are untouched.
pub open spec fn hands_one(
    pre: GameClientInterface,
    post: GameClientInterface,
    view: EngineView,
) -> bool {
    match pre.index {
        Some(player) => {
            if pre.state is Disconnected {
                post == pre
            } else {
                player < view.players@.len() && delivered_hand(
                    pre,
                    post,
                    view.players@[player as int].hand@,
                )
            }
        },
        None => post == pre,
    }
}

/// One teardown recipient: a session already cut off is passed over
/// untouched; every other session is queued Disconnect and acknowledges
/// it.
pub open spec fn disconnect_one(pre: GameClientInterface, post: GameClientInterface) -> bool {
    if pre.state is Disconnected {
        post == pre
    } else {
        delivered(pre, post, GameToClient::Disconnect)
    }
}

/// The whole table received the broadcast, per [`broadcast_one`].
pub open spec fn broadcast_done(
    pre: Seq<GameClientInterface>,
    post: Seq<GameClientInterface>,
    message: GameToClient,
) -> bool {
    &&& post.len() == pre.len()
    &&& forall|i: int| 0 <= i < pre.len() ==> #[trigger] broadcast_one(pre[i], post[i], message)
}

/// Every player received its own hand, per [`hands_one`].
pub open spec fn hands_done(
    pre: Seq<GameClientInterface>,
    post: Seq<GameClientInterface>,
    view: EngineView,
) -> bool {
    &&& post.len() == pre.len()
    &&& forall|i: int| 0 <= i < pre.len() ==> #[trigger] hands_one(pre[i], post[i], view)
}

/// An equal-content copy of an outbound message, queued to one session
/// of a broadcast's many recipients.
fn copy_message(message: &GameToClient) -> (r: GameToClient)
    ensures
        msg_content_eq(r, *message),
{
    match message {
        GameToClient::DeniedTableFull => GameToClient::DeniedTableFull,
        GameToClient::WaitName => GameToClient::WaitName,
        GameToClient::PlayerJoinNotification { name, number, of } => {
            GameToClient::PlayerJoinNotification { name: name.clone(), number: *number, of: *of }
        },
        GameToClient::WaitInitialCut => GameToClient::WaitInitialCut,
        GameToClient::InitialCutResult { name, card } => {
            GameToClient::InitialCutResult { name: name.clone(), card: *card }
        },
        GameToClient::InitialCutSuccess(name) => GameToClient::InitialCutSuccess(name.clone()),
        GameToClient::InitialCutFailure => GameToClient::InitialCutFailure,
        GameToClient::WaitDeal => GameToClient::WaitDeal,
        GameToClient::Dealing => GameToClient::Dealing,
        GameToClient::DealtHand(hand) => {
            let mut cards: Vec<Card> = Vec::new();
            let mut k: usize = 0;
            while k < hand.len()
                invariant
                    k <= hand@.len(),
                    cards@ =~= hand@.take(k as int),
                decreases hand@.len() - k,
            {
                cards.push(hand[k]);
                k += 1;
            }
            proof {
                assert(cards@ =~= hand@);
            }
            GameToClient::DealtHand(cards)
        },
        GameToClient::WaitDiscardOne => GameToClient::WaitDiscardOne,
        GameToClient::WaitDiscardTwo => GameToClient::WaitDiscardTwo,
        GameToClient::DiscardPlacedOne(name) => GameToClient::DiscardPlacedOne(name.clone()),
        GameToClient::DiscardPlacedTwo(name) => GameToClient::DiscardPlacedTwo(name.clone()),
        GameToClient::AllDiscards => GameToClient::AllDiscards,
        GameToClient::Error(reason) => GameToClient::Error(reason.clone()),
        GameToClient::Disconnect => GameToClient::Disconnect,
    }
}

/// The reliable notification primitive: queues exactly the given message
/// to the session, then blocks until that session's inbound queue yields
/// a value, which must be its acknowledgment.  The caller must have no
/// earlier message to this session awaiting acknowledgment, and none is
/// awaiting afterwards: no second outbound message is ever sent to a
/// session before its acknowledgment for the prior one is observed.
/// Success means precisely that the message was queued and the next
/// inbound value was the acknowledgment.  False — fatal for the whole
/// game — when the transport refuses the send (nothing queued, nothing
/// consumed), the channel closes while waiting (message queued, nothing
/// consumed), or the one value consumed is not the acknowledgment; the
/// session is then tagged Disconnected and receives nothing further.
pub fn send_message(message: GameToClient, gci: &mut GameClientInterface) -> (ok: bool)
    requires
        !old(gci).awaiting_ack@,
    ensures
        final(gci).index == old(gci).index,
        final(gci).transmitter == old(gci).transmitter,
        final(gci).receiver == old(gci).receiver,
        !final(gci).awaiting_ack@,
        ok <==> delivered(*old(gci), *final(gci), message),
        ok ==> final(gci).state == old(gci).state,
        !ok ==> final(gci).state is Disconnected,
        !ok ==> ({
            ||| (final(gci).sent@ == old(gci).sent@ && final(gci).received@ == old(gci).received@)
            ||| (final(gci).sent@ == old(gci).sent@.push(message) && final(gci).received@ == old(
                gci,
            ).received@)
            ||| (final(gci).sent@ == old(gci).sent@.push(message) && exists|reply: ClientToGame|
                !(reply is Acknowledgment) && final(gci).received@ == old(gci).received@.push(
                    reply,
                ))
        }),
{
    if !send_to_client(gci, message) {
        gci.state = GciState::Disconnected;
        proof {
            assert(old(gci).sent@.push(message).len() == old(gci).sent@.len() + 1);
        }
        return false;
    }
    match recv_reply(gci) {
        Some(reply) => {
            if matches!(reply, ClientToGame::Acknowledgment) {
                true
            } else {
                gci.state = GciState::Disconnected;
                proof {
                    let inbound = old(gci).received@;
                    assert(inbound.push(reply)[inbound.len() as int] == reply);
                    assert(inbound.push(ClientToGame::Acknowledgment)[inbound.len() as int]
                        == ClientToGame::Acknowledgment);
                }
                false
            }
        },
        None => {
            gci.state = GciState::Disconnected;
            proof {
                assert(old(gci).received@.push(ClientToGame::Acknowledgment).len() == old(
                    gci,
                ).received@.len() + 1);
            }
            false
        },
    }
}

/// Delivers a copy of the message to every session in table order —
/// watchers included — awaiting each session's acknowledgment in turn.
/// Sessions already tagged Disconnected are passed over.  Stops at the
/// first failed delivery; on success every session's outbound history
/// gained exactly this message.
pub fn broadcast_message(message: &GameToClient, clients: &mut Vec<GameClientInterface>) -> (ok:
    bool)
    requires
        all_settled(old(clients)@),
    ensures
        all_settled(final(clients)@),
        records_preserved(old(clients)@, final(clients)@),
        ok ==> broadcast_done(old(clients)@, final(clients)@, *message),
{
    let mut pos: usize = 0;
    let n = clients.len();
    while pos < n
        invariant
            all_settled(clients@),
            records_preserved(old(clients)@, clients@),
            n == clients@.len(),
            pos <= n,
            forall|i: int| pos <= i < n ==> clients@[i] == old(clients)@[i],
            forall|i: int|
                0 <= i < pos ==> #[trigger] broadcast_one(
                    old(clients)@[i],
                    clients@[i],
                    *message,
                ),
        decreases n - pos,
    {
        if clients[pos].state != GciState::Disconnected {
            let ghost pre = clients@[pos as int];
            let copy = copy_message(message);
            let delivered_ok = send_message(copy, &mut clients[pos]);
            if !delivered_ok {
                return false;
            }
            proof {
                assert(clients@[pos as int].sent@.take(pre.sent@.len() as int) =~= pre.sent@);
            }
        }
        pos += 1;
    }
    true
}

/// Reports to every player session its current hand, as the engine
/// snapshot gives it; watchers receive nothing.  False — fatal — when
/// the snapshot lacks a player's hand or a delivery fails; on success
/// each player session's outbound history gained exactly one DealtHand
/// holding that player's own cards, and no state changed.
pub fn send_hands(view: &EngineView, clients: &mut Vec<GameClientInterface>) -> (ok: bool)
    requires
        all_settled(old(clients)@),
    ensures
        all_settled(final(clients)@),
        records_preserved(old(clients)@, final(clients)@),
        ok ==> hands_done(old(clients)@, final(clients)@, *view),
{
    let mut pos: usize = 0;
    let n = clients.len();
    while pos < n
        invariant
            all_settled(clients@),
            records_preserved(old(clients)@, clients@),
            n == clients@.len(),
            pos <= n,
            forall|i: int| pos <= i < n ==> clients@[i] == old(clients)@[i],
            forall|i: int|
                0 <= i < pos ==> #[trigger] hands_one(old(clients)@[i], clients@[i], *view),
        decreases n - pos,
    {
        let index = clients[pos].index;
        match index {
            Some(player) => {
                if clients[pos].state != GciState::Disconnected {
                    if (player as usize) >= view.players.len() {
                        return false;
                    }
                    let ghost pre = clients@[pos as int];
                    let source = &view.players[player as usize].hand;
                    let mut hand: Vec<Card> = Vec::new();
                    let mut k: usize = 0;
                    while k < source.len()
                        invariant
                            k <= source@.len(),
                            hand@ =~= source@.take(k as int),
                        decreases source@.len() - k,
                    {
                        hand.push(source[k]);
                        k += 1;
                    }
                    proof {
                        assert(hand@ =~= view.players@[player as int].hand@);
                    }
                    let delivered_ok = send_message(
                        GameToClient::DealtHand(hand),
                        &mut clients[pos],
                    );
                    if !delivered_ok {
                        return false;
                    }
                    proof {
                        assert(clients@[pos as int].sent@.take(pre.sent@.len() as int)
                            =~= pre.sent@);
                    }
                }
            },
            None => {},
        }
        pos += 1;
    }
    true
}

/// Executes one outbound directive: a single lock-step send, a
/// broadcast, or the hand report against a fresh engine snapshot.  On
/// success the addressed sessions' histories gained exactly what the
/// directive says.  Engine submissions are not deliveries and never
/// reach here: the surrounding loop submits them to the engine itself.
pub fn deliver_directive(
    directive: Directive,
    clients: &mut Vec<GameClientInterface>,
    view: &EngineView,
) -> (ok: bool)
    requires
        !(directive is Submit),
        all_settled(old(clients)@),
    ensures
        all_settled(final(clients)@),
        records_preserved(old(clients)@, final(clients)@),
        ok ==> match directive {
            Directive::Send { session, message } => {
                &&& session < old(clients)@.len()
                &&& delivered(
                    old(clients)@[session as int],
                    final(clients)@[session as int],
                    message,
                )
                &&& (forall|i: int|
                    0 <= i < old(clients)@.len() && i != session ==> final(clients)@[i] == old(
                        clients,
                    )@[i])
            },
            Directive::Broadcast { message } => broadcast_done(
                old(clients)@,
                final(clients)@,
                message,
            ),
            Directive::BroadcastHands => hands_done(old(clients)@, final(clients)@, *view),
            Directive::Submit { .. } => false,
        },
{
    match directive {
        Directive::Send { session, message } => {
            if session < clients.len() {
                if clients[session].state != GciState::Disconnected {
                    send_message(message, &mut clients[session])
                } else {
                    false
                }
            } else {
                false
            }
        },
        Directive::Broadcast { message } => broadcast_message(&message, clients),
        Directive::BroadcastHands => send_hands(view, clients),
        Directive::Submit { .. } => false,
    }
}

/// Tears the table down once the loop is over: queues Disconnect to
/// every session not already cut off, awaiting each acknowledgment.
/// Failures no longer matter, but are reported: success means every
/// such session received Disconnect as its final message and
/// acknowledged it.
pub fn disconnect_all(clients: &mut Vec<GameClientInterface>) -> (ok: bool)
    requires
        all_settled(old(clients)@),
    ensures
        all_settled(final(clients)@),
        records_preserved(old(clients)@, final(clients)@),
        ok ==> (forall|i: int|
            0 <= i < old(clients)@.len() ==> #[trigger] disconnect_one(
                old(clients)@[i],
                final(clients)@[i],
            )),
{
    let mut pos: usize = 0;
    let n = clients.len();
    let mut all_acknowledged = true;
    while pos < n
        invariant
            all_settled(clients@),
            records_preserved(old(clients)@, clients@),
            n == clients@.len(),
            pos <= n,
            forall|i: int| pos <= i < n ==> clients@[i] == old(clients)@[i],
            all_acknowledged ==> (forall|i: int|
                0 <= i < pos ==> #[trigger] disconnect_one(old(clients)@[i], clients@[i])),
        decreases n - pos,
    {
        if clients[pos].state != GciState::Disconnected {
            let delivered_ok = send_message(GameToClient::Disconnect, &mut clients[pos]);
            if !delivered_ok {
                all_acknowledged = false;
            }
        }
        pos += 1;
    }
    all_acknowledged
}

/// The shutdown sequence, run once the loop is over: queues Disconnect
/// to every session not already cut off, awaiting each acknowledgment,
/// and then signals the owning process that the match has finished.
/// Success means every such session received Disconnect as its final
/// message and acknowledged it, and exactly one EndServer value went
/// over the link afterwards; the process is signalled even when a
/// disconnect fails.
pub fn shutdown(clients: &mut Vec<GameClientInterface>, link: &mut MainLink) -> (ok: bool)
    requires
        all_settled(old(clients)@),
    ensures
        all_settled(final(clients)@),
        records_preserved(old(clients)@, final(clients)@),
        final(link).transmitter == old(link).transmitter,
        final(link).sent@ == old(link).sent@ || final(link).sent@ == old(link).sent@.push(
            GameToMain::EndServer,
        ),
        ok ==> (forall|i: int|
            0 <= i < old(clients)@.len() ==> #[trigger] disconnect_one(
                old(clients)@[i],
                final(clients)@[i],
            )),
        ok ==> final(link).sent@ == old(link).sent@.push(GameToMain::EndServer),
{
    let disconnected = disconnect_all(clients);
    let signalled = signal_server_end(link);
    disconnected && signalled
}

/// Signals the owning process that the match has finished and that it
/// may stop accepting connections: success means exactly one EndServer
/// value was queued over the link.
pub fn signal_server_end(link: &mut MainLink) -> (ok: bool)
    ensures
        final(link).transmitter == old(link).transmitter,
        ok <==> final(link).sent@ == old(link).sent@.push(GameToMain::EndServer),
        !ok ==> final(link).sent@ == old(link).sent@,
{
    let ok = send_to_main(link, GameToMain::EndServer);
    proof {
        assert(old(link).sent@.push(GameToMain::EndServer).len() == old(link).sent@.len() + 1);
    }
    ok
}

} // verus!
