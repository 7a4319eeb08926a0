//! Per-session records: the orchestrator-side handle for one connected
//! participant, its player index, and its current state tag.

use vstd::prelude::*;

use std::sync::mpsc::Receiver;
use std::sync::mpsc::Sender;

use crate::messages::{msg_content_eq, Card, ClientToGame, GameToClient};

verus! {

/// What is currently expected of a session: the input solicited from it,
/// or that it is waiting for the orchestrator to proceed.
#[derive(Clone, Copy, PartialEq, Eq, Structural, Debug)]
pub enum GciState {
    /// Just connected; has yet to send its greeting.
    Connecting,
    /// Denied a player seat; observes but is never solicited again.
    Watching,
    /// Joined the table; asked for the name it will go by.
    WaitingName,
    /// Asked to confirm its initial cut.
    WaitingForInitialCut,
    /// The dealer, asked to confirm so the hands are dealt.
    WaitingForDeal,
    /// Asked to select one or two cards to discard.
    WaitingForDiscards,
    /// The connection is gone and the record awaits cleanup.
    Disconnected,
    /// Synchronized-wait: required input supplied; waiting for the
    /// orchestrator to proceed.
    WaitingForServer,
}

/// One connected participant: the optional player index in the rules
/// engine's player list, the channel pair to the thread handling the
/// connection, and the session's state tag.
pub struct GameClientInterface {
    /// The player index this session holds, if it was admitted as a
    /// player.  Indices are unique and assigned in join order.
    pub index: Option<u8>,
    /// Outbound queue towards the session thread.
    pub transmitter: Sender<GameToClient>,
    /// Inbound queue from the session thread.
    pub receiver: Receiver<ClientToGame>,
    /// What is currently expected of this session.
    pub state: GciState,
    /// Whether an outbound message has been sent whose handshake — the
    /// blocking wait on this session's inbound queue — has not yet
    /// completed.  The send primitives demand this flag clear, so the
    /// verifier checks at every send that no second outbound message is
    /// sent to a session while one is still unacknowledged.
    pub awaiting_ack: Ghost<bool>,
    /// Every message queued to this session's outbound channel, oldest
    /// first.  Maintained by the trusted send call alone, so a contract
    /// over it states exactly what was sent to whom.
    pub sent: Ghost<Seq<GameToClient>>,
    /// Every value consumed from this session's inbound channel, oldest
    /// first.  Maintained by the trusted receive calls alone.
    pub received: Ghost<Seq<ClientToGame>>,
}

impl GameClientInterface {
    /// A fresh session record for a newly delivered channel pair: no
    /// player index yet, Connecting, no message in flight, and empty
    /// traffic histories.
    pub fn new(transmitter: Sender<GameToClient>, receiver: Receiver<ClientToGame>) -> (r:
        GameClientInterface)
        ensures
            r.index is None,
            r.state is Connecting,
            !r.awaiting_ack@,
            r.sent@ == Seq::<GameToClient>::empty(),
            r.received@ == Seq::<ClientToGame>::empty(),
    {
        GameClientInterface {
            index: None,
            transmitter,
            receiver,
            state: GciState::Connecting,
            awaiting_ack: Ghost(false),
            sent: Ghost(Seq::empty()),
            received: Ghost(Seq::empty()),
        }
    }
}

/// The session's channels, handshake flag and traffic histories are
/// untouched: the orchestrator's decision layer never performs I/O.
pub open spec fn same_session_io(pre: GameClientInterface, post: GameClientInterface) -> bool {
    &&& post.transmitter == pre.transmitter
    &&& post.receiver == pre.receiver
    &&& post.awaiting_ack == pre.awaiting_ack
    &&& post.sent == pre.sent
    &&& post.received == pre.received
}

/// Exactly this message was queued to the session and its acknowledgment
/// observed, and nothing else about the record moved.
pub open spec fn delivered(
    pre: GameClientInterface,
    post: GameClientInterface,
    message: GameToClient,
) -> bool {
    &&& post.index == pre.index
    &&& post.state == pre.state
    &&& post.transmitter == pre.transmitter
    &&& post.receiver == pre.receiver
    &&& !post.awaiting_ack@
    &&& post.sent@ == pre.sent@.push(message)
    &&& post.received@ == pre.received@.push(ClientToGame::Acknowledgment)
}

/// A message of exactly this content — compared by `msg_content_eq`,
/// since a broadcast queues a fresh copy per session — was queued to the
/// session and its acknowledgment observed; nothing else moved.
pub open spec fn delivered_matching(
    pre: GameClientInterface,
    post: GameClientInterface,
    message: GameToClient,
) -> bool {
    &&& post.index == pre.index
    &&& post.state == pre.state
    &&& post.transmitter == pre.transmitter
    &&& post.receiver == pre.receiver
    &&& !post.awaiting_ack@
    &&& post.sent@.len() == pre.sent@.len() + 1
    &&& post.sent@.take(pre.sent@.len() as int) == pre.sent@
    &&& msg_content_eq(post.sent@.last(), message)
    &&& post.received@ == pre.received@.push(ClientToGame::Acknowledgment)
}

/// Exactly one DealtHand carrying these cards was queued to the session
/// and its acknowledgment observed; nothing else moved.
pub open spec fn delivered_hand(
    pre: GameClientInterface,
    post: GameClientInterface,
    hand: Seq<Card>,
) -> bool {
    &&& post.index == pre.index
    &&& post.state == pre.state
    &&& post.transmitter == pre.transmitter
    &&& post.receiver == pre.receiver
    &&& !post.awaiting_ack@
    &&& post.sent@.len() == pre.sent@.len() + 1
    &&& post.sent@.take(pre.sent@.len() as int) == pre.sent@
    &&& (post.sent@.last() matches GameToClient::DealtHand(cards) && cards@ == hand)
    &&& post.received@ == pre.received@.push(ClientToGame::Acknowledgment)
}

/// No session has an outbound message still awaiting its acknowledgment:
/// the lock-step handshakes are all complete.
pub open spec fn all_settled(gcis: Seq<GameClientInterface>) -> bool {
    forall|i: int| 0 <= i < gcis.len() ==> !(#[trigger] gcis[i]).awaiting_ack@
}

/// Every session holding a player index is in synchronized-wait.
pub open spec fn all_players_waiting(gcis: Seq<GameClientInterface>) -> bool {
    forall|i: int|
        0 <= i < gcis.len() ==> ((#[trigger] gcis[i]).index is Some ==> gcis[i].state
            is WaitingForServer)
}

/// Whether or not every player session in the table is in
/// synchronized-wait, i.e. no player still owes the orchestrator input.
pub fn are_all_players_waiting(gcis: &Vec<GameClientInterface>) -> (r: bool)
    ensures
        r == all_players_waiting(gcis@),
{
    let mut not_waiting = false;
    let mut k: usize = 0;
    while k < gcis.len()
        invariant
            k <= gcis@.len(),
            !not_waiting <==> (forall|i: int|
                0 <= i < k ==> ((#[trigger] gcis@[i]).index is Some ==> gcis@[i].state
                    is WaitingForServer)),
        decreases gcis@.len() - k,
    {
        if gcis[k].index.is_some() {
            if gcis[k].state != GciState::WaitingForServer {
                not_waiting = true;
            }
        }
        k += 1;
    }
    !not_waiting
}

/// Every assigned player index is below `count`.
pub open spec fn indices_bounded(gcis: Seq<GameClientInterface>, count: u8) -> bool {
    forall|s: int|
        0 <= s < gcis.len() ==> ((#[trigger] gcis[s]).index matches Some(i) ==> i < count)
}

/// No two sessions hold the same player index.
pub open spec fn indices_unique(gcis: Seq<GameClientInterface>) -> bool {
    forall|s: int, t: int|
        0 <= s < gcis.len() && 0 <= t < gcis.len() && s != t && (#[trigger] gcis[s]).index is Some
            ==> gcis[s].index != (#[trigger] gcis[t]).index
}

/// Some session holds player index `p`.
pub open spec fn has_player(gcis: Seq<GameClientInterface>, p: u8) -> bool {
    exists|s: int| 0 <= s < gcis.len() && (#[trigger] gcis[s]).index == Some(p)
}

/// Every player index below `count` is held by some session.
pub open spec fn indices_present(gcis: Seq<GameClientInterface>, count: u8) -> bool {
    forall|p: u8| p < count ==> #[trigger] has_player(gcis, p)
}

/// The position of the session holding player index `p`; meaningful when
/// `has_player` holds, and unique when `indices_unique` holds too.
pub open spec fn player_pos(gcis: Seq<GameClientInterface>, p: u8) -> int {
    choose|s: int| 0 <= s < gcis.len() && (#[trigger] gcis[s]).index == Some(p)
}

/// A session that has not yet greeted holds no player index.
pub open spec fn connecting_unindexed(gcis: Seq<GameClientInterface>) -> bool {
    forall|s: int|
        0 <= s < gcis.len() ==> ((#[trigger] gcis[s]).state is Connecting ==> gcis[s].index
            is None)
}

/// Some session at a position before `upto` holds player index `p`.
pub open spec fn has_player_before(gcis: Seq<GameClientInterface>, upto: int, p: u8) -> bool {
    exists|a: int| 0 <= a < upto && (#[trigger] gcis[a]).index == Some(p)
}

/// A witness before `u1` is also a witness before any later bound `u2`.
pub proof fn lemma_player_before_widens(gcis: Seq<GameClientInterface>, u1: int, u2: int, p: u8)
    requires
        has_player_before(gcis, u1, p),
        u1 <= u2,
    ensures
        has_player_before(gcis, u2, p),
{
    let a = choose|a: int| 0 <= a < u1 && (#[trigger] gcis[a]).index == Some(p);
    assert(0 <= a < u2 && gcis[a].index == Some(p));
}

/// A witness to `has_player` names the same position `find_player` finds:
/// with unique indices there is only one.
pub proof fn lemma_player_pos_unique(gcis: Seq<GameClientInterface>, p: u8, s: int)
    requires
        indices_unique(gcis),
        0 <= s < gcis.len(),
        gcis[s].index == Some(p),
    ensures
        player_pos(gcis, p) == s,
{
    assert(has_player(gcis, p));
    let cp = player_pos(gcis, p);
    assert(0 <= cp < gcis.len() && gcis[cp].index == Some(p));
    if cp != s {
        assert(gcis[cp].index != gcis[s].index);
    }
}

/// Registry facts depend only on the assigned indices: any re-tagging of
/// session states preserves them.
pub proof fn lemma_registry_same_indices(
    oldv: Seq<GameClientInterface>,
    newv: Seq<GameClientInterface>,
    count: u8,
)
    requires
        newv.len() == oldv.len(),
        forall|i: int| 0 <= i < newv.len() ==> (#[trigger] newv[i]).index == oldv[i].index,
        indices_bounded(oldv, count),
        indices_unique(oldv),
        indices_present(oldv, count),
    ensures
        indices_bounded(newv, count),
        indices_unique(newv),
        indices_present(newv, count),
{
    assert forall|p: u8| p < count implies #[trigger] has_player(newv, p) by {
        assert(has_player(oldv, p));
        let s = choose|s: int| 0 <= s < oldv.len() && (#[trigger] oldv[s]).index == Some(p);
        assert(newv[s].index == Some(p));
    }
}

/// The position of the session holding player index `player`, if any.
pub fn find_player(gcis: &Vec<GameClientInterface>, player: u8) -> (r: Option<usize>)
    ensures
        match r {
            Some(pos) => pos < gcis@.len() && gcis@[pos as int].index == Some(player),
            None => forall|i: int|
                0 <= i < gcis@.len() ==> (#[trigger] gcis@[i]).index != Some(player),
        },
{
    let mut k: usize = 0;
    while k < gcis.len()
        invariant
            k <= gcis@.len(),
            forall|i: int| 0 <= i < k ==> (#[trigger] gcis@[i]).index != Some(player),
        decreases gcis@.len() - k,
    {
        match gcis[k].index {
            Some(p) => {
                if p == player {
                    return Some(k);
                }
            },
            None => {},
        }
        k += 1;
    }
    None
}

} // verus!
