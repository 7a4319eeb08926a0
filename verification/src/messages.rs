//! The wire message contract: the vocabulary of values exchanged between
//! the orchestrator, the per-connection session threads, and the process
//! that owns the listening socket.

use vstd::prelude::*;

use std::sync::mpsc::Receiver;
use std::sync::mpsc::Sender;

verus! {

/// A playing card, as the orchestrator sees one: an opaque pair of rank
/// and suit indices.  The orchestrator never interprets a card; it only
/// relays cards the rules engine reports (a revealed cut, a dealt hand)
/// and hands selected cards back to the engine.
#[derive(Clone, Copy, PartialEq, Eq, Structural, Debug)]
pub struct Card {
    pub rank: u8,
    pub suit: u8,
}

/// Messages from a client session thread to the orchestrator; also the
/// messages a client sends to its session thread over the wire.
pub enum ClientToGame {
    /// Initiates communication: the session thread is ready for requests.
    Greeting,
    /// A simple confirmation to continue the game's progression.
    Confirmation,
    /// The name the client wishes to be known by for the game.
    Name(String),
    /// The hand index given is to be discarded.
    DiscardOne { index: u8 },
    /// The two hand indices given are to be discarded.
    DiscardTwo { index_one: u8, index_two: u8 },
    /// The session observed the orchestrator's last outbound message.
    /// Every outbound message must be answered with this value before the
    /// orchestrator sends that session anything else.
    Acknowledgment,
}

/// Messages from the orchestrator to a client session thread; also the
/// messages a session thread forwards to its client over the wire.
#[derive(Clone)]
pub enum GameToClient {
    /// The maximum number of players has already joined.
    DeniedTableFull,
    /// The orchestrator requests the name the client will go by.
    WaitName,
    /// A player has joined: their name, their position, and the table size.
    PlayerJoinNotification { name: String, number: u8, of: u8 },
    /// The orchestrator awaits this player's confirmation of the cut.
    WaitInitialCut,
    /// The named player revealed the given card in the initial cut.
    InitialCutResult { name: String, card: Card },
    /// The named player won the cut and deals first.
    InitialCutSuccess(String),
    /// The cut tied and a fresh round of cuts begins.
    InitialCutFailure,
    /// The orchestrator awaits the dealer's confirmation to deal.
    WaitDeal,
    /// Cards are actively being dealt.
    Dealing,
    /// The player's hand is the included cards.
    DealtHand(Vec<Card>),
    /// The orchestrator awaits a one-card discard selection.
    WaitDiscardOne,
    /// The orchestrator awaits a two-card discard selection.
    WaitDiscardTwo,
    /// The named player placed their one-card discard.
    DiscardPlacedOne(String),
    /// The named player placed their two-card discard.
    DiscardPlacedTwo(String),
    /// Every player's discards have been placed.
    AllDiscards,
    /// The client's input was rejected, with the reason.
    Error(String),
    /// The client should expect no further messages.
    Disconnect,
}

/// Equality of outbound messages by content: the same variant with equal
/// payloads, card lists compared element by element.  A broadcast queues
/// a fresh copy of one message per session; this is the sense in which
/// every copy equals the original.
pub open spec fn msg_content_eq(a: GameToClient, b: GameToClient) -> bool {
    match (a, b) {
        (GameToClient::DealtHand(x), GameToClient::DealtHand(y)) => x@ == y@,
        _ => a == b,
    }
}

/// Message from the orchestrator thread to the owning process.
pub enum GameToMain {
    /// The match has finished and the process may stop accepting connections.
    EndServer,
}

/// Message from the owning process to the orchestrator thread.
pub enum MainToGame {
    /// Hands over the channel pair of a newly accepted connection.
    NewClient { transmitter: Sender<GameToClient>, receiver: Receiver<ClientToGame> },
}

} // verus!
