//! The orchestrator's interface to the external rules engine.
//!
//! The rules engine is the authoritative game-state object.  It is not
//! part of this core: the orchestrator advances it only by submitting
//! discrete events and observes it only through snapshots of its current
//! phase, its ordered player list with hands, and its current dealer
//! index.  The process hosting the engine takes each
//! [`EngineEvent`](EngineEvent) the orchestrator emits, submits it, and
//! hands the next snapshot back; a snapshot is plain data, so every
//! decision taken on it is verified.

use vstd::prelude::*;

use crate::messages::Card;

verus! {

/// The macro-stage the rules engine reports itself to be in.
#[derive(Clone, Copy, PartialEq, Eq, Structural, Debug)]
pub enum EnginePhase {
    /// Setup: the engine awaits the player names and rule toggles.
    GameStart,
    /// The initial cut that decides the first dealer.
    CutInitial,
    /// Hands are about to be dealt.
    Deal,
    /// The engine awaits every player's discard selection.
    Discard,
    /// The match has finished.
    End,
    /// Any later stage of the game, outside this core's scope.
    Other,
}

/// One player as the rules engine reports it: the name given at setup and
/// the player's current hand.
pub struct PlayerView {
    pub username: String,
    pub hand: Vec<Card>,
}

/// A snapshot of the rules engine: current phase, ordered player list
/// with hands, and current dealer index.
pub struct EngineView {
    pub phase: EnginePhase,
    pub players: Vec<PlayerView>,
    pub index_dealer: u8,
}

/// A discrete event submitted to the rules engine.  The engine rejects an
/// event submitted in an inappropriate phase; a rejection is reported to
/// the orchestrator, never silently dropped, and is fatal for the game.
pub enum EngineEvent {
    /// The collected player names and the configured rule toggles,
    /// forwarded verbatim.
    Setup {
        player_names: Vec<String>,
        manual_scoring: bool,
        underpegging: bool,
        muggins: bool,
        overpegging: bool,
    },
    /// Phase-sensitive confirmation: performs the cut, the deal or the
    /// sort, whichever the engine's phase calls for.
    Confirmation,
    /// Each player's selected discards, ordered by player index.
    DiscardSelection(Vec<Vec<Card>>),
}

} // verus!
