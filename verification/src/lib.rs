//! Coordination core of a turn-based multiplayer card game server.
//!
//! One authoritative orchestrator mediates between several connected player
//! sessions and an external, event-driven rules engine.  The orchestrator
//! tracks per-session state, aggregates multi-player input (names, cut
//! confirmations, discard selections) before advancing the shared game
//! state, and guarantees lock-step delivery of notifications: every
//! outbound message must be acknowledged by its session before that
//! session is sent anything else.
//!
//! The rules engine itself is an external collaborator: it is reached only
//! through discrete events ([`engine::EngineEvent`]) and observed only
//! through snapshots ([`engine::EngineView`]).  All decisions the
//! orchestrator makes are verified here; the surrounding process supplies
//! the transport (TCP connections feeding the per-session channels) and
//! the engine, and merely executes the directives the orchestrator emits.

pub mod channel;
pub mod deliver;
pub mod engine;
pub mod game;
pub mod messages;
pub mod session;
pub mod tracker;
