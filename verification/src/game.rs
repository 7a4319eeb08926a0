//! The Game Orchestrator: the phase-driven decision core.
//!
//! Each tick the surrounding loop admits at most one newly registered
//! session, drains at most one pending inbound message per session into
//! an immutable batch, snapshots the rules engine, and dispatches by the
//! engine's phase.  The dispatch functions here mutate only the
//! orchestrator's own records and return a list of [`Directive`]s: the
//! outbound messages to deliver in lock-step and the engine events to
//! submit.  They never send anything themselves, so every decision —
//! whom to admit, which input to accept, when the aggregate
//! preconditions for advancing the engine hold — is verified.

use vstd::prelude::*;

use std::sync::mpsc::Receiver;
use std::sync::mpsc::Sender;

use crate::channel::try_recv_from_client;
use crate::channel::try_recv_new_client;
use crate::engine::{EngineEvent, EnginePhase, EngineView};
use crate::messages::{Card, ClientToGame, GameToClient, MainToGame};
use crate::session::{all_players_waiting, all_settled, are_all_players_waiting, find_player};
use crate::session::same_session_io;
use crate::session::{connecting_unindexed, has_player, has_player_before, player_pos};
use crate::session::{indices_bounded, indices_present, indices_unique};
use crate::session::{lemma_player_before_widens, lemma_player_pos_unique};
use crate::session::lemma_registry_same_indices;
use crate::session::{GameClientInterface, GciState};
use crate::tracker::OrderedInputTracker;

verus! {

/// An inbound payload forwarded out of a session's queue into the
/// per-tick batch, tagged with the player index of its sender.
pub struct ClientMessage {
    pub index: u8,
    pub message: ClientToGame,
}

/// One step of output decided by the orchestrator, executed in order by
/// the surrounding loop.
pub enum Directive {
    /// Deliver the message to the session at this table position, and
    /// await its acknowledgment.
    Send { session: usize, message: GameToClient },
    /// Deliver the message to every session in table order, awaiting each
    /// acknowledgment in turn.
    Broadcast { message: GameToClient },
    /// Submit the event to the rules engine.
    Submit { event: EngineEvent },
    /// Deliver to every player session its current hand, as a fresh
    /// engine snapshot reports it.
    BroadcastHands,
}

/// Why the game had to be torn down.
#[derive(Clone, Copy, PartialEq, Eq, Structural, Debug)]
pub enum FatalError {
    /// The input store's active variant does not match the engine phase.
    StoreMismatch,
    /// The engine snapshot lacks a player or a card the game state says
    /// must exist.
    ViewMismatch,
    /// No session holds the player index the game state says is next.
    MissingSession,
    /// The engine reported a phase this core does not orchestrate.
    UnknownPhase,
}

/// Loop-control status of one dispatch: keep going, wind the server
/// down, or abort the game.
#[derive(Clone, Copy, PartialEq, Eq, Structural, Debug)]
pub enum TickStatus {
    Running,
    ServerEnding,
    Fatal(FatalError),
}

/// Aggregated player input held for the next engine event: collected
/// names during setup, or collected discard selections during the
/// discard phase — never both.
pub enum InputStore {
    Names(Vec<String>),
    Discards(Vec<DiscardSelection>),
}

/// One player's recorded discard selection, by hand indices.
#[derive(Clone, Copy, PartialEq, Eq, Structural, Debug)]
pub enum DiscardSelection {
    OneDiscard { player_index: u8, card_index: u8 },
    TwoDiscard { player_index: u8, card_index_one: u8, card_index_two: u8 },
}

/// The orchestrator: configuration, the session registry, and the
/// aggregation state the phase handlers work on.
pub struct Orchestrator {
    /// The configured player count the table waits for.
    pub num_players: u8,
    /// Rule toggle: manual scoring.
    pub man_scoring: bool,
    /// Rule toggle: underpegging.
    pub underpegging: bool,
    /// Rule toggle: muggins.
    pub muggins: bool,
    /// Rule toggle: overpegging.
    pub overpegging: bool,
    /// Every connected session, players and watchers, in arrival order.
    pub client_interfaces: Vec<GameClientInterface>,
    /// The ordered-input cursor, present while a round of sequential
    /// confirmations is being collected.
    pub input_tracker: Option<OrderedInputTracker>,
    /// How many sessions hold a player index; at most `num_players`.
    pub num_connected_players: u8,
    /// The aggregated input for the next engine event.
    pub input_store: InputStore,
}

impl Orchestrator {
    /// The registry invariant: the player count never exceeds the
    /// configured table size, player indices are unique and contiguous
    /// from 0, and the aggregation store is sized for the table.
    pub open spec fn wf(self) -> bool {
        &&& 2 <= self.num_players <= 5
        &&& self.num_connected_players <= self.num_players
        &&& indices_bounded(self.client_interfaces@, self.num_connected_players)
        &&& indices_unique(self.client_interfaces@)
        &&& indices_present(self.client_interfaces@, self.num_connected_players)
        &&& connecting_unindexed(self.client_interfaces@)
        &&& all_settled(self.client_interfaces@)
        &&& (self.input_store matches InputStore::Names(names) ==> names.len()
            == self.num_players)
        &&& (self.input_store matches InputStore::Discards(sels) ==> forall|k: int|
            0 <= k < sels.len() ==> sel_player(#[trigger] sels[k]) < self.num_connected_players)
        &&& (self.input_tracker matches Some(t) ==> tracker_wf(t, self.num_players))
    }

    /// This orchestrator with only the tracker replaced.
    pub open spec fn with_tracker(self, t: Option<OrderedInputTracker>) -> Orchestrator {
        Orchestrator { input_tracker: t, ..self }
    }

    /// The configuration fields never change after construction.
    pub open spec fn same_config(self, other: Orchestrator) -> bool {
        &&& self.num_players == other.num_players
        &&& self.man_scoring == other.man_scoring
        &&& self.underpegging == other.underpegging
        &&& self.muggins == other.muggins
        &&& self.overpegging == other.overpegging
    }

    /// A fresh orchestrator: no sessions, no tracker, and a name slot per
    /// awaited player so names can be filled out of arrival order.
    pub fn new(
        num_players: u8,
        man_scoring: bool,
        underpegging: bool,
        muggins: bool,
        overpegging: bool,
    ) -> (r: Orchestrator)
        requires
            2 <= num_players <= 5,
        ensures
            r.wf(),
            r.num_players == num_players,
            r.man_scoring == man_scoring,
            r.underpegging == underpegging,
            r.muggins == muggins,
            r.overpegging == overpegging,
            r.client_interfaces@.len() == 0,
            r.input_tracker is None,
            r.num_connected_players == 0,
            (r.input_store matches InputStore::Names(names) && names@.len() == num_players
                && forall|i: int|
                0 <= i < names@.len() ==> (#[trigger] names@[i])@ =~= Seq::<char>::empty()),
    {
        let mut names: Vec<String> = Vec::new();
        let mut k: u8 = 0;
        while k < num_players
            invariant
                k <= num_players,
                names@.len() == k,
                forall|i: int| 0 <= i < k ==> (#[trigger] names@[i])@ =~= Seq::<char>::empty(),
            decreases num_players - k,
        {
            names.push(String::new());
            k += 1;
        }
        Orchestrator {
            num_players,
            man_scoring,
            underpegging,
            muggins,
            overpegging,
            client_interfaces: Vec::new(),
            input_tracker: None,
            num_connected_players: 0,
            input_store: InputStore::Names(names),
        }
    }

    /// Appends a newly delivered channel pair as a session with no player
    /// index, in the Connecting state.
    pub fn register_session(
        &mut self,
        transmitter: Sender<GameToClient>,
        receiver: Receiver<ClientToGame>,
    )
        requires
            old(self).wf(),
        ensures
            final(self).wf(),
            old(self).same_config(*final(self)),
            final(self).num_connected_players == old(self).num_connected_players,
            final(self).input_tracker == old(self).input_tracker,
            final(self).input_store == old(self).input_store,
            final(self).client_interfaces@.len() == old(self).client_interfaces@.len() + 1,
            final(self).client_interfaces@.last().index is None,
            final(self).client_interfaces@.last().state is Connecting,
            forall|i: int|
                0 <= i < old(self).client_interfaces@.len() ==> final(self).client_interfaces@[i]
                    == old(self).client_interfaces@[i],
    {
        self.client_interfaces.push(GameClientInterface::new(transmitter, receiver));
        proof {
            let new = self.client_interfaces@;
            let oldv = old(self).client_interfaces@;
            assert forall|p: u8| p < self.num_connected_players implies #[trigger] has_player(
                new,
                p,
            ) by {
                assert(has_player(oldv, p));
                let s = choose|s: int| 0 <= s < oldv.len() && (#[trigger] oldv[s]).index == Some(
                    p,
                );
                assert(0 <= s < oldv.len() && oldv[s].index == Some(p));
                assert(new[s].index == Some(p));
            }
        }
    }

    /// Handles a Greeting from the session at table position `pos`, per
    /// the registry rules: while the engine is still in setup and a
    /// player seat is free, the session is admitted and assigned the next
    /// free player index, and its name is solicited; otherwise it is
    /// denied and becomes a watcher.  Exactly the configured number of
    /// sessions are ever admitted: every Greeting after the table is full
    /// receives DeniedTableFull.  A Greeting from a session that is not
    /// in the Connecting state is ignored, so greeting is idempotent.
    pub fn on_greeting(&mut self, pos: usize, phase: &EnginePhase) -> (directives: Vec<Directive>)
        requires
            old(self).wf(),
            pos < old(self).client_interfaces@.len(),
        ensures
            final(self).wf(),
            greeted(*old(self), *final(self), pos as int, *phase, directives@),
    {
        let mut directives: Vec<Directive> = Vec::new();
        if self.client_interfaces[pos].state == GciState::Connecting {
            if matches!(*phase, EnginePhase::GameStart) && self.num_connected_players
                < self.num_players {
                let idx = self.num_connected_players;
                let gci = &mut self.client_interfaces[pos];
                gci.index = Some(idx);
                gci.state = GciState::WaitingName;
                self.num_connected_players = idx + 1;
                directives.push(
                    Directive::Send { session: pos, message: GameToClient::WaitName },
                );
                proof {
                    let oldv = old(self).client_interfaces@;
                    let new = self.client_interfaces@;
                    assert forall|p: u8| p < self.num_connected_players implies #[trigger] has_player(
                        new,
                        p,
                    ) by {
                        if p < old(self).num_connected_players {
                            assert(has_player(oldv, p));
                            let s = choose|s: int|
                                0 <= s < oldv.len() && (#[trigger] oldv[s]).index == Some(p);
                            assert(0 <= s < oldv.len() && oldv[s].index == Some(p));
                            assert(s != pos);
                            assert(new[s].index == Some(p));
                        } else {
                            assert(new[pos as int].index == Some(p));
                        }
                    }
                }
            } else {
                let gci = &mut self.client_interfaces[pos];
                gci.state = GciState::Watching;
                directives.push(
                    Directive::Send { session: pos, message: GameToClient::DeniedTableFull },
                );
                proof {
                    let oldv = old(self).client_interfaces@;
                    let new = self.client_interfaces@;
                    assert forall|p: u8| p < self.num_connected_players implies #[trigger] has_player(
                        new,
                        p,
                    ) by {
                        assert(has_player(oldv, p));
                        let s = choose|s: int|
                            0 <= s < oldv.len() && (#[trigger] oldv[s]).index == Some(p);
                        assert(0 <= s < oldv.len() && oldv[s].index == Some(p));
                        assert(new[s].index == Some(p));
                    }
                }
            }
        }
        directives
    }

    /// Polls for at most one newly accepted connection and registers it.
    pub fn admit_new_session(&mut self, main_receiver: &Receiver<MainToGame>)
        requires
            old(self).wf(),
        ensures
            final(self).wf(),
            old(self).same_config(*final(self)),
            final(self).input_tracker == old(self).input_tracker,
            final(self).input_store == old(self).input_store,
            final(self).num_connected_players == old(self).num_connected_players,
            old(self).client_interfaces@.len() <= final(self).client_interfaces@.len() <= old(
                self
            ).client_interfaces@.len() + 1,
            forall|i: int|
                0 <= i < old(self).client_interfaces@.len() ==> final(self).client_interfaces@[i]
                    == old(self).client_interfaces@[i],
    {
        match try_recv_new_client(main_receiver) {
            Some(message) => match message {
                MainToGame::NewClient { transmitter, receiver } => {
                    self.register_session(transmitter, receiver);
                },
            },
            None => {},
        }
    }

    /// Drains at most one pending inbound message from every session.
    /// Greetings and traffic from sessions holding no player index are
    /// answered on the spot (admission, denial); everything a player sent
    /// is forwarded into the returned batch, tagged with the sender's
    /// player index.  The batch holds at most one message per player.
    pub fn drain_sessions(&mut self, phase: &EnginePhase) -> (r: (
        Vec<ClientMessage>,
        Vec<Directive>,
    ))
        requires
            old(self).wf(),
        ensures
            final(self).wf(),
            old(self).same_config(*final(self)),
            final(self).input_tracker == old(self).input_tracker,
            final(self).input_store == old(self).input_store,
            final(self).num_connected_players >= old(self).num_connected_players,
            final(self).client_interfaces@.len() == old(self).client_interfaces@.len(),
            batch_wf(r.0@, final(self).num_connected_players),
            forall|d: int| 0 <= d < r.1@.len() ==> (#[trigger] r.1@[d]) is Send,
            drain_fold(
                *old(self),
                *final(self),
                old(self).client_interfaces@.len() as int,
                *phase,
                r.0@,
                r.1@,
            ),
    {
        let mut batch: Vec<ClientMessage> = Vec::new();
        let mut directives: Vec<Directive> = Vec::new();
        let mut pos: usize = 0;
        let n = self.client_interfaces.len();
        while pos < n
            invariant
                self.wf(),
                old(self).same_config(*self),
                self.input_tracker == old(self).input_tracker,
                self.input_store == old(self).input_store,
                self.num_connected_players >= old(self).num_connected_players,
                self.client_interfaces@.len() == old(self).client_interfaces@.len(),
                n == self.client_interfaces@.len(),
                pos <= n,
                forall|k: int|
                    0 <= k < batch@.len() ==> (#[trigger] batch@[k]).index
                        < self.num_connected_players,
                forall|a: int, b: int|
                    #![trigger batch@[a].index, batch@[b].index]
                    0 <= a < b < batch@.len() ==> batch@[a].index != batch@[b].index,
                forall|k: int|
                    0 <= k < batch@.len() ==> #[trigger] has_player_before(
                        self.client_interfaces@,
                        pos as int,
                        batch@[k].index,
                    ),
                forall|d: int| 0 <= d < directives@.len() ==> (#[trigger] directives@[d]) is Send,
                drain_fold(*old(self), *self, pos as int, *phase, batch@, directives@),
            decreases n - pos,
        {
            let ghost fold_pre = *self;
            let ghost batch_head = batch@;
            let ghost dir_head = directives@;
            let ghost before_poll = self.client_interfaces@;
            let received = try_recv_from_client(&mut self.client_interfaces[pos]);
            let ghost after_poll = *self;
            proof {
                lemma_registry_same_indices(
                    before_poll,
                    self.client_interfaces@,
                    self.num_connected_players,
                );
                assert forall|k: int| 0 <= k < batch@.len() implies #[trigger] has_player_before(
                    self.client_interfaces@,
                    pos as int,
                    batch@[k].index,
                ) by {
                    assert(has_player_before(before_poll, pos as int, batch@[k].index));
                    let a = choose|a: int|
                        0 <= a < pos as int && (#[trigger] before_poll[a]).index == Some(
                            batch@[k].index,
                        );
                    assert(self.client_interfaces@[a].index == Some(batch@[k].index));
                }
            }
            match received {
                Some(message) => {
                    let ghost consumed = message;
                    if matches!(message, ClientToGame::Greeting) {
                        let ghost pre = self.client_interfaces@;
                        let mut replies = self.on_greeting(pos, phase);
                        let ghost reply_dirs = replies@;
                        directives.append(&mut replies);
                        proof {
                            assert forall|k: int| 0 <= k < batch@.len() implies #[trigger] has_player_before(
                                self.client_interfaces@,
                                pos as int + 1,
                                batch@[k].index,
                            ) by {
                                assert(has_player_before(pre, pos as int, batch@[k].index));
                                let a = choose|a: int|
                                    0 <= a < pos as int && (#[trigger] pre[a]).index == Some(
                                        batch@[k].index,
                                    );
                                assert(self.client_interfaces@[a].index == Some(batch@[k].index));
                            }
                            assert(polled(fold_pre, after_poll, pos as int, consumed));
                            assert(poll_witness(consumed, after_poll));
                            assert(poll_step(
                                fold_pre,
                                *self,
                                pos as int,
                                *phase,
                                Seq::<ClientMessage>::empty(),
                                reply_dirs,
                            ));
                            assert(drain_witness(
                                fold_pre,
                                batch_head,
                                Seq::<ClientMessage>::empty(),
                                dir_head,
                                reply_dirs,
                            ));
                            assert(batch@ =~= batch_head + Seq::<ClientMessage>::empty());
                            assert(directives@ =~= dir_head + reply_dirs);
                            assert(drain_fold(
                                *old(self),
                                *self,
                                pos as int + 1,
                                *phase,
                                batch@,
                                directives@,
                            ));
                        }
                    } else {
                        match self.client_interfaces[pos].index {
                            Some(player) => {
                                proof {
                                    assert forall|k: int| 0 <= k < batch@.len() implies batch@[k].index
                                        != player by {
                                        assert(has_player_before(
                                            self.client_interfaces@,
                                            pos as int,
                                            batch@[k].index,
                                        ));
                                        let a = choose|a: int|
                                            0 <= a < pos as int && (#[trigger] self.client_interfaces@[a]).index
                                                == Some(batch@[k].index);
                                        assert(self.client_interfaces@[a].index == Some(
                                            batch@[k].index,
                                        ));
                                        assert(a != pos as int);
                                    }
                                }
                                batch.push(ClientMessage { index: player, message });
                                proof {
                                    assert forall|k: int| 0 <= k < batch@.len() implies #[trigger] has_player_before(
                                        self.client_interfaces@,
                                        pos as int + 1,
                                        batch@[k].index,
                                    ) by {
                                        if k < batch@.len() - 1 {
                                            lemma_player_before_widens(
                                                self.client_interfaces@,
                                                pos as int,
                                                pos as int + 1,
                                                batch@[k].index,
                                            );
                                        } else {
                                            assert(self.client_interfaces@[pos as int].index
                                                == Some(player));
                                        }
                                    }
                                    assert(polled(fold_pre, after_poll, pos as int, consumed));
                                    assert(poll_witness(consumed, after_poll));
                                    assert(poll_step(
                                        fold_pre,
                                        *self,
                                        pos as int,
                                        *phase,
                                        seq![(ClientMessage { index: player, message: consumed })],
                                        Seq::<Directive>::empty(),
                                    ));
                                    assert(drain_witness(
                                        fold_pre,
                                        batch_head,
                                        seq![(ClientMessage { index: player, message: consumed })],
                                        dir_head,
                                        Seq::<Directive>::empty(),
                                    ));
                                    assert(batch@ =~= batch_head + seq![
                                        (ClientMessage { index: player, message: consumed }),
                                    ]);
                                    assert(directives@ =~= dir_head + Seq::<Directive>::empty());
                                    assert(drain_fold(
                                        *old(self),
                                        *self,
                                        pos as int + 1,
                                        *phase,
                                        batch@,
                                        directives@,
                                    ));
                                }
                            },
                            None => {
                                directives.push(
                                    Directive::Send {
                                        session: pos,
                                        message: GameToClient::DeniedTableFull,
                                    },
                                );
                                proof {
                                    assert(polled(fold_pre, after_poll, pos as int, consumed));
                                    assert(poll_witness(consumed, after_poll));
                                    assert(poll_step(
                                        fold_pre,
                                        *self,
                                        pos as int,
                                        *phase,
                                        Seq::<ClientMessage>::empty(),
                                        seq![
                                            (Directive::Send {
                                                session: pos,
                                                message: GameToClient::DeniedTableFull,
                                            }),
                                        ],
                                    ));
                                    assert(drain_witness(
                                        fold_pre,
                                        batch_head,
                                        Seq::<ClientMessage>::empty(),
                                        dir_head,
                                        seq![
                                            (Directive::Send {
                                                session: pos,
                                                message: GameToClient::DeniedTableFull,
                                            }),
                                        ],
                                    ));
                                    assert(batch@ =~= batch_head + Seq::<ClientMessage>::empty());
                                    assert(directives@ =~= dir_head + seq![
                                        (Directive::Send {
                                            session: pos,
                                            message: GameToClient::DeniedTableFull,
                                        }),
                                    ]);
                                    assert(drain_fold(
                                        *old(self),
                                        *self,
                                        pos as int + 1,
                                        *phase,
                                        batch@,
                                        directives@,
                                    ));
                                }
                            },
                        }
                    }
                },
                None => {
                    proof {
                        assert(self.client_interfaces@ =~= before_poll);
                        assert(same_table(fold_pre, *self));
                        assert(poll_step(
                            fold_pre,
                            *self,
                            pos as int,
                            *phase,
                            Seq::<ClientMessage>::empty(),
                            Seq::<Directive>::empty(),
                        ));
                        assert(drain_witness(
                            fold_pre,
                            batch_head,
                            Seq::<ClientMessage>::empty(),
                            dir_head,
                            Seq::<Directive>::empty(),
                        ));
                        assert(batch@ =~= batch_head + Seq::<ClientMessage>::empty());
                        assert(directives@ =~= dir_head + Seq::<Directive>::empty());
                        assert(drain_fold(
                            *old(self),
                            *self,
                            pos as int + 1,
                            *phase,
                            batch@,
                            directives@,
                        ));
                    }
                },
            }
            proof {
                assert forall|k: int| 0 <= k < batch@.len() implies #[trigger] has_player_before(
                    self.client_interfaces@,
                    pos as int + 1,
                    batch@[k].index,
                ) by {
                    if has_player_before(self.client_interfaces@, pos as int, batch@[k].index) {
                        lemma_player_before_widens(
                            self.client_interfaces@,
                            pos as int,
                            pos as int + 1,
                            batch@[k].index,
                        );
                    }
                }
            }
            pos += 1;
        }
        (batch, directives)
    }
}

impl Orchestrator {
    /// Setup is satisfied once the configured number of players are
    /// connected and every player session is in synchronized-wait.
    pub open spec fn setup_ready(self) -> bool {
        self.num_connected_players == self.num_players && all_players_waiting(
            self.client_interfaces@,
        )
    }

    /// Handles one batched message while the engine awaits setup.  A Name
    /// from a session whose name is solicited is recorded at the sender's
    /// player index and announced to every session; the sender enters
    /// synchronized-wait.  A Name from any other session — in particular
    /// a second Name from a session already in synchronized-wait — is
    /// answered with an Error and changes nothing.  A non-Name from a
    /// session whose name is solicited has the name solicited again;
    /// from anyone else it is an Error.  Returns the directives and the
    /// status — fatal when an input-store mismatch makes the game
    /// unrecoverable.
    pub fn setup_message(&mut self, input: &ClientMessage) -> (r: (Vec<Directive>, TickStatus))
        requires
            old(self).wf(),
            input.index < old(self).num_connected_players,
        ensures
            final(self).wf(),
            setup_step(*old(self), *final(self), *input, r.0@, r.1),
            forall|d: int| 0 <= d < r.0@.len() ==> !((#[trigger] r.0@[d]) is Submit),
    {
        let pos = match find_player(&self.client_interfaces, input.index) {
            Some(pos) => pos,
            None => {
                proof {
                    assert(has_player(self.client_interfaces@, input.index));
                    let s = choose|s: int|
                        0 <= s < self.client_interfaces@.len()
                            && (#[trigger] self.client_interfaces@[s]).index == Some(input.index);
                    assert(self.client_interfaces@[s].index == Some(input.index));
                }
                unreached()
            },
        };
        proof {
            lemma_player_pos_unique(self.client_interfaces@, input.index, pos as int);
        }
        let mut directives: Vec<Directive> = Vec::new();
        match &input.message {
            ClientToGame::Name(name) => {
                if self.client_interfaces[pos].state == GciState::WaitingName {
                    let recorded: bool = match &mut self.input_store {
                        InputStore::Names(names) => {
                            names[input.index as usize] = name.clone();
                            true
                        },
                        _ => false,
                    };
                    if !recorded {
                        return (directives, TickStatus::Fatal(FatalError::StoreMismatch));
                    }
                    self.client_interfaces[pos].state = GciState::WaitingForServer;
                    directives.push(
                        Directive::Broadcast {
                            message: GameToClient::PlayerJoinNotification {
                                name: name.clone(),
                                number: input.index + 1,
                                of: self.num_players,
                            },
                        },
                    );
                    proof {
                        lemma_registry_same_indices(
                            old(self).client_interfaces@,
                            self.client_interfaces@,
                            self.num_connected_players,
                        );
                    }
                    (directives, TickStatus::Running)
                } else {
                    directives.push(
                        Directive::Send {
                            session: pos,
                            message: GameToClient::Error("Input is not required".to_owned()),
                        },
                    );
                    (directives, TickStatus::Running)
                }
            },
            _ => {
                if self.client_interfaces[pos].state == GciState::WaitingName {
                    directives.push(
                        Directive::Send { session: pos, message: GameToClient::WaitName },
                    );
                } else {
                    directives.push(
                        Directive::Send {
                            session: pos,
                            message: GameToClient::Error("Input is not required".to_owned()),
                        },
                    );
                }
                (directives, TickStatus::Running)
            },
        }
    }

    /// Dispatch while the rules engine awaits setup.  Until the table is
    /// full and every player session is in synchronized-wait, batched
    /// messages are validated one by one; nothing is submitted to the
    /// engine.  Once setup is satisfied, the collected names and the
    /// configured rule toggles are submitted verbatim as the Setup event.
    pub fn handle_setup(&mut self, batch: &Vec<ClientMessage>) -> (r: (
        Vec<Directive>,
        TickStatus,
    ))
        requires
            old(self).wf(),
            batch_wf(batch@, old(self).num_connected_players),
        ensures
            final(self).wf(),
            old(self).same_config(*final(self)),
            final(self).input_tracker == old(self).input_tracker,
            final(self).num_connected_players == old(self).num_connected_players,
            final(self).client_interfaces@.len() == old(self).client_interfaces@.len(),
            old(self).setup_ready() ==> (old(self).input_store matches InputStore::Names(names)
                ==> ({
                &&& *final(self) == *old(self)
                &&& r.1 is Running
                &&& r.0@.len() == 1
                &&& (r.0@[0] matches Directive::Submit {
                    event: EngineEvent::Setup {
                        player_names,
                        manual_scoring,
                        underpegging,
                        muggins,
                        overpegging,
                    },
                } && player_names@ =~= names@ && manual_scoring == old(self).man_scoring
                    && underpegging == old(self).underpegging && muggins == old(self).muggins
                    && overpegging == old(self).overpegging)
            })),
            (old(self).setup_ready() && !(old(self).input_store is Names)) ==> (*final(self)
                == *old(self) && r.1 == TickStatus::Fatal(FatalError::StoreMismatch) && r.0@
                =~= Seq::<Directive>::empty()),
            !old(self).setup_ready() ==> forall|d: int|
                0 <= d < r.0@.len() ==> !((#[trigger] r.0@[d]) is Submit),
            !old(self).setup_ready() ==> message_processed(
                StepKind::Setup,
                *old(self),
                *final(self),
                batch@,
                r.0@,
                r.1,
            ),
    {
        let mut directives: Vec<Directive> = Vec::new();
        if self.num_connected_players != self.num_players || !are_all_players_waiting(
            &self.client_interfaces,
        ) {
            let mut k: usize = 0;
            while k < batch.len()
                invariant
                    !old(self).setup_ready(),
                    self.wf(),
                    old(self).same_config(*self),
                    self.input_tracker == old(self).input_tracker,
                    self.num_connected_players == old(self).num_connected_players,
                    self.client_interfaces@.len() == old(self).client_interfaces@.len(),
                    batch_wf(batch@, self.num_connected_players),
                    k <= batch@.len(),
                    forall|d: int|
                        0 <= d < directives@.len() ==> !((#[trigger] directives@[d]) is Submit),
                    message_fold(
                        StepKind::Setup,
                        *old(self),
                        *self,
                        batch@.take(k as int),
                        directives@,
                        TickStatus::Running,
                    ),
                decreases batch@.len() - k,
            {
                let ghost mid = *self;
                let ghost head = directives@;
                let (mut decided, status) = self.setup_message(&batch[k]);
                proof {
                    lemma_fold_step(
                        StepKind::Setup,
                        *old(self),
                        mid,
                        *self,
                        batch@,
                        k as int,
                        head,
                        decided@,
                        status,
                    );
                }
                directives.append(&mut decided);
                if !matches!(status, TickStatus::Running) {
                    return (directives, status);
                }
                k += 1;
            }
            proof {
                assert(batch@.take(batch@.len() as int) =~= batch@);
            }
            (directives, TickStatus::Running)
        } else {
            match &self.input_store {
                InputStore::Names(names) => {
                    let forwarded = names.clone();
                    proof {
                        assert(forwarded@ =~= names@);
                    }
                    directives.push(
                        Directive::Submit {
                            event: EngineEvent::Setup {
                                player_names: forwarded,
                                manual_scoring: self.man_scoring,
                                underpegging: self.underpegging,
                                muggins: self.muggins,
                                overpegging: self.overpegging,
                            },
                        },
                    );
                    (directives, TickStatus::Running)
                },
                _ => (directives, TickStatus::Fatal(FatalError::StoreMismatch)),
            }
        }
    }

    /// Handles one batched message while an ordered round of cut
    /// confirmations is in progress.  A Confirmation from the player the
    /// active cursor expects reveals that player's cut to every session
    /// and puts the sender in synchronized-wait; any other message from
    /// the active player has the confirmation solicited again; a message
    /// from any other player is a sequencing violation, answered with an
    /// Error and changing nothing.  Returns the directives and the
    /// status — fatal when the engine snapshot lacked the active
    /// player's revealed card.
    pub fn cut_message(&mut self, input: &ClientMessage, view: &EngineView) -> (r: (
        Vec<Directive>,
        TickStatus,
    ))
        requires
            old(self).wf(),
            input.index < old(self).num_connected_players,
            old(self).input_tracker is Some,
        ensures
            final(self).wf(),
            cut_step(*old(self), *final(self), *input, *view, r.0@, r.1),
            forall|d: int| 0 <= d < r.0@.len() ==> !((#[trigger] r.0@[d]) is Submit),
    {
        let pos = match find_player(&self.client_interfaces, input.index) {
            Some(pos) => pos,
            None => {
                proof {
                    assert(has_player(self.client_interfaces@, input.index));
                    let s = choose|s: int|
                        0 <= s < self.client_interfaces@.len()
                            && (#[trigger] self.client_interfaces@[s]).index == Some(input.index);
                    assert(self.client_interfaces@[s].index == Some(input.index));
                }
                unreached()
            },
        };
        proof {
            lemma_player_pos_unique(self.client_interfaces@, input.index, pos as int);
        }
        let mut directives: Vec<Directive> = Vec::new();
        let active = match &self.input_tracker {
            Some(t) => t.index_active,
            None => unreached(),
        };
        if input.index == active {
            if matches!(input.message, ClientToGame::Confirmation) {
                let cutter = input.index as usize;
                if cutter < view.players.len() && view.players[cutter].hand.len() > 0 {
                    directives.push(
                        Directive::Broadcast {
                            message: GameToClient::InitialCutResult {
                                name: view.players[cutter].username.clone(),
                                card: view.players[cutter].hand[0],
                            },
                        },
                    );
                    self.client_interfaces[pos].state = GciState::WaitingForServer;
                    proof {
                        lemma_registry_same_indices(
                            old(self).client_interfaces@,
                            self.client_interfaces@,
                            self.num_connected_players,
                        );
                    }
                    (directives, TickStatus::Running)
                } else {
                    (directives, TickStatus::Fatal(FatalError::ViewMismatch))
                }
            } else {
                directives.push(
                    Directive::Send { session: pos, message: GameToClient::WaitInitialCut },
                );
                (directives, TickStatus::Running)
            }
        } else {
            directives.push(
                Directive::Send {
                    session: pos,
                    message: GameToClient::Error("Input is not required from you".to_owned()),
                },
            );
            (directives, TickStatus::Running)
        }
    }

    /// Progresses an ordered confirmation round that is not yet complete.
    /// The active cursor advances exactly when every player session is in
    /// synchronized-wait — then the next player's confirmation is
    /// solicited, unless the round just completed.  While some player
    /// still owes input, the batch is inspected for the active player's
    /// confirmation instead and the cursor does not move.  Nothing is
    /// ever submitted to the rules engine here.
    pub fn tracker_progress(&mut self, batch: &Vec<ClientMessage>, view: &EngineView) -> (r: (
        Vec<Directive>,
        TickStatus,
    ))
        requires
            old(self).wf(),
            batch_wf(batch@, old(self).num_connected_players),
            old(self).input_tracker matches Some(t) && !t.complete(),
        ensures
            final(self).wf(),
            old(self).same_config(*final(self)),
            final(self).input_store == old(self).input_store,
            final(self).num_connected_players == old(self).num_connected_players,
            final(self).client_interfaces@.len() == old(self).client_interfaces@.len(),
            forall|d: int| 0 <= d < r.0@.len() ==> !((#[trigger] r.0@[d]) is Submit),
            old(self).input_tracker matches Some(t) ==> (all_players_waiting(
                old(self).client_interfaces@,
            ) ==> {
                &&& final(self).input_tracker == Some(t.advanced())
                &&& (t.advanced().complete() ==> (*final(self) == old(self).with_tracker(
                    Some(t.advanced()),
                ) && r.0@ =~= Seq::<Directive>::empty() && r.1 is Running))
                &&& (!t.advanced().complete() ==> cut_solicited(
                    *old(self),
                    *final(self),
                    r.0@,
                    r.1,
                    t.advanced().index_active,
                ))
            }),
            !all_players_waiting(old(self).client_interfaces@) ==> final(self).input_tracker
                == old(self).input_tracker,
            !all_players_waiting(old(self).client_interfaces@) ==> message_processed(
                StepKind::Cut(*view),
                *old(self),
                *final(self),
                batch@,
                r.0@,
                r.1,
            ),
    {
        if are_all_players_waiting(&self.client_interfaces) {
            let mut t = match &self.input_tracker {
                Some(t) => *t,
                None => unreached(),
            };
            t.advance();
            self.input_tracker = Some(t);
            let mut directives: Vec<Directive> = Vec::new();
            if !t.is_complete() {
                match find_player(&self.client_interfaces, t.index_active) {
                    Some(pos) => {
                        proof {
                            lemma_player_pos_unique(
                                self.client_interfaces@,
                                t.index_active,
                                pos as int,
                            );
                        }
                        self.client_interfaces[pos].state = GciState::WaitingForInitialCut;
                        directives.push(
                            Directive::Send {
                                session: pos,
                                message: GameToClient::WaitInitialCut,
                            },
                        );
                        proof {
                            lemma_registry_same_indices(
                                old(self).client_interfaces@,
                                self.client_interfaces@,
                                self.num_connected_players,
                            );
                        }
                        (directives, TickStatus::Running)
                    },
                    None => (directives, TickStatus::Fatal(FatalError::MissingSession)),
                }
            } else {
                (directives, TickStatus::Running)
            }
        } else {
            let mut directives: Vec<Directive> = Vec::new();
            let mut k: usize = 0;
            while k < batch.len()
                invariant
                    old(self).input_tracker is Some,
                    !all_players_waiting(old(self).client_interfaces@),
                    self.wf(),
                    old(self).same_config(*self),
                    self.input_tracker == old(self).input_tracker,
                    self.input_store == old(self).input_store,
                    self.num_connected_players == old(self).num_connected_players,
                    self.client_interfaces@.len() == old(self).client_interfaces@.len(),
                    batch_wf(batch@, self.num_connected_players),
                    k <= batch@.len(),
                    forall|d: int|
                        0 <= d < directives@.len() ==> !((#[trigger] directives@[d]) is Submit),
                    message_fold(
                        StepKind::Cut(*view),
                        *old(self),
                        *self,
                        batch@.take(k as int),
                        directives@,
                        TickStatus::Running,
                    ),
                decreases batch@.len() - k,
            {
                let ghost mid = *self;
                let ghost head = directives@;
                let (mut decided, status) = self.cut_message(&batch[k], view);
                proof {
                    lemma_fold_step(
                        StepKind::Cut(*view),
                        *old(self),
                        mid,
                        *self,
                        batch@,
                        k as int,
                        head,
                        decided@,
                        status,
                    );
                }
                directives.append(&mut decided);
                if !matches!(status, TickStatus::Running) {
                    return (directives, status);
                }
                k += 1;
            }
            proof {
                assert(batch@.take(batch@.len() as int) =~= batch@);
            }
            (directives, TickStatus::Running)
        }
    }

    /// Dispatch while the rules engine awaits the initial cut.  With no
    /// round under way, a Confirmation event is submitted — the engine
    /// performs one full cut round — and a fresh ordered round over all
    /// players begins at cursor 0, soliciting player 0.  A completed
    /// round means the cut tied: the failure is broadcast and the tracker
    /// cleared, so the next tick restarts a full round from cursor 0 and
    /// no prior cut result is ever reused.  Otherwise the round
    /// progresses.
    pub fn handle_cut(&mut self, batch: &Vec<ClientMessage>, view: &EngineView) -> (r: (
        Vec<Directive>,
        TickStatus,
    ))
        requires
            old(self).wf(),
            batch_wf(batch@, old(self).num_connected_players),
        ensures
            final(self).wf(),
            old(self).same_config(*final(self)),
            final(self).input_store == old(self).input_store,
            final(self).num_connected_players == old(self).num_connected_players,
            final(self).client_interfaces@.len() == old(self).client_interfaces@.len(),
            old(self).input_tracker is None ==> ({
                &&& r.0@.len() >= 1
                &&& r.0@[0] == (Directive::Submit { event: EngineEvent::Confirmation })
                &&& final(self).input_tracker == Some(
                    OrderedInputTracker::round_start((old(self).num_players - 1) as u8),
                )
                &&& (has_player(old(self).client_interfaces@, 0) ==> ({
                    let pp = player_pos(old(self).client_interfaces@, 0);
                    &&& r.1 is Running
                    &&& r.0@.len() == 2
                    &&& (r.0@[1] matches Directive::Send { session, message } && session as int
                        == pp && message is WaitInitialCut)
                    &&& final(self).client_interfaces@[pp].state is WaitingForInitialCut
                    &&& final(self).client_interfaces@[pp].index == old(
                        self
                    ).client_interfaces@[pp].index
                    &&& (forall|i: int|
                        0 <= i < old(self).client_interfaces@.len() && i != pp ==> final(
                            self
                        ).client_interfaces@[i] == old(self).client_interfaces@[i])
                }))
                &&& (!has_player(old(self).client_interfaces@, 0) ==> (r.1 == TickStatus::Fatal(
                    FatalError::MissingSession,
                ) && r.0@.len() == 1))
            }),
            (old(self).input_tracker matches Some(t) && t.complete()) ==> ({
                &&& final(self).input_tracker is None
                &&& final(self).client_interfaces@ =~= old(self).client_interfaces@
                &&& r.0@ =~= seq![(Directive::Broadcast { message: GameToClient::InitialCutFailure })]
                &&& r.1 is Running
            }),
            old(self).input_tracker is Some ==> forall|d: int|
                0 <= d < r.0@.len() ==> !((#[trigger] r.0@[d]) is Submit),
            old(self).input_tracker matches Some(t) ==> ((!t.complete() && all_players_waiting(
                old(self).client_interfaces@,
            )) ==> final(self).input_tracker == Some(t.advanced())),
            old(self).input_tracker matches Some(t) ==> ((!t.complete() && !all_players_waiting(
                old(self).client_interfaces@,
            )) ==> final(self).input_tracker == old(self).input_tracker),
            old(self).input_tracker matches Some(t) ==> ((!t.complete() && !all_players_waiting(
                old(self).client_interfaces@,
            )) ==> message_processed(
                StepKind::Cut(*view),
                *old(self),
                *final(self),
                batch@,
                r.0@,
                r.1,
            )),
    {
        let tracker_state: Option<OrderedInputTracker> = self.input_tracker;
        match tracker_state {
            None => {
                let mut directives: Vec<Directive> = Vec::new();
                directives.push(Directive::Submit { event: EngineEvent::Confirmation });
                self.input_tracker = Some(
                    OrderedInputTracker::new_round(self.num_players - 1),
                );
                match find_player(&self.client_interfaces, 0) {
                    Some(pos) => {
                        proof {
                            lemma_player_pos_unique(self.client_interfaces@, 0, pos as int);
                        }
                        self.client_interfaces[pos].state = GciState::WaitingForInitialCut;
                        directives.push(
                            Directive::Send {
                                session: pos,
                                message: GameToClient::WaitInitialCut,
                            },
                        );
                        proof {
                            lemma_registry_same_indices(
                                old(self).client_interfaces@,
                                self.client_interfaces@,
                                self.num_connected_players,
                            );
                        }
                        (directives, TickStatus::Running)
                    },
                    None => (directives, TickStatus::Fatal(FatalError::MissingSession)),
                }
            },
            Some(t) => {
                if t.is_complete() {
                    let mut directives: Vec<Directive> = Vec::new();
                    directives.push(
                        Directive::Broadcast { message: GameToClient::InitialCutFailure },
                    );
                    self.input_tracker = None;
                    (directives, TickStatus::Running)
                } else {
                    self.tracker_progress(batch, view)
                }
            },
        }
    }

    /// Moves the table into discard collection after the hands are dealt
    /// and sorted: every player session is asked for its discards and
    /// enters the WaitingForDiscards state — except the dealer when the
    /// table has exactly five players, who discards nothing and goes
    /// straight to synchronized-wait.  Watchers are untouched.  Two
    /// discards are solicited at a two-player table, one otherwise.  The
    /// input store is reset to an empty discard collection.
    pub fn begin_discard_collection(&mut self, dealer: u8) -> (directives: Vec<Directive>)
        requires
            old(self).wf(),
        ensures
            final(self).wf(),
            old(self).same_config(*final(self)),
            final(self).input_tracker == old(self).input_tracker,
            final(self).num_connected_players == old(self).num_connected_players,
            discard_collection_started(*old(self), *final(self), dealer),
            directives@ == solicit_directives(
                old(self).client_interfaces@,
                old(self).num_players,
                dealer,
                old(self).client_interfaces@.len() as int,
            ),
            forall|d: int| 0 <= d < directives@.len() ==> (#[trigger] directives@[d]) is Send,
    {
        self.input_store = InputStore::Discards(Vec::new());
        let mut directives: Vec<Directive> = Vec::new();
        let mut pos: usize = 0;
        let n = self.client_interfaces.len();
        while pos < n
            invariant
                self.wf(),
                old(self).same_config(*self),
                self.input_tracker == old(self).input_tracker,
                self.num_connected_players == old(self).num_connected_players,
                (self.input_store matches InputStore::Discards(sels) && sels@
                    =~= Seq::<DiscardSelection>::empty()),
                n == self.client_interfaces@.len(),
                self.client_interfaces@.len() == old(self).client_interfaces@.len(),
                pos <= n,
                forall|i: int|
                    0 <= i < n ==> (#[trigger] self.client_interfaces@[i]).index == old(
                        self
                    ).client_interfaces@[i].index,
                forall|i: int|
                    pos <= i < n ==> (#[trigger] self.client_interfaces@[i]) == old(
                        self
                    ).client_interfaces@[i],
                forall|i: int|
                    0 <= i < pos ==> ((#[trigger] old(self).client_interfaces@[i]).index matches
                        Some(p) ==> self.client_interfaces@[i].state == (
                    if old(self).num_players == 5 && p == dealer {
                        GciState::WaitingForServer
                    } else {
                        GciState::WaitingForDiscards
                    })),
                forall|i: int|
                    0 <= i < pos ==> ((#[trigger] old(self).client_interfaces@[i]).index is None
                        ==> self.client_interfaces@[i] == old(self).client_interfaces@[i]),
                forall|i: int|
                    0 <= i < n ==> same_session_io(
                        #[trigger] old(self).client_interfaces@[i],
                        self.client_interfaces@[i],
                    ),
                directives@ == solicit_directives(
                    old(self).client_interfaces@,
                    old(self).num_players,
                    dealer,
                    pos as int,
                ),
                forall|d: int| 0 <= d < directives@.len() ==> (#[trigger] directives@[d]) is Send,
            decreases n - pos,
        {
            let ghost pre = self.client_interfaces@;
            match self.client_interfaces[pos].index {
                Some(p) => {
                    if self.num_players == 5 && p == dealer {
                        self.client_interfaces[pos].state = GciState::WaitingForServer;
                    } else {
                        self.client_interfaces[pos].state = GciState::WaitingForDiscards;
                        directives.push(
                            Directive::Send {
                                session: pos,
                                message: if self.num_players == 2 {
                                    GameToClient::WaitDiscardTwo
                                } else {
                                    GameToClient::WaitDiscardOne
                                },
                            },
                        );
                    }
                    proof {
                        lemma_registry_same_indices(
                            pre,
                            self.client_interfaces@,
                            self.num_connected_players,
                        );
                    }
                },
                None => {},
            }
            pos += 1;
        }
        directives
    }

    /// Handles one batched message while the engine awaits the deal and
    /// no ordered round remains: only the dealer's Confirmation is
    /// accepted.  On it the engine is advanced through the deal and the
    /// sort, each followed by a broadcast of every player's current hand,
    /// and discard collection begins.  Any other message from the dealer
    /// has the deal confirmation solicited again; a message from any
    /// other player is answered with an Error and changes nothing.
    pub fn deal_message(&mut self, input: &ClientMessage, view: &EngineView) -> (directives: Vec<
        Directive,
    >)
        requires
            old(self).wf(),
            input.index < old(self).num_connected_players,
        ensures
            final(self).wf(),
            deal_step(
                *old(self),
                *final(self),
                *input,
                *view,
                directives@,
                TickStatus::Running,
            ),
            forall|d: int|
                0 <= d < directives@.len() ==> ((#[trigger] directives@[d]) matches
                    Directive::Submit { event } ==> event is Confirmation),
    {
        let pos = match find_player(&self.client_interfaces, input.index) {
            Some(pos) => pos,
            None => {
                proof {
                    assert(has_player(self.client_interfaces@, input.index));
                    let s = choose|s: int|
                        0 <= s < self.client_interfaces@.len()
                            && (#[trigger] self.client_interfaces@[s]).index == Some(input.index);
                    assert(self.client_interfaces@[s].index == Some(input.index));
                }
                unreached()
            },
        };
        proof {
            lemma_player_pos_unique(self.client_interfaces@, input.index, pos as int);
        }
        if input.index == view.index_dealer {
            if matches!(input.message, ClientToGame::Confirmation) {
                let mut directives: Vec<Directive> = Vec::new();
                directives.push(Directive::Submit { event: EngineEvent::Confirmation });
                directives.push(Directive::BroadcastHands);
                directives.push(Directive::Submit { event: EngineEvent::Confirmation });
                directives.push(Directive::BroadcastHands);
                let mut solicitations = self.begin_discard_collection(view.index_dealer);
                directives.append(&mut solicitations);
                directives
            } else {
                let mut directives: Vec<Directive> = Vec::new();
                directives.push(
                    Directive::Send { session: pos, message: GameToClient::WaitDeal },
                );
                directives
            }
        } else {
            let mut directives: Vec<Directive> = Vec::new();
            directives.push(
                Directive::Send {
                    session: pos,
                    message: GameToClient::Error("Input is not required from you".to_owned()),
                },
            );
            directives
        }
    }

    /// Dispatch while the rules engine awaits the deal.  A still-running
    /// ordered round keeps relaying cut announcements exactly as during
    /// the cut.  A completed round means the cut chose a dealer: the
    /// success is announced with the dealer's name, the dealer's
    /// confirmation to deal is solicited, and the tracker is cleared.
    /// With the tracker cleared, only the dealer's Confirmation advances
    /// the game, through the deal and sort, into discard collection.
    pub fn handle_deal(&mut self, batch: &Vec<ClientMessage>, view: &EngineView) -> (r: (
        Vec<Directive>,
        TickStatus,
    ))
        requires
            old(self).wf(),
            batch_wf(batch@, old(self).num_connected_players),
        ensures
            final(self).wf(),
            old(self).same_config(*final(self)),
            final(self).num_connected_players == old(self).num_connected_players,
            final(self).client_interfaces@.len() == old(self).client_interfaces@.len(),
            forall|d: int|
                0 <= d < r.0@.len() ==> ((#[trigger] r.0@[d]) matches Directive::Submit { event }
                    ==> event is Confirmation),
            old(self).input_tracker matches Some(t) ==> (t.complete() ==> ({
                let dealer = view.index_dealer;
                &&& final(self).input_tracker is None
                &&& final(self).input_store == old(self).input_store
                &&& (dealer < view.players@.len() ==> dealer_announced(
                    *old(self),
                    *final(self),
                    r.0@,
                    r.1,
                    view.players@[dealer as int].username,
                    dealer,
                ))
                &&& (dealer >= view.players@.len() ==> (r.1 == TickStatus::Fatal(
                    FatalError::ViewMismatch,
                ) && r.0@ =~= Seq::<Directive>::empty()))
            })),
            old(self).input_tracker matches Some(t) ==> ((!t.complete() && all_players_waiting(
                old(self).client_interfaces@,
            )) ==> final(self).input_tracker == Some(t.advanced())),
            old(self).input_tracker matches Some(t) ==> ((!t.complete() && !all_players_waiting(
                old(self).client_interfaces@,
            )) ==> final(self).input_tracker == old(self).input_tracker),
            old(self).input_tracker is Some ==> final(self).input_store == old(self).input_store,
            old(self).input_tracker matches Some(t) ==> ((!t.complete() && !all_players_waiting(
                old(self).client_interfaces@,
            )) ==> message_processed(
                StepKind::Cut(*view),
                *old(self),
                *final(self),
                batch@,
                r.0@,
                r.1,
            )),
            old(self).input_tracker is None ==> message_processed(
                StepKind::Deal(*view),
                *old(self),
                *final(self),
                batch@,
                r.0@,
                r.1,
            ),
    {
        let tracker_state: Option<OrderedInputTracker> = self.input_tracker;
        match tracker_state {
            Some(t) => {
                if t.is_complete() {
                    self.input_tracker = None;
                    let dealer = view.index_dealer;
                    if (dealer as usize) < view.players.len() {
                        let mut directives: Vec<Directive> = Vec::new();
                        directives.push(
                            Directive::Broadcast {
                                message: GameToClient::InitialCutSuccess(
                                    view.players[dealer as usize].username.clone(),
                                ),
                            },
                        );
                        match find_player(&self.client_interfaces, dealer) {
                            Some(pos) => {
                                proof {
                                    lemma_player_pos_unique(
                                        self.client_interfaces@,
                                        dealer,
                                        pos as int,
                                    );
                                }
                                self.client_interfaces[pos].state = GciState::WaitingForDeal;
                                directives.push(
                                    Directive::Send {
                                        session: pos,
                                        message: GameToClient::WaitDeal,
                                    },
                                );
                                proof {
                                    lemma_registry_same_indices(
                                        old(self).client_interfaces@,
                                        self.client_interfaces@,
                                        self.num_connected_players,
                                    );
                                }
                                (directives, TickStatus::Running)
                            },
                            None => (directives, TickStatus::Fatal(FatalError::MissingSession)),
                        }
                    } else {
                        (Vec::new(), TickStatus::Fatal(FatalError::ViewMismatch))
                    }
                } else {
                    self.tracker_progress(batch, view)
                }
            },
            None => {
                let mut directives: Vec<Directive> = Vec::new();
                let mut k: usize = 0;
                while k < batch.len()
                    invariant
                        old(self).input_tracker is None,
                        self.wf(),
                        old(self).same_config(*self),
                        self.input_tracker == old(self).input_tracker,
                        self.num_connected_players == old(self).num_connected_players,
                        self.client_interfaces@.len() == old(self).client_interfaces@.len(),
                        batch_wf(batch@, self.num_connected_players),
                        k <= batch@.len(),
                        forall|d: int|
                            0 <= d < directives@.len() ==> ((#[trigger] directives@[d]) matches
                                Directive::Submit { event } ==> event is Confirmation),
                        message_fold(
                            StepKind::Deal(*view),
                            *old(self),
                            *self,
                            batch@.take(k as int),
                            directives@,
                            TickStatus::Running,
                        ),
                    decreases batch@.len() - k,
                {
                    let ghost mid = *self;
                    let ghost head = directives@;
                    let mut decided = self.deal_message(&batch[k], view);
                    proof {
                        lemma_fold_step(
                            StepKind::Deal(*view),
                            *old(self),
                            mid,
                            *self,
                            batch@,
                            k as int,
                            head,
                            decided@,
                            TickStatus::Running,
                        );
                    }
                    directives.append(&mut decided);
                    k += 1;
                }
                proof {
                    assert(batch@.take(batch@.len() as int) =~= batch@);
                }
                (directives, TickStatus::Running)
            },
        }
    }

    /// Handles one batched message while discards are being collected.
    /// A discard selection of the arity the table calls for — two cards
    /// at a two-player table, one otherwise — from a session in the
    /// WaitingForDiscards state is recorded against the sender's player
    /// index, announced to every session by name, and puts the sender in
    /// synchronized-wait.  A message of any other shape from such a
    /// session has the discard solicited again; a message from any other
    /// player is answered with an Error and changes nothing.
    pub fn discard_message(&mut self, input: &ClientMessage, view: &EngineView) -> (r: (
        Vec<Directive>,
        TickStatus,
    ))
        requires
            old(self).wf(),
            input.index < old(self).num_connected_players,
        ensures
            final(self).wf(),
            discard_step(*old(self), *final(self), *input, *view, r.0@, r.1),
            forall|d: int| 0 <= d < r.0@.len() ==> !((#[trigger] r.0@[d]) is Submit),
    {
        let pos = match find_player(&self.client_interfaces, input.index) {
            Some(pos) => pos,
            None => {
                proof {
                    assert(has_player(self.client_interfaces@, input.index));
                    let s = choose|s: int|
                        0 <= s < self.client_interfaces@.len()
                            && (#[trigger] self.client_interfaces@[s]).index == Some(input.index);
                    assert(self.client_interfaces@[s].index == Some(input.index));
                }
                unreached()
            },
        };
        proof {
            lemma_player_pos_unique(self.client_interfaces@, input.index, pos as int);
        }
        let mut directives: Vec<Directive> = Vec::new();
        if self.client_interfaces[pos].state != GciState::WaitingForDiscards {
            directives.push(
                Directive::Send {
                    session: pos,
                    message: GameToClient::Error("Input is not required from you".to_owned()),
                },
            );
            return (directives, TickStatus::Running);
        }
        let two_player = self.num_players == 2;
        let accepted = if two_player {
            matches!(input.message, ClientToGame::DiscardTwo { .. })
        } else {
            matches!(input.message, ClientToGame::DiscardOne { .. })
        };
        if !accepted {
            directives.push(
                Directive::Send {
                    session: pos,
                    message: if two_player {
                        GameToClient::WaitDiscardTwo
                    } else {
                        GameToClient::WaitDiscardOne
                    },
                },
            );
            return (directives, TickStatus::Running);
        }
        if input.index as usize >= view.players.len() {
            return (directives, TickStatus::Fatal(FatalError::ViewMismatch));
        }
        let selection = match &input.message {
            ClientToGame::DiscardOne { index } => DiscardSelection::OneDiscard {
                player_index: input.index,
                card_index: *index,
            },
            ClientToGame::DiscardTwo { index_one, index_two } => DiscardSelection::TwoDiscard {
                player_index: input.index,
                card_index_one: *index_one,
                card_index_two: *index_two,
            },
            _ => unreached(),
        };
        let recorded: bool = match &mut self.input_store {
            InputStore::Discards(sels) => {
                sels.push(selection);
                true
            },
            _ => false,
        };
        if !recorded {
            return (directives, TickStatus::Fatal(FatalError::StoreMismatch));
        }
        self.client_interfaces[pos].state = GciState::WaitingForServer;
        directives.push(
            Directive::Broadcast {
                message: if two_player {
                    GameToClient::DiscardPlacedTwo(view.players[input.index as usize].username.clone())
                } else {
                    GameToClient::DiscardPlacedOne(view.players[input.index as usize].username.clone())
                },
            },
        );
        proof {
            lemma_registry_same_indices(
                old(self).client_interfaces@,
                self.client_interfaces@,
                self.num_connected_players,
            );
        }
        (directives, TickStatus::Running)
    }

    /// Dispatch while the rules engine awaits the discard selections.
    /// Until every player session is in synchronized-wait, batched
    /// messages are validated one by one and nothing is submitted to the
    /// engine: the DiscardSelection event is assembled from the recorded
    /// hand indices and submitted only once every player session is in
    /// synchronized-wait, and completion is then broadcast.
    pub fn handle_discard(&mut self, batch: &Vec<ClientMessage>, view: &EngineView) -> (r: (
        Vec<Directive>,
        TickStatus,
    ))
        requires
            old(self).wf(),
            batch_wf(batch@, old(self).num_connected_players),
        ensures
            final(self).wf(),
            old(self).same_config(*final(self)),
            final(self).input_tracker == old(self).input_tracker,
            final(self).num_connected_players == old(self).num_connected_players,
            final(self).client_interfaces@.len() == old(self).client_interfaces@.len(),
            !all_players_waiting(old(self).client_interfaces@) ==> forall|d: int|
                0 <= d < r.0@.len() ==> !((#[trigger] r.0@[d]) is Submit),
            !all_players_waiting(old(self).client_interfaces@) ==> message_processed(
                StepKind::Discard(*view),
                *old(self),
                *final(self),
                batch@,
                r.0@,
                r.1,
            ),
            all_players_waiting(old(self).client_interfaces@) ==> ({
                &&& (!(old(self).input_store is Discards) ==> (r.1 == TickStatus::Fatal(
                    FatalError::StoreMismatch,
                ) && *final(self) == *old(self) && r.0@ =~= Seq::<Directive>::empty()))
                &&& (old(self).input_store matches InputStore::Discards(sels) ==> ({
                    &&& (!sels_in_view(sels@, *view) ==> (r.1 == TickStatus::Fatal(
                        FatalError::ViewMismatch,
                    ) && *final(self) == *old(self) && r.0@ =~= Seq::<Directive>::empty()))
                    &&& (sels_in_view(sels@, *view) ==> ({
                        &&& r.1 is Running
                        &&& *final(self) == *old(self)
                        &&& r.0@.len() == 2
                        &&& (r.0@[0] matches Directive::Submit {
                            event: EngineEvent::DiscardSelection(d),
                        } && discards_match(
                            d,
                            assembled_discards(
                                sels@,
                                *view,
                                old(self).num_players,
                                sels@.len() as int,
                            ),
                        ))
                        &&& r.0@[1] == (Directive::Broadcast {
                            message: GameToClient::AllDiscards,
                        })
                    }))
                }))
            }),
    {
        if are_all_players_waiting(&self.client_interfaces) {
            let np = self.num_players;
            let mut discards: Vec<Vec<Card>> = Vec::new();
            let mut p: u8 = 0;
            while p < np
                invariant
                    p <= np,
                    discards@.len() == p,
                    forall|q: int| 0 <= q < p ==> (#[trigger] discards@[q])@ =~= Seq::<Card>::empty(),
                decreases np - p,
            {
                discards.push(Vec::new());
                p += 1;
            }
            proof {
                assert(discards_match(discards, empty_hands(np)));
            }
            match &self.input_store {
                InputStore::Discards(sels) => {
                    let ghost sseq = sels@;
                    let mut k: usize = 0;
                    while k < sels.len()
                        invariant
                            all_players_waiting(old(self).client_interfaces@),
                            self.wf(),
                            *self == *old(self),
                            self.input_store matches InputStore::Discards(s) && s@ == sseq,
                            np == self.num_players,
                            k <= sseq.len(),
                            sseq.len() == sels@.len(),
                            sels@ == sseq,
                            discards@.len() == np,
                            forall|j: int| 0 <= j < k ==> #[trigger] sel_in_view(sseq[j], *view),
                            discards_match(
                                discards,
                                assembled_discards(sseq, *view, np, k as int),
                            ),
                        decreases sseq.len() - k,
                    {
                        let sel = sels[k];
                        proof {
                            assert(sel_player(sseq[k as int]) < self.num_connected_players);
                        }
                        match sel {
                            DiscardSelection::OneDiscard { player_index, card_index } => {
                                if (player_index as usize) >= view.players.len() || (
                                card_index as usize) >= view.players[player_index as usize].hand.len() {
                                    proof {
                                        assert(!sel_in_view(sseq[k as int], *view));
                                    }
                                    return (Vec::new(), TickStatus::Fatal(FatalError::ViewMismatch));
                                }
                                let card = view.players[player_index as usize].hand[card_index
                                    as usize];
                                discards[player_index as usize].push(card);
                            },
                            DiscardSelection::TwoDiscard {
                                player_index,
                                card_index_one,
                                card_index_two,
                            } => {
                                if (player_index as usize) >= view.players.len() || (
                                card_index_one as usize) >= view.players[player_index as usize].hand.len()
                                    || (card_index_two as usize)
                                    >= view.players[player_index as usize].hand.len() {
                                    proof {
                                        assert(!sel_in_view(sseq[k as int], *view));
                                    }
                                    return (Vec::new(), TickStatus::Fatal(FatalError::ViewMismatch));
                                }
                                let card_one = view.players[player_index as usize].hand[card_index_one
                                    as usize];
                                let card_two = view.players[player_index as usize].hand[card_index_two
                                    as usize];
                                discards[player_index as usize].push(card_one);
                                discards[player_index as usize].push(card_two);
                            },
                        }
                        k += 1;
                    }
                    let mut directives: Vec<Directive> = Vec::new();
                    directives.push(
                        Directive::Submit { event: EngineEvent::DiscardSelection(discards) },
                    );
                    directives.push(Directive::Broadcast { message: GameToClient::AllDiscards });
                    (directives, TickStatus::Running)
                },
                _ => (Vec::new(), TickStatus::Fatal(FatalError::StoreMismatch)),
            }
        } else {
            let mut directives: Vec<Directive> = Vec::new();
            let mut k: usize = 0;
            while k < batch.len()
                invariant
                    !all_players_waiting(old(self).client_interfaces@),
                    self.wf(),
                    old(self).same_config(*self),
                    self.input_tracker == old(self).input_tracker,
                    self.num_connected_players == old(self).num_connected_players,
                    self.client_interfaces@.len() == old(self).client_interfaces@.len(),
                    batch_wf(batch@, self.num_connected_players),
                    k <= batch@.len(),
                    forall|d: int|
                        0 <= d < directives@.len() ==> !((#[trigger] directives@[d]) is Submit),
                    message_fold(
                        StepKind::Discard(*view),
                        *old(self),
                        *self,
                        batch@.take(k as int),
                        directives@,
                        TickStatus::Running,
                    ),
                decreases batch@.len() - k,
            {
                let ghost mid = *self;
                let ghost head = directives@;
                let (mut decided, status) = self.discard_message(&batch[k], view);
                proof {
                    lemma_fold_step(
                        StepKind::Discard(*view),
                        *old(self),
                        mid,
                        *self,
                        batch@,
                        k as int,
                        head,
                        decided@,
                        status,
                    );
                }
                directives.append(&mut decided);
                if !matches!(status, TickStatus::Running) {
                    return (directives, status);
                }
                k += 1;
            }
            proof {
                assert(batch@.take(batch@.len() as int) =~= batch@);
            }
            (directives, TickStatus::Running)
        }
    }

    /// One tick's decisions: dispatches the drained batch by the rules
    /// engine's phase.  The terminal phase winds the server down; a
    /// phase outside this core's scope aborts the game.  Whatever the
    /// phase: a DiscardSelection event is submitted to the rules engine
    /// only when every player session was in synchronized-wait at the
    /// start of the tick, so no partial discard submission ever happens;
    /// a Setup event is submitted only once the table is full and every
    /// player session is in synchronized-wait; and the ordered-input
    /// cursor advances only when every player session is in
    /// synchronized-wait.
    pub fn dispatch(&mut self, batch: &Vec<ClientMessage>, view: &EngineView) -> (r: (
        Vec<Directive>,
        TickStatus,
    ))
        requires
            old(self).wf(),
            batch_wf(batch@, old(self).num_connected_players),
        ensures
            final(self).wf(),
            old(self).same_config(*final(self)),
            final(self).num_connected_players == old(self).num_connected_players,
            final(self).client_interfaces@.len() == old(self).client_interfaces@.len(),
            view.phase is End ==> (*final(self) == *old(self) && r.0@
                =~= Seq::<Directive>::empty() && r.1 is ServerEnding),
            view.phase is Other ==> (*final(self) == *old(self) && r.0@
                =~= Seq::<Directive>::empty() && r.1 == TickStatus::Fatal(
                FatalError::UnknownPhase,
            )),
            forall|d: int|
                0 <= d < r.0@.len() ==> (((#[trigger] r.0@[d]) matches Directive::Submit { event }
                    && event is DiscardSelection) ==> all_players_waiting(
                    old(self).client_interfaces@,
                )),
            forall|d: int|
                0 <= d < r.0@.len() ==> (((#[trigger] r.0@[d]) matches Directive::Submit { event }
                    && event is Setup) ==> (view.phase is GameStart && old(self).setup_ready())),
            old(self).input_tracker matches Some(t) ==> ((!t.complete() && all_players_waiting(
                old(self).client_interfaces@,
            ) && (view.phase is CutInitial || view.phase is Deal)) ==> final(self).input_tracker
                == Some(t.advanced())),
            old(self).input_tracker matches Some(t) ==> ((!t.complete() && !all_players_waiting(
                old(self).client_interfaces@,
            )) ==> final(self).input_tracker == old(self).input_tracker),
            (view.phase is GameStart && !old(self).setup_ready()) ==> message_processed(
                StepKind::Setup,
                *old(self),
                *final(self),
                batch@,
                r.0@,
                r.1,
            ),
            old(self).input_tracker matches Some(t) ==> (((view.phase is CutInitial || view.phase
                is Deal) && !t.complete() && !all_players_waiting(old(self).client_interfaces@))
                ==> message_processed(
                StepKind::Cut(*view),
                *old(self),
                *final(self),
                batch@,
                r.0@,
                r.1,
            )),
            (view.phase is Deal && old(self).input_tracker is None) ==> message_processed(
                StepKind::Deal(*view),
                *old(self),
                *final(self),
                batch@,
                r.0@,
                r.1,
            ),
            (view.phase is Discard && !all_players_waiting(old(self).client_interfaces@))
                ==> message_processed(
                StepKind::Discard(*view),
                *old(self),
                *final(self),
                batch@,
                r.0@,
                r.1,
            ),
    {
        match view.phase {
            EnginePhase::GameStart => self.handle_setup(batch),
            EnginePhase::CutInitial => self.handle_cut(batch, view),
            EnginePhase::Deal => self.handle_deal(batch, view),
            EnginePhase::Discard => self.handle_discard(batch, view),
            EnginePhase::End => (Vec::new(), TickStatus::ServerEnding),
            EnginePhase::Other => (Vec::new(), TickStatus::Fatal(FatalError::UnknownPhase)),
        }
    }
}

/// One empty discard list per awaited player.
pub open spec fn empty_hands(np: u8) -> Seq<Seq<Card>> {
    Seq::new(np as nat, |i: int| Seq::<Card>::empty())
}

/// The engine snapshot has the player and the hand cards a recorded
/// selection refers to.
pub open spec fn sel_in_view(sel: DiscardSelection, view: EngineView) -> bool {
    match sel {
        DiscardSelection::OneDiscard { player_index, card_index } => player_index
            < view.players@.len() && card_index < view.players@[player_index as int].hand@.len(),
        DiscardSelection::TwoDiscard { player_index, card_index_one, card_index_two } => {
            &&& player_index < view.players@.len()
            &&& card_index_one < view.players@[player_index as int].hand@.len()
            &&& card_index_two < view.players@[player_index as int].hand@.len()
        },
    }
}

/// Every recorded selection refers to a player and hand cards the
/// engine snapshot has.
pub open spec fn sels_in_view(sels: Seq<DiscardSelection>, view: EngineView) -> bool {
    forall|j: int| 0 <= j < sels.len() ==> #[trigger] sel_in_view(sels[j], view)
}

/// Appends the cards one recorded selection names, looked up in the
/// engine snapshot, to that player's discard list.
pub open spec fn apply_selection(
    acc: Seq<Seq<Card>>,
    sel: DiscardSelection,
    view: EngineView,
) -> Seq<Seq<Card>> {
    match sel {
        DiscardSelection::OneDiscard { player_index, card_index } => acc.update(
            player_index as int,
            acc[player_index as int].push(
                view.players@[player_index as int].hand@[card_index as int],
            ),
        ),
        DiscardSelection::TwoDiscard { player_index, card_index_one, card_index_two } => acc.update(
            player_index as int,
            acc[player_index as int].push(
                view.players@[player_index as int].hand@[card_index_one as int],
            ).push(view.players@[player_index as int].hand@[card_index_two as int]),
        ),
    }
}

/// The per-player discard lists after the first `k` recorded selections
/// are applied, in the order they were recorded.
pub open spec fn assembled_discards(
    sels: Seq<DiscardSelection>,
    view: EngineView,
    np: u8,
    k: int,
) -> Seq<Seq<Card>>
    decreases k,
{
    if k <= 0 {
        empty_hands(np)
    } else {
        apply_selection(assembled_discards(sels, view, np, k - 1), sels[k - 1], view)
    }
}

/// The submitted per-player card lists hold exactly the assembled
/// discards.
pub open spec fn discards_match(d: Vec<Vec<Card>>, s: Seq<Seq<Card>>) -> bool {
    &&& d@.len() == s.len()
    &&& forall|p: int| 0 <= p < s.len() ==> (#[trigger] d@[p])@ =~= s[p]
}

/// The recorded form of an accepted discard selection.
pub open spec fn selection_of(player: u8, message: ClientToGame) -> DiscardSelection {
    match message {
        ClientToGame::DiscardOne { index } => DiscardSelection::OneDiscard {
            player_index: player,
            card_index: index,
        },
        ClientToGame::DiscardTwo { index_one, index_two } => DiscardSelection::TwoDiscard {
            player_index: player,
            card_index_one: index_one,
            card_index_two: index_two,
        },
        _ => DiscardSelection::OneDiscard { player_index: player, card_index: 0 },
    }
}

/// The broadcast announcing that the named player placed their discards.
pub open spec fn placed_notice(np: u8, name: String) -> GameToClient {
    if np == 2 {
        GameToClient::DiscardPlacedTwo(name)
    } else {
        GameToClient::DiscardPlacedOne(name)
    }
}

/// The four-step engine advance a dealer's confirmation triggers: deal,
/// report every hand, sort, report every hand again.
pub open spec fn deal_sequence() -> Seq<Directive> {
    seq![
        (Directive::Submit { event: EngineEvent::Confirmation }),
        Directive::BroadcastHands,
        (Directive::Submit { event: EngineEvent::Confirmation }),
        Directive::BroadcastHands,
    ]
}

/// The cut decided a dealer: the success was broadcast with the dealer's
/// name, the dealer's session was asked to confirm the deal and is the
/// only session changed — or, if no session holds the dealer's index,
/// the game aborted.
pub open spec fn dealer_announced(
    pre: Orchestrator,
    post: Orchestrator,
    directives: Seq<Directive>,
    status: TickStatus,
    dealer_name: String,
    dealer: u8,
) -> bool {
    &&& (has_player(pre.client_interfaces@, dealer) ==> {
        let pp = player_pos(pre.client_interfaces@, dealer);
        &&& status is Running
        &&& post.client_interfaces@[pp].state is WaitingForDeal
        &&& post.client_interfaces@[pp].index == pre.client_interfaces@[pp].index
        &&& (forall|i: int|
            0 <= i < pre.client_interfaces@.len() && i != pp ==> post.client_interfaces@[i]
                == pre.client_interfaces@[i])
        &&& directives.len() == 2
        &&& directives[0] == (Directive::Broadcast {
            message: GameToClient::InitialCutSuccess(dealer_name),
        })
        &&& (directives[1] matches Directive::Send { session, message } && session as int == pp
            && message is WaitDeal)
    })
    &&& (!has_player(pre.client_interfaces@, dealer) ==> {
        &&& status == TickStatus::Fatal(FatalError::MissingSession)
        &&& directives.len() == 1
        &&& directives[0] == (Directive::Broadcast {
            message: GameToClient::InitialCutSuccess(dealer_name),
        })
    })
}

/// The outbound message that solicits a discard selection: two cards at
/// a two-player table, one otherwise.
pub open spec fn discard_request(np: u8) -> GameToClient {
    if np == 2 {
        GameToClient::WaitDiscardTwo
    } else {
        GameToClient::WaitDiscardOne
    }
}

/// Whether this session is asked for discards: it must hold a player
/// index, and at a five-player table the dealer is exempt.
pub open spec fn discard_solicited(gci: GameClientInterface, np: u8, dealer: u8) -> bool {
    gci.index matches Some(p) && !(np == 5 && p == dealer)
}

/// The discard solicitations for the sessions at positions before
/// `upto`, in table order.
pub open spec fn solicit_directives(
    gcis: Seq<GameClientInterface>,
    np: u8,
    dealer: u8,
    upto: int,
) -> Seq<Directive>
    decreases upto,
{
    if upto <= 0 {
        Seq::empty()
    } else {
        solicit_directives(gcis, np, dealer, upto - 1) + (if discard_solicited(
            gcis[upto - 1],
            np,
            dealer,
        ) {
            seq![
                (Directive::Send { session: (upto - 1) as usize, message: discard_request(np) }),
            ]
        } else {
            Seq::empty()
        })
    }
}

/// The dealer exemption, in general: at a five-player table the discard
/// solicitations visit sessions in strictly increasing table order, each
/// asks for a single card, none addresses the session holding the
/// dealer's player index — and every other player session is solicited.
/// Each session is therefore solicited at most once, and each non-dealer
/// player session exactly once.
pub proof fn lemma_dealer_exemption(gcis: Seq<GameClientInterface>, dealer: u8, upto: int)
    requires
        upto <= gcis.len(),
        upto <= usize::MAX,
    ensures
        forall|d: int|
            0 <= d < solicit_directives(gcis, 5, dealer, upto).len() ==> ((#[trigger]
            solicit_directives(gcis, 5, dealer, upto)[d]) matches Directive::Send {
                session,
                message,
            } && session < upto && message is WaitDiscardOne && gcis[session as int].index is Some
                && gcis[session as int].index != Some(dealer)),
        forall|d1: int, d2: int|
            #![trigger solicit_directives(gcis, 5, dealer, upto)[d1], solicit_directives(gcis, 5, dealer, upto)[d2]]
            0 <= d1 < d2 < solicit_directives(gcis, 5, dealer, upto).len() ==> (
            solicit_directives(gcis, 5, dealer, upto)[d1] matches Directive::Send {
                session: s1,
                ..
            } && solicit_directives(gcis, 5, dealer, upto)[d2] matches Directive::Send {
                session: s2,
                ..
            } ==> s1 < s2),
        forall|pos: int|
            0 <= pos < upto && discard_solicited(#[trigger] gcis[pos], 5, dealer)
                ==> solicit_directives(gcis, 5, dealer, upto).contains(
                Directive::Send { session: pos as usize, message: GameToClient::WaitDiscardOne },
            ),
    decreases upto,
{
    if upto > 0 {
        lemma_dealer_exemption(gcis, dealer, upto - 1);
        let prev = solicit_directives(gcis, 5, dealer, upto - 1);
        let cur = solicit_directives(gcis, 5, dealer, upto);
        assert forall|d: int| 0 <= d < cur.len() implies ((#[trigger] cur[d]) matches
            Directive::Send { session, message } && session < upto && message is WaitDiscardOne
            && gcis[session as int].index is Some && gcis[session as int].index != Some(
            dealer,
        )) by {
            if d < prev.len() {
                assert(cur[d] == prev[d]);
            } else {
                assert(discard_solicited(gcis[upto - 1], 5, dealer));
                assert(cur[d] == (Directive::Send {
                    session: (upto - 1) as usize,
                    message: discard_request(5),
                }));
            }
        }
        assert forall|d1: int, d2: int|
            #![trigger cur[d1], cur[d2]]
            0 <= d1 < d2 < cur.len() implies (cur[d1] matches Directive::Send { session: s1, .. }
            && cur[d2] matches Directive::Send { session: s2, .. } ==> s1 < s2) by {
            assert(cur[d1] == prev[d1]);
            if d2 < prev.len() {
                assert(cur[d2] == prev[d2]);
            } else {
                assert(discard_solicited(gcis[upto - 1], 5, dealer));
                assert(cur[d2] == (Directive::Send {
                    session: (upto - 1) as usize,
                    message: discard_request(5),
                }));
            }
        }
        assert forall|pos: int|
            0 <= pos < upto && discard_solicited(#[trigger] gcis[pos], 5, dealer) implies cur.contains(
            Directive::Send { session: pos as usize, message: GameToClient::WaitDiscardOne },
        ) by {
            let e = Directive::Send {
                session: pos as usize,
                message: GameToClient::WaitDiscardOne,
            };
            if pos < upto - 1 {
                assert(prev.contains(e));
                let i = choose|i: int| 0 <= i < prev.len() && prev[i] == e;
                assert(cur[i] == e);
            } else {
                assert(cur[prev.len() as int] == e);
            }
        }
    }
}

/// Discard collection began: the input store now collects discards and
/// every player session was re-tagged — WaitingForDiscards, or
/// synchronized-wait for a five-player table's dealer — while watchers
/// are untouched.
pub open spec fn discard_collection_started(
    pre: Orchestrator,
    post: Orchestrator,
    dealer: u8,
) -> bool {
    &&& (post.input_store matches InputStore::Discards(sels) && sels@
        =~= Seq::<DiscardSelection>::empty())
    &&& post.client_interfaces@.len() == pre.client_interfaces@.len()
    &&& (forall|i: int|
        0 <= i < pre.client_interfaces@.len() ==> (#[trigger] post.client_interfaces@[i]).index
            == pre.client_interfaces@[i].index)
    &&& (forall|i: int|
        0 <= i < pre.client_interfaces@.len() ==> ((#[trigger] pre.client_interfaces@[i]).index
            matches Some(p) ==> post.client_interfaces@[i].state == (if pre.num_players == 5 && p
            == dealer {
            GciState::WaitingForServer
        } else {
            GciState::WaitingForDiscards
        })))
    &&& (forall|i: int|
        0 <= i < pre.client_interfaces@.len() ==> ((#[trigger] pre.client_interfaces@[i]).index
            is None ==> post.client_interfaces@[i] == pre.client_interfaces@[i]))
    &&& (forall|i: int|
        0 <= i < pre.client_interfaces@.len() ==> same_session_io(
            #[trigger] pre.client_interfaces@[i],
            post.client_interfaces@[i],
        ))
}

/// The next cut confirmation was solicited: the session holding player
/// index `next` was put in the WaitingForInitialCut state and is the only
/// session changed, and the sole directive asks it for the cut — or, if
/// no session holds that index, the game aborted.
pub open spec fn cut_solicited(
    pre: Orchestrator,
    post: Orchestrator,
    directives: Seq<Directive>,
    status: TickStatus,
    next: u8,
) -> bool {
    &&& (has_player(pre.client_interfaces@, next) ==> {
        let pp = player_pos(pre.client_interfaces@, next);
        &&& status is Running
        &&& post.client_interfaces@[pp].state is WaitingForInitialCut
        &&& post.client_interfaces@[pp].index == pre.client_interfaces@[pp].index
        &&& (forall|i: int|
            0 <= i < pre.client_interfaces@.len() && i != pp ==> post.client_interfaces@[i]
                == pre.client_interfaces@[i])
        &&& directives.len() == 1
        &&& (directives[0] matches Directive::Send { session, message } && session as int == pp
            && message is WaitInitialCut)
    })
    &&& (!has_player(pre.client_interfaces@, next) ==> status == TickStatus::Fatal(
        FatalError::MissingSession,
    ))
}

/// Which phase's per-message decision a batch is processed under; the
/// cut and deal relays also carry the engine snapshot they read.
pub enum StepKind {
    Setup,
    Cut(EngineView),
    Deal(EngineView),
    Discard(EngineView),
}

/// The per-message decision relation of the given phase.
pub open spec fn message_step(
    kind: StepKind,
    pre: Orchestrator,
    post: Orchestrator,
    input: ClientMessage,
    directives: Seq<Directive>,
    status: TickStatus,
) -> bool {
    match kind {
        StepKind::Setup => setup_step(pre, post, input, directives, status),
        StepKind::Cut(view) => cut_step(pre, post, input, view, directives, status),
        StepKind::Deal(view) => deal_step(pre, post, input, view, directives, status),
        StepKind::Discard(view) => discard_step(pre, post, input, view, directives, status),
    }
}

/// The batch prefix was processed message by message: a chain of
/// per-message decisions links the pre- and post-states, the directives
/// are their emissions concatenated in order, and every decision but the
/// last reported Running.
pub open spec fn message_fold(
    kind: StepKind,
    pre: Orchestrator,
    post: Orchestrator,
    prefix: Seq<ClientMessage>,
    directives: Seq<Directive>,
    status: TickStatus,
) -> bool
    decreases prefix.len(),
{
    if prefix.len() == 0 {
        post == pre && directives == Seq::<Directive>::empty() && status == TickStatus::Running
    } else {
        exists|mid: Orchestrator, head: Seq<Directive>, tail: Seq<Directive>|
            #![trigger chain_witness(mid, head, tail)]
            {
                &&& message_fold(kind, pre, mid, prefix.drop_last(), head, TickStatus::Running)
                &&& message_step(kind, mid, post, prefix.last(), tail, status)
                &&& directives == head + tail
            }
    }
}

/// Marks the intermediate state and directive split of one link in a
/// processing chain; carries the quantifier instantiations for
/// [`message_fold`].
pub open spec fn chain_witness(
    mid: Orchestrator,
    head: Seq<Directive>,
    tail: Seq<Directive>,
) -> bool {
    true
}

/// The whole batch was processed message by message — or, when a fatal
/// decision stopped the game, exactly the messages up to and including
/// the fatal one were.
pub open spec fn message_processed(
    kind: StepKind,
    pre: Orchestrator,
    post: Orchestrator,
    batch: Seq<ClientMessage>,
    directives: Seq<Directive>,
    status: TickStatus,
) -> bool {
    if status == TickStatus::Running {
        message_fold(kind, pre, post, batch, directives, TickStatus::Running)
    } else {
        exists|k: int|
            0 < k <= batch.len() && #[trigger] message_fold(
                kind,
                pre,
                post,
                batch.take(k),
                directives,
                status,
            )
    }
}

/// One more message was processed: extends a fold over a batch prefix by
/// the decision just taken and — when that decision was fatal — yields
/// the processed-batch statement, the game stopping at that message.
pub proof fn lemma_fold_step(
    kind: StepKind,
    pre: Orchestrator,
    mid: Orchestrator,
    post: Orchestrator,
    batch: Seq<ClientMessage>,
    k: int,
    head: Seq<Directive>,
    tail: Seq<Directive>,
    status: TickStatus,
)
    requires
        0 <= k < batch.len(),
        message_fold(kind, pre, mid, batch.take(k), head, TickStatus::Running),
        message_step(kind, mid, post, batch[k], tail, status),
    ensures
        message_fold(kind, pre, post, batch.take(k + 1), head + tail, status),
        !(status == TickStatus::Running) ==> message_processed(
            kind,
            pre,
            post,
            batch,
            head + tail,
            status,
        ),
{
    let prefix = batch.take(k + 1);
    assert(prefix.drop_last() =~= batch.take(k));
    assert(prefix.last() == batch[k]);
    assert(chain_witness(mid, head, tail));
    assert(message_fold(kind, pre, mid, prefix.drop_last(), head, TickStatus::Running));
    assert(message_step(kind, mid, post, prefix.last(), tail, status));
    assert(message_fold(kind, pre, post, prefix, head + tail, status));
}

/// The two orchestrator states describe the same table: identical
/// configuration, aggregation state and session records.
pub open spec fn same_table(a: Orchestrator, b: Orchestrator) -> bool {
    &&& a.same_config(b)
    &&& b.input_tracker == a.input_tracker
    &&& b.input_store == a.input_store
    &&& b.num_connected_players == a.num_connected_players
    &&& b.client_interfaces@ == a.client_interfaces@
}

/// The exact admission decision for a Greeting from the session at
/// position `pos`, as `on_greeting` guarantees it: admitted with the
/// next free index while setup runs and a seat is free, denied into
/// watching otherwise, ignored unless the session was still Connecting.
pub open spec fn greeted(
    pre: Orchestrator,
    post: Orchestrator,
    pos: int,
    phase: EnginePhase,
    directives: Seq<Directive>,
) -> bool {
    &&& pre.same_config(post)
    &&& post.input_tracker == pre.input_tracker
    &&& post.input_store == pre.input_store
    &&& post.client_interfaces@.len() == pre.client_interfaces@.len()
    &&& post.num_connected_players >= pre.num_connected_players
    &&& (forall|i: int|
        0 <= i < pre.client_interfaces@.len() && i != pos ==> post.client_interfaces@[i]
            == pre.client_interfaces@[i])
    &&& same_session_io(pre.client_interfaces@[pos], post.client_interfaces@[pos])
    &&& (!(pre.client_interfaces@[pos].state is Connecting) ==> (same_table(pre, post)
        && directives == Seq::<Directive>::empty()))
    &&& ((pre.client_interfaces@[pos].state is Connecting && phase is GameStart
        && pre.num_connected_players < pre.num_players) ==> ({
        &&& post.client_interfaces@[pos].index == Some(pre.num_connected_players)
        &&& post.client_interfaces@[pos].state is WaitingName
        &&& post.num_connected_players == pre.num_connected_players + 1
        &&& directives =~= seq![
            (Directive::Send { session: pos as usize, message: GameToClient::WaitName }),
        ]
    }))
    &&& ((pre.client_interfaces@[pos].state is Connecting && !(phase is GameStart
        && pre.num_connected_players < pre.num_players)) ==> ({
        &&& post.client_interfaces@[pos].index == pre.client_interfaces@[pos].index
        &&& post.client_interfaces@[pos].state is Watching
        &&& post.num_connected_players == pre.num_connected_players
        &&& directives =~= seq![
            (Directive::Send { session: pos as usize, message: GameToClient::DeniedTableFull }),
        ]
    }))
}

/// Exactly the value `v` was consumed from the queue of the session at
/// position `pos`, and nothing else moved.
pub open spec fn polled(
    pre: Orchestrator,
    post: Orchestrator,
    pos: int,
    v: ClientToGame,
) -> bool {
    &&& pre.same_config(post)
    &&& post.input_tracker == pre.input_tracker
    &&& post.input_store == pre.input_store
    &&& post.num_connected_players == pre.num_connected_players
    &&& post.client_interfaces@.len() == pre.client_interfaces@.len()
    &&& (forall|i: int|
        0 <= i < pre.client_interfaces@.len() && i != pos ==> post.client_interfaces@[i]
            == pre.client_interfaces@[i])
    &&& ({
        let a = pre.client_interfaces@[pos];
        let b = post.client_interfaces@[pos];
        &&& b.index == a.index
        &&& b.state == a.state
        &&& b.transmitter == a.transmitter
        &&& b.receiver == a.receiver
        &&& b.awaiting_ack == a.awaiting_ack
        &&& b.sent == a.sent
        &&& b.received@ == a.received@.push(v)
    })
}

/// Marks the polled value and the state after the poll; carries the
/// quantifier instantiations for [`poll_step`].
pub open spec fn poll_witness(v: ClientToGame, mid: Orchestrator) -> bool {
    true
}

/// One session's turn in the drain: either nothing was pending, or
/// exactly one value was consumed and routed — a Greeting through the
/// admission rules, a player's message into the batch under the
/// sender's player index, and a watcher's message answered with a
/// denial.
pub open spec fn poll_step(
    pre: Orchestrator,
    post: Orchestrator,
    pos: int,
    phase: EnginePhase,
    inbox: Seq<ClientMessage>,
    directives: Seq<Directive>,
) -> bool {
    ||| (same_table(pre, post) && inbox == Seq::<ClientMessage>::empty() && directives
        == Seq::<Directive>::empty())
    ||| (exists|v: ClientToGame, mid: Orchestrator|
        #![trigger poll_witness(v, mid)]
        {
            &&& polled(pre, mid, pos, v)
            &&& (v is Greeting ==> (greeted(mid, post, pos, phase, directives) && inbox
                == Seq::<ClientMessage>::empty()))
            &&& (!(v is Greeting) ==> (match mid.client_interfaces@[pos].index {
                Some(player) => {
                    &&& post == mid
                    &&& inbox == seq![(ClientMessage { index: player, message: v })]
                    &&& directives == Seq::<Directive>::empty()
                },
                None => {
                    &&& post == mid
                    &&& inbox == Seq::<ClientMessage>::empty()
                    &&& directives == seq![
                        (Directive::Send {
                            session: pos as usize,
                            message: GameToClient::DeniedTableFull,
                        }),
                    ]
                },
            }))
        })
}

/// Marks the intermediate state and the splits of one drain link;
/// carries the quantifier instantiations for [`drain_fold`].
pub open spec fn drain_witness(
    mid: Orchestrator,
    batch_head: Seq<ClientMessage>,
    batch_tail: Seq<ClientMessage>,
    dir_head: Seq<Directive>,
    dir_tail: Seq<Directive>,
) -> bool {
    true
}

/// The sessions at positions before `upto` were each polled once, in
/// table order: a chain of [`poll_step`]s links the pre- and
/// post-states, the batch is the forwarded player messages in that
/// order, and the directives are the admission replies in that order.
pub open spec fn drain_fold(
    pre: Orchestrator,
    post: Orchestrator,
    upto: int,
    phase: EnginePhase,
    batch: Seq<ClientMessage>,
    directives: Seq<Directive>,
) -> bool
    decreases upto,
{
    if upto <= 0 {
        same_table(pre, post) && batch == Seq::<ClientMessage>::empty() && directives
            == Seq::<Directive>::empty()
    } else {
        exists|
            mid: Orchestrator,
            batch_head: Seq<ClientMessage>,
            batch_tail: Seq<ClientMessage>,
            dir_head: Seq<Directive>,
            dir_tail: Seq<Directive>,
        |
            #![trigger drain_witness(mid, batch_head, batch_tail, dir_head, dir_tail)]
            {
                &&& drain_fold(pre, mid, upto - 1, phase, batch_head, dir_head)
                &&& poll_step(mid, post, upto - 1, phase, batch_tail, dir_tail)
                &&& batch == batch_head + batch_tail
                &&& directives == dir_head + dir_tail
            }
    }
}

/// The exact decision for one batched message while the engine awaits
/// setup, as `setup_message` guarantees it.
pub open spec fn setup_step(
    pre: Orchestrator,
    post: Orchestrator,
    input: ClientMessage,
    directives: Seq<Directive>,
    status: TickStatus,
) -> bool {
    &&& pre.same_config(post)
    &&& post.input_tracker == pre.input_tracker
    &&& post.num_connected_players == pre.num_connected_players
    &&& post.client_interfaces@.len() == pre.client_interfaces@.len()
    &&& ({
        let pp = player_pos(pre.client_interfaces@, input.index);
        let st = pre.client_interfaces@[pp].state;
        &&& (forall|i: int|
            0 <= i < pre.client_interfaces@.len() && i != pp ==> post.client_interfaces@[i]
                == pre.client_interfaces@[i])
        &&& same_session_io(pre.client_interfaces@[pp], post.client_interfaces@[pp])
        &&& match input.message {
            ClientToGame::Name(name) => {
                if st is WaitingName {
                    &&& (pre.input_store matches InputStore::Names(names) ==> {
                        &&& status == TickStatus::Running
                        &&& post.client_interfaces@[pp].index == pre.client_interfaces@[pp].index
                        &&& post.client_interfaces@[pp].state is WaitingForServer
                        &&& (post.input_store matches InputStore::Names(recorded) && recorded@
                            =~= names@.update(input.index as int, name))
                        &&& directives =~= seq![
                            (Directive::Broadcast {
                                message: GameToClient::PlayerJoinNotification {
                                    name: name,
                                    number: (input.index + 1) as u8,
                                    of: pre.num_players,
                                },
                            }),
                        ]
                    })
                    &&& (!(pre.input_store is Names) ==> {
                        &&& status == TickStatus::Fatal(FatalError::StoreMismatch)
                        &&& post == pre
                        &&& directives =~= Seq::<Directive>::empty()
                    })
                } else {
                    &&& status == TickStatus::Running
                    &&& post == pre
                    &&& directives.len() == 1
                    &&& (directives[0] matches Directive::Send { session, message } && session
                        as int == pp && message is Error)
                }
            },
            _ => {
                &&& status == TickStatus::Running
                &&& post == pre
                &&& directives.len() == 1
                &&& (if st is WaitingName {
                    directives[0] == (Directive::Send {
                        session: pp as usize,
                        message: GameToClient::WaitName,
                    })
                } else {
                    directives[0] matches Directive::Send { session, message } && session as int
                        == pp && message is Error
                })
            },
        }
    })
}

/// The exact decision for one batched message while an ordered round of
/// cut confirmations is in progress, as `cut_message` guarantees it.
pub open spec fn cut_step(
    pre: Orchestrator,
    post: Orchestrator,
    input: ClientMessage,
    view: EngineView,
    directives: Seq<Directive>,
    status: TickStatus,
) -> bool {
    &&& pre.same_config(post)
    &&& post.input_tracker == pre.input_tracker
    &&& post.input_store == pre.input_store
    &&& post.num_connected_players == pre.num_connected_players
    &&& post.client_interfaces@.len() == pre.client_interfaces@.len()
    &&& ({
        let pp = player_pos(pre.client_interfaces@, input.index);
        let active = pre.input_tracker.unwrap().index_active;
        &&& (forall|i: int|
            0 <= i < pre.client_interfaces@.len() && i != pp ==> post.client_interfaces@[i]
                == pre.client_interfaces@[i])
        &&& same_session_io(pre.client_interfaces@[pp], post.client_interfaces@[pp])
        &&& (input.index == active ==> match input.message {
            ClientToGame::Confirmation => {
                if input.index < view.players@.len() && view.players@[input.index as int].hand@.len() > 0 {
                    &&& status == TickStatus::Running
                    &&& post.client_interfaces@[pp].index == pre.client_interfaces@[pp].index
                    &&& post.client_interfaces@[pp].state is WaitingForServer
                    &&& directives =~= seq![
                        (Directive::Broadcast {
                            message: GameToClient::InitialCutResult {
                                name: view.players@[input.index as int].username,
                                card: view.players@[input.index as int].hand@[0],
                            },
                        }),
                    ]
                } else {
                    &&& status == TickStatus::Fatal(FatalError::ViewMismatch)
                    &&& post == pre
                    &&& directives =~= Seq::<Directive>::empty()
                }
            },
            _ => {
                &&& status == TickStatus::Running
                &&& post == pre
                &&& directives =~= seq![
                    (Directive::Send {
                        session: pp as usize,
                        message: GameToClient::WaitInitialCut,
                    }),
                ]
            },
        })
        &&& (input.index != active ==> {
            &&& status == TickStatus::Running
            &&& post == pre
            &&& directives.len() == 1
            &&& (directives[0] matches Directive::Send { session, message } && session as int
                == pp && message is Error)
        })
    })
}

/// The exact decision for one batched message while the engine awaits
/// the deal and no ordered round remains, as `deal_message` guarantees
/// it.
pub open spec fn deal_step(
    pre: Orchestrator,
    post: Orchestrator,
    input: ClientMessage,
    view: EngineView,
    directives: Seq<Directive>,
    status: TickStatus,
) -> bool {
    &&& status == TickStatus::Running
    &&& pre.same_config(post)
    &&& post.input_tracker == pre.input_tracker
    &&& post.num_connected_players == pre.num_connected_players
    &&& post.client_interfaces@.len() == pre.client_interfaces@.len()
    &&& ({
        let pp = player_pos(pre.client_interfaces@, input.index);
        let dealer = view.index_dealer;
        &&& ((input.index == dealer && input.message is Confirmation) ==> ({
            &&& discard_collection_started(pre, post, dealer)
            &&& directives =~= deal_sequence() + solicit_directives(
                pre.client_interfaces@,
                pre.num_players,
                dealer,
                pre.client_interfaces@.len() as int,
            )
        }))
        &&& ((input.index == dealer && !(input.message is Confirmation)) ==> (post == pre
            && directives =~= seq![
            (Directive::Send { session: pp as usize, message: GameToClient::WaitDeal }),
        ]))
        &&& (input.index != dealer ==> (post == pre && directives.len() == 1 && (
        directives[0] matches Directive::Send { session, message } && session as int == pp
            && message is Error)))
    })
}

/// The exact decision for one batched message while discards are being
/// collected, as `discard_message` guarantees it.
pub open spec fn discard_step(
    pre: Orchestrator,
    post: Orchestrator,
    input: ClientMessage,
    view: EngineView,
    directives: Seq<Directive>,
    status: TickStatus,
) -> bool {
    &&& pre.same_config(post)
    &&& post.input_tracker == pre.input_tracker
    &&& post.num_connected_players == pre.num_connected_players
    &&& post.client_interfaces@.len() == pre.client_interfaces@.len()
    &&& ({
        let pp = player_pos(pre.client_interfaces@, input.index);
        let st = pre.client_interfaces@[pp].state;
        let np = pre.num_players;
        let accepted = (if np == 2 {
            input.message is DiscardTwo
        } else {
            input.message is DiscardOne
        });
        &&& ((st is WaitingForDiscards && accepted) ==> ({
            &&& (input.index >= view.players@.len() ==> (status == TickStatus::Fatal(
                FatalError::ViewMismatch,
            ) && post == pre && directives =~= Seq::<Directive>::empty()))
            &&& ((input.index < view.players@.len() && !(pre.input_store is Discards)) ==> (
            status == TickStatus::Fatal(FatalError::StoreMismatch) && post == pre && directives
                =~= Seq::<Directive>::empty()))
            &&& (input.index < view.players@.len() ==> (pre.input_store matches
                InputStore::Discards(sels) ==> ({
                &&& status == TickStatus::Running
                &&& (post.input_store matches InputStore::Discards(recorded) && recorded@
                    =~= sels@.push(selection_of(input.index, input.message)))
                &&& post.client_interfaces@[pp].index == pre.client_interfaces@[pp].index
                &&& post.client_interfaces@[pp].state is WaitingForServer
                &&& same_session_io(pre.client_interfaces@[pp], post.client_interfaces@[pp])
                &&& (forall|i: int|
                    0 <= i < pre.client_interfaces@.len() && i != pp
                        ==> post.client_interfaces@[i] == pre.client_interfaces@[i])
                &&& directives =~= seq![
                    (Directive::Broadcast {
                        message: placed_notice(np, view.players@[input.index as int].username),
                    }),
                ]
            })))
        }))
        &&& ((st is WaitingForDiscards && !accepted) ==> (post == pre && status
            == TickStatus::Running && directives =~= seq![
            (Directive::Send { session: pp as usize, message: discard_request(np) }),
        ]))
        &&& (!(st is WaitingForDiscards) ==> (post == pre && status == TickStatus::Running
            && directives.len() == 1 && (directives[0] matches Directive::Send {
            session,
            message,
        } && session as int == pp && message is Error)))
    })
}

/// A well-formed per-tick batch: every entry carries the player index of
/// its sender, below the connected-player count, and no player appears
/// twice — each session's queue is drained at most once per tick.
pub open spec fn batch_wf(batch: Seq<ClientMessage>, count: u8) -> bool {
    &&& forall|k: int| 0 <= k < batch.len() ==> (#[trigger] batch[k]).index < count
    &&& forall|a: int, b: int|
        #![trigger batch[a].index, batch[b].index]
        0 <= a < b < batch.len() ==> batch[a].index != batch[b].index
}

/// The player index a recorded discard selection belongs to.
pub open spec fn sel_player(sel: DiscardSelection) -> u8 {
    match sel {
        DiscardSelection::OneDiscard { player_index, .. } => player_index,
        DiscardSelection::TwoDiscard { player_index, .. } => player_index,
    }
}

/// The tracker invariant while a round is in progress: the round runs to
/// the last player, the active cursor trails it by at most one, and the
/// cursors advance in lock step.
pub open spec fn tracker_wf(t: OrderedInputTracker, num_players: u8) -> bool {
    &&& t.index_stop == Some((num_players - 1) as u8)
    &&& t.index_active <= num_players
    &&& (t.index_last matches Some(l) ==> t.index_active == l + 1)
    &&& (t.index_last is None ==> t.index_active == 0)
}

} // verus!
