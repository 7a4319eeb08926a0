use std::sync::mpsc;

use cribbage_server::engine::{EnginePhase, EngineEvent, EngineView, PlayerView};
use cribbage_server::game::{
    ClientMessage, Directive, DiscardSelection, InputStore, Orchestrator, TickStatus,
};
use cribbage_server::messages::{Card, ClientToGame, GameToClient};
use cribbage_server::session::GciState;

fn joined_players(num_players: u8) -> Orchestrator {
    let mut orch = Orchestrator::new(num_players, false, false, false, false);
    for pos in 0..num_players as usize {
        let (outbound_tx, _outbound_rx) = mpsc::channel::<GameToClient>();
        let (_inbound_tx, inbound_rx) = mpsc::channel::<ClientToGame>();
        orch.register_session(outbound_tx, inbound_rx);
        orch.on_greeting(pos, &EnginePhase::GameStart);
    }
    orch
}

fn deal_view(num_players: u8, dealer: u8) -> EngineView {
    let mut players = Vec::new();
    for p in 0..num_players {
        players.push(PlayerView {
            username: format!("player{}", p),
            hand: vec![
                Card { rank: 1, suit: p },
                Card { rank: 2, suit: p },
                Card { rank: 3, suit: p },
                Card { rank: 4, suit: p },
                Card { rank: 5, suit: p },
                Card { rank: 6, suit: p },
            ],
        });
    }
    EngineView { phase: EnginePhase::Deal, players, index_dealer: dealer }
}

#[test]
fn dealer_confirmation_deals_sorts_and_starts_discards() {
    let mut orch = joined_players(2);
    let view = deal_view(2, 1);
    let batch = vec![ClientMessage { index: 1, message: ClientToGame::Confirmation }];
    let (directives, status) = orch.handle_deal(&batch, &view);
    assert!(matches!(status, TickStatus::Running));
    // Deal, report hands, sort, report hands again; then both players are
    // asked for two discards (two-player table).
    assert_eq!(directives.len(), 6);
    assert!(matches!(directives[0], Directive::Submit { event: EngineEvent::Confirmation }));
    assert!(matches!(directives[1], Directive::BroadcastHands));
    assert!(matches!(directives[2], Directive::Submit { event: EngineEvent::Confirmation }));
    assert!(matches!(directives[3], Directive::BroadcastHands));
    assert!(matches!(
        directives[4],
        Directive::Send { session: 0, message: GameToClient::WaitDiscardTwo }
    ));
    assert!(matches!(
        directives[5],
        Directive::Send { session: 1, message: GameToClient::WaitDiscardTwo }
    ));
    assert_eq!(orch.client_interfaces[0].state, GciState::WaitingForDiscards);
    assert_eq!(orch.client_interfaces[1].state, GciState::WaitingForDiscards);
    assert!(matches!(&orch.input_store, InputStore::Discards(sels) if sels.is_empty()));
}

#[test]
fn five_player_dealer_is_exempt_from_discarding() {
    // Scenario: at a five-player table, after the deal and sort
    // broadcasts the dealer session receives no discard solicitation
    // while the other four each receive WaitDiscardOne.
    let mut orch = joined_players(5);
    let dealer: u8 = 2;
    let view = deal_view(5, dealer);
    let batch = vec![ClientMessage { index: dealer, message: ClientToGame::Confirmation }];
    let (directives, status) = orch.handle_deal(&batch, &view);
    assert!(matches!(status, TickStatus::Running));
    let mut solicited: Vec<usize> = Vec::new();
    for directive in &directives[4..] {
        match directive {
            Directive::Send { session, message: GameToClient::WaitDiscardOne } => {
                solicited.push(*session);
            },
            _ => panic!("unexpected directive after the deal"),
        }
    }
    assert_eq!(solicited, vec![0, 1, 3, 4]);
    assert_eq!(orch.client_interfaces[dealer as usize].state, GciState::WaitingForServer);
    for pos in [0usize, 1, 3, 4] {
        assert_eq!(orch.client_interfaces[pos].state, GciState::WaitingForDiscards);
    }
}

#[test]
fn non_dealer_input_during_deal_is_an_error() {
    let mut orch = joined_players(2);
    let view = deal_view(2, 1);
    let batch = vec![ClientMessage { index: 0, message: ClientToGame::Confirmation }];
    let (directives, status) = orch.handle_deal(&batch, &view);
    assert!(matches!(status, TickStatus::Running));
    assert!(matches!(
        directives[..],
        [Directive::Send { session: 0, message: GameToClient::Error(_) }]
    ));
}

#[test]
fn completed_relay_announces_the_dealer() {
    let mut orch = joined_players(2);
    let mut view = deal_view(2, 1);
    view.phase = EnginePhase::Deal;
    orch.input_tracker = Some(cribbage_server::tracker::OrderedInputTracker {
        index_active: 2,
        index_last: Some(1),
        index_stop: Some(1),
    });
    let (directives, status) = orch.handle_deal(&Vec::new(), &view);
    assert!(matches!(status, TickStatus::Running));
    assert_eq!(directives.len(), 2);
    match &directives[0] {
        Directive::Broadcast { message: GameToClient::InitialCutSuccess(name) } => {
            assert_eq!(name, "player1");
        },
        _ => panic!("expected the cut success broadcast"),
    }
    assert!(matches!(
        directives[1],
        Directive::Send { session: 1, message: GameToClient::WaitDeal }
    ));
    assert_eq!(orch.client_interfaces[1].state, GciState::WaitingForDeal);
    assert_eq!(orch.input_tracker, None);
}

#[test]
fn discard_of_wrong_arity_is_resolicited() {
    let mut orch = joined_players(2);
    orch.input_store = InputStore::Discards(Vec::new());
    orch.client_interfaces[0].state = GciState::WaitingForDiscards;
    let mut view = deal_view(2, 1);
    view.phase = EnginePhase::Discard;
    let batch = vec![ClientMessage { index: 0, message: ClientToGame::DiscardOne { index: 0 } }];
    let (directives, status) = orch.handle_discard(&batch, &view);
    assert!(matches!(status, TickStatus::Running));
    assert!(matches!(
        directives[..],
        [Directive::Send { session: 0, message: GameToClient::WaitDiscardTwo }]
    ));
    assert_eq!(orch.client_interfaces[0].state, GciState::WaitingForDiscards);
}

#[test]
fn discard_from_waiting_session_is_an_error() {
    let mut orch = joined_players(2);
    orch.input_store = InputStore::Discards(Vec::new());
    orch.client_interfaces[0].state = GciState::WaitingForDiscards;
    orch.client_interfaces[1].state = GciState::WaitingForServer;
    let mut view = deal_view(2, 1);
    view.phase = EnginePhase::Discard;
    let batch = vec![ClientMessage {
        index: 1,
        message: ClientToGame::DiscardTwo { index_one: 0, index_two: 1 },
    }];
    let (directives, status) = orch.handle_discard(&batch, &view);
    assert!(matches!(status, TickStatus::Running));
    assert!(matches!(
        directives[..],
        [Directive::Send { session: 1, message: GameToClient::Error(_) }]
    ));
}

#[test]
fn accepted_discard_is_recorded_and_announced() {
    let mut orch = joined_players(2);
    orch.input_store = InputStore::Discards(Vec::new());
    orch.client_interfaces[0].state = GciState::WaitingForDiscards;
    orch.client_interfaces[1].state = GciState::WaitingForDiscards;
    let mut view = deal_view(2, 1);
    view.phase = EnginePhase::Discard;
    let batch = vec![ClientMessage {
        index: 0,
        message: ClientToGame::DiscardTwo { index_one: 1, index_two: 3 },
    }];
    let (directives, status) = orch.handle_discard(&batch, &view);
    assert!(matches!(status, TickStatus::Running));
    assert_eq!(directives.len(), 1);
    match &directives[0] {
        Directive::Broadcast { message: GameToClient::DiscardPlacedTwo(name) } => {
            assert_eq!(name, "player0");
        },
        _ => panic!("expected the discard announcement"),
    }
    assert_eq!(orch.client_interfaces[0].state, GciState::WaitingForServer);
    match &orch.input_store {
        InputStore::Discards(sels) => {
            assert_eq!(sels.len(), 1);
            assert_eq!(
                sels[0],
                DiscardSelection::TwoDiscard {
                    player_index: 0,
                    card_index_one: 1,
                    card_index_two: 3,
                }
            );
        },
        _ => panic!("expected collected discards"),
    }
}

#[test]
fn no_discard_submission_until_every_player_waits() {
    let mut orch = joined_players(2);
    orch.input_store = InputStore::Discards(vec![DiscardSelection::TwoDiscard {
        player_index: 1,
        card_index_one: 0,
        card_index_two: 1,
    }]);
    // Player 0 still owes its discards: nothing may be submitted.
    orch.client_interfaces[0].state = GciState::WaitingForDiscards;
    orch.client_interfaces[1].state = GciState::WaitingForServer;
    let mut view = deal_view(2, 1);
    view.phase = EnginePhase::Discard;
    let (directives, status) = orch.handle_discard(&Vec::new(), &view);
    assert!(matches!(status, TickStatus::Running));
    assert!(directives.iter().all(|d| !matches!(d, Directive::Submit { .. })));
}

#[test]
fn discard_submission_assembles_recorded_cards() {
    let mut orch = joined_players(2);
    orch.input_store = InputStore::Discards(vec![
        DiscardSelection::TwoDiscard { player_index: 1, card_index_one: 0, card_index_two: 2 },
        DiscardSelection::TwoDiscard { player_index: 0, card_index_one: 1, card_index_two: 3 },
    ]);
    orch.client_interfaces[0].state = GciState::WaitingForServer;
    orch.client_interfaces[1].state = GciState::WaitingForServer;
    let mut view = deal_view(2, 1);
    view.phase = EnginePhase::Discard;
    let (directives, status) = orch.handle_discard(&Vec::new(), &view);
    assert!(matches!(status, TickStatus::Running));
    assert_eq!(directives.len(), 2);
    match &directives[0] {
        Directive::Submit { event: EngineEvent::DiscardSelection(discards) } => {
            assert_eq!(discards.len(), 2);
            assert_eq!(
                discards[0],
                vec![Card { rank: 2, suit: 0 }, Card { rank: 4, suit: 0 }]
            );
            assert_eq!(
                discards[1],
                vec![Card { rank: 1, suit: 1 }, Card { rank: 3, suit: 1 }]
            );
        },
        _ => panic!("expected the discard submission"),
    }
    assert!(matches!(
        directives[1],
        Directive::Broadcast { message: GameToClient::AllDiscards }
    ));
}

#[test]
fn out_of_range_discard_index_is_fatal_at_assembly() {
    let mut orch = joined_players(2);
    orch.input_store = InputStore::Discards(vec![DiscardSelection::TwoDiscard {
        player_index: 0,
        card_index_one: 0,
        card_index_two: 9,
    }]);
    orch.client_interfaces[0].state = GciState::WaitingForServer;
    orch.client_interfaces[1].state = GciState::WaitingForServer;
    let mut view = deal_view(2, 1);
    view.phase = EnginePhase::Discard;
    let (directives, status) = orch.handle_discard(&Vec::new(), &view);
    assert!(directives.is_empty());
    assert!(matches!(
        status,
        TickStatus::Fatal(cribbage_server::game::FatalError::ViewMismatch)
    ));
}

#[test]
fn store_mismatch_during_discards_is_fatal() {
    let mut orch = joined_players(2);
    // The store still collects names: a discard phase with it is an
    // invariant violation and aborts the game.
    orch.client_interfaces[0].state = GciState::WaitingForDiscards;
    let mut view = deal_view(2, 1);
    view.phase = EnginePhase::Discard;
    let batch = vec![ClientMessage {
        index: 0,
        message: ClientToGame::DiscardTwo { index_one: 0, index_two: 1 },
    }];
    let (_, status) = orch.handle_discard(&batch, &view);
    assert!(matches!(
        status,
        TickStatus::Fatal(cribbage_server::game::FatalError::StoreMismatch)
    ));
}

#[test]
fn cut_round_without_a_first_player_is_fatal() {
    // The engine reports the cut phase while no session holds player
    // index 0: there is nobody to solicit.
    let mut orch = Orchestrator::new(2, false, false, false, false);
    let mut view = deal_view(2, 0);
    view.phase = EnginePhase::CutInitial;
    let (directives, status) = orch.handle_cut(&Vec::new(), &view);
    assert_eq!(directives.len(), 1);
    assert!(matches!(directives[0], Directive::Submit { event: EngineEvent::Confirmation }));
    assert!(matches!(
        status,
        TickStatus::Fatal(cribbage_server::game::FatalError::MissingSession)
    ));
}

#[test]
fn unknown_phase_is_fatal_and_end_phase_winds_down() {
    let mut orch = joined_players(2);
    let mut view = deal_view(2, 0);
    view.phase = EnginePhase::Other;
    let (directives, status) = orch.dispatch(&Vec::new(), &view);
    assert!(directives.is_empty());
    assert!(matches!(
        status,
        TickStatus::Fatal(cribbage_server::game::FatalError::UnknownPhase)
    ));
    view.phase = EnginePhase::End;
    let (directives, status) = orch.dispatch(&Vec::new(), &view);
    assert!(directives.is_empty());
    assert!(matches!(status, TickStatus::ServerEnding));
}
