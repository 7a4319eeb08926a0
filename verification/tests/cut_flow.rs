use std::sync::mpsc;

use cribbage_server::engine::{EnginePhase, EngineEvent, EngineView, PlayerView};
use cribbage_server::game::{ClientMessage, Directive, Orchestrator, TickStatus};
use cribbage_server::messages::{Card, ClientToGame, GameToClient};
use cribbage_server::session::GciState;
use cribbage_server::tracker::OrderedInputTracker;

fn two_joined_players() -> Orchestrator {
    let mut orch = Orchestrator::new(2, false, false, false, false);
    for _ in 0..2 {
        let (outbound_tx, _outbound_rx) = mpsc::channel::<GameToClient>();
        let (_inbound_tx, inbound_rx) = mpsc::channel::<ClientToGame>();
        orch.register_session(outbound_tx, inbound_rx);
    }
    orch.on_greeting(0, &EnginePhase::GameStart);
    orch.on_greeting(1, &EnginePhase::GameStart);
    let batch = vec![
        ClientMessage { index: 0, message: ClientToGame::Name("Alice".to_string()) },
        ClientMessage { index: 1, message: ClientToGame::Name("Bob".to_string()) },
    ];
    orch.handle_setup(&batch);
    orch
}

fn cut_view() -> EngineView {
    EngineView {
        phase: EnginePhase::CutInitial,
        players: vec![
            PlayerView {
                username: "Alice".to_string(),
                hand: vec![Card { rank: 7, suit: 1 }],
            },
            PlayerView {
                username: "Bob".to_string(),
                hand: vec![Card { rank: 7, suit: 2 }],
            },
        ],
        index_dealer: 0,
    }
}

#[test]
fn ordered_round_advances_strictly_once_each() {
    // One completed round over four players visits cursors 0..3 strictly
    // increasing, exactly once each: four advances in total.
    let mut tracker = OrderedInputTracker::new_round(3);
    let mut visited: Vec<u8> = Vec::new();
    while !tracker.is_complete() {
        visited.push(tracker.index_active);
        tracker.advance();
    }
    assert_eq!(visited, vec![0, 1, 2, 3]);
    assert_eq!(tracker.index_last, Some(3));
    assert_eq!(tracker.index_active, 4);
}

#[test]
fn cut_confirmation_reveals_the_cut() {
    let mut orch = two_joined_players();
    let view = cut_view();
    orch.handle_cut(&Vec::new(), &view);
    let batch = vec![ClientMessage { index: 0, message: ClientToGame::Confirmation }];
    let (directives, status) = orch.handle_cut(&batch, &view);
    assert!(matches!(status, TickStatus::Running));
    assert_eq!(directives.len(), 1);
    match &directives[0] {
        Directive::Broadcast { message: GameToClient::InitialCutResult { name, card } } => {
            assert_eq!(name, "Alice");
            assert_eq!(*card, Card { rank: 7, suit: 1 });
        },
        _ => panic!("expected the cut announcement"),
    }
    assert_eq!(orch.client_interfaces[0].state, GciState::WaitingForServer);
}

#[test]
fn cut_message_from_inactive_player_is_an_error() {
    let mut orch = two_joined_players();
    let view = cut_view();
    orch.handle_cut(&Vec::new(), &view);
    // The cursor expects player 0; player 1 speaking is a sequencing
    // violation and changes nothing.
    let batch = vec![ClientMessage { index: 1, message: ClientToGame::Confirmation }];
    let (directives, status) = orch.handle_cut(&batch, &view);
    assert!(matches!(status, TickStatus::Running));
    assert!(matches!(
        directives[..],
        [Directive::Send { session: 1, message: GameToClient::Error(_) }]
    ));
    assert_eq!(orch.client_interfaces[0].state, GciState::WaitingForInitialCut);
    assert_eq!(orch.client_interfaces[1].state, GciState::WaitingForServer);
}

#[test]
fn non_confirmation_from_active_player_resolicits_the_cut() {
    let mut orch = two_joined_players();
    let view = cut_view();
    orch.handle_cut(&Vec::new(), &view);
    let batch = vec![ClientMessage { index: 0, message: ClientToGame::Name("Alice".to_string()) }];
    let (directives, status) = orch.handle_cut(&batch, &view);
    assert!(matches!(status, TickStatus::Running));
    assert!(matches!(
        directives[..],
        [Directive::Send { session: 0, message: GameToClient::WaitInitialCut }]
    ));
}

#[test]
fn tied_cut_restarts_a_full_round_at_cursor_zero() {
    // Scenario: both players confirm, the engine reports a tie; the
    // failure is broadcast to both and a fresh WaitInitialCut goes to
    // session 0.
    let mut orch = two_joined_players();
    let view = cut_view();

    // Round starts: cut performed, player 0 solicited.
    let (start, _) = orch.handle_cut(&Vec::new(), &view);
    assert_eq!(start.len(), 2);

    // Player 0 confirms; then the cursor advances to player 1.
    let batch = vec![ClientMessage { index: 0, message: ClientToGame::Confirmation }];
    orch.handle_cut(&batch, &view);
    let (advance, _) = orch.handle_cut(&Vec::new(), &view);
    assert!(matches!(
        advance[..],
        [Directive::Send { session: 1, message: GameToClient::WaitInitialCut }]
    ));

    // Player 1 confirms; the round completes on the next advance.
    let batch = vec![ClientMessage { index: 1, message: ClientToGame::Confirmation }];
    orch.handle_cut(&batch, &view);
    let (complete, _) = orch.handle_cut(&Vec::new(), &view);
    assert!(complete.is_empty());
    assert_eq!(
        orch.input_tracker,
        Some(OrderedInputTracker { index_active: 2, index_last: Some(1), index_stop: Some(1) })
    );

    // The engine still reports the cut phase: the round was a tie.  The
    // failure is broadcast and the tracker cleared.
    let (failure, status) = orch.handle_cut(&Vec::new(), &view);
    assert!(matches!(status, TickStatus::Running));
    assert!(matches!(
        failure[..],
        [Directive::Broadcast { message: GameToClient::InitialCutFailure }]
    ));
    assert_eq!(orch.input_tracker, None);

    // The next tick restarts a full round at cursor 0: a fresh cut is
    // performed and a fresh WaitInitialCut goes to session 0; no prior
    // cut result is reused.
    let (fresh, _) = orch.handle_cut(&Vec::new(), &view);
    assert_eq!(fresh.len(), 2);
    assert!(matches!(fresh[0], Directive::Submit { event: EngineEvent::Confirmation }));
    assert!(matches!(
        fresh[1],
        Directive::Send { session: 0, message: GameToClient::WaitInitialCut }
    ));
    assert_eq!(
        orch.input_tracker,
        Some(OrderedInputTracker { index_active: 0, index_last: None, index_stop: Some(1) })
    );
}
