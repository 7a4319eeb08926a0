use std::sync::mpsc;
use std::sync::mpsc::{Receiver, Sender};

use cribbage_server::engine::{EnginePhase, EngineEvent, EngineView, PlayerView};
use cribbage_server::game::{ClientMessage, Directive, InputStore, Orchestrator, TickStatus};
use cribbage_server::messages::{ClientToGame, GameToClient};
use cribbage_server::session::GciState;

fn new_orchestrator(num_players: u8) -> Orchestrator {
    Orchestrator::new(num_players, false, false, false, false)
}

fn attach_session(orch: &mut Orchestrator) -> (Sender<ClientToGame>, Receiver<GameToClient>) {
    let (outbound_tx, outbound_rx) = mpsc::channel::<GameToClient>();
    let (inbound_tx, inbound_rx) = mpsc::channel::<ClientToGame>();
    orch.register_session(outbound_tx, inbound_rx);
    (inbound_tx, outbound_rx)
}

fn greet(orch: &mut Orchestrator, pos: usize) -> Vec<Directive> {
    orch.on_greeting(pos, &EnginePhase::GameStart)
}

#[test]
fn admits_exactly_configured_player_count() {
    let mut orch = new_orchestrator(2);
    for _ in 0..3 {
        attach_session(&mut orch);
    }
    let first = greet(&mut orch, 0);
    assert!(matches!(
        first[..],
        [Directive::Send { session: 0, message: GameToClient::WaitName }]
    ));
    let second = greet(&mut orch, 1);
    assert!(matches!(
        second[..],
        [Directive::Send { session: 1, message: GameToClient::WaitName }]
    ));
    // The table is full: every later Greeting is denied.
    let third = greet(&mut orch, 2);
    assert!(matches!(
        third[..],
        [Directive::Send { session: 2, message: GameToClient::DeniedTableFull }]
    ));
    assert_eq!(orch.num_connected_players, 2);
    assert_eq!(orch.client_interfaces[0].index, Some(0));
    assert_eq!(orch.client_interfaces[1].index, Some(1));
    assert_eq!(orch.client_interfaces[2].index, None);
    assert_eq!(orch.client_interfaces[2].state, GciState::Watching);
}

#[test]
fn greeting_outside_setup_is_denied() {
    let mut orch = new_orchestrator(2);
    attach_session(&mut orch);
    let directives = orch.on_greeting(0, &EnginePhase::CutInitial);
    assert!(matches!(
        directives[..],
        [Directive::Send { session: 0, message: GameToClient::DeniedTableFull }]
    ));
    assert_eq!(orch.client_interfaces[0].index, None);
    assert_eq!(orch.client_interfaces[0].state, GciState::Watching);
}

#[test]
fn repeated_greeting_is_ignored() {
    let mut orch = new_orchestrator(2);
    attach_session(&mut orch);
    greet(&mut orch, 0);
    let again = greet(&mut orch, 0);
    assert!(again.is_empty());
    assert_eq!(orch.num_connected_players, 1);
    assert_eq!(orch.client_interfaces[0].index, Some(0));
}

#[test]
fn name_is_recorded_and_announced() {
    let mut orch = new_orchestrator(2);
    attach_session(&mut orch);
    attach_session(&mut orch);
    greet(&mut orch, 0);
    greet(&mut orch, 1);
    let batch = vec![ClientMessage { index: 0, message: ClientToGame::Name("Alice".to_string()) }];
    let (directives, status) = orch.handle_setup(&batch);
    assert!(matches!(status, TickStatus::Running));
    assert_eq!(directives.len(), 1);
    match &directives[0] {
        Directive::Broadcast {
            message: GameToClient::PlayerJoinNotification { name, number, of },
        } => {
            assert_eq!(name, "Alice");
            assert_eq!(*number, 1);
            assert_eq!(*of, 2);
        },
        _ => panic!("expected a join notification broadcast"),
    }
    assert_eq!(orch.client_interfaces[0].state, GciState::WaitingForServer);
    match &orch.input_store {
        InputStore::Names(names) => {
            assert_eq!(names[0], "Alice");
            assert_eq!(names[1], "");
        },
        _ => panic!("expected collected names"),
    }
}

#[test]
fn second_name_from_waiting_session_is_an_error() {
    let mut orch = new_orchestrator(2);
    attach_session(&mut orch);
    attach_session(&mut orch);
    greet(&mut orch, 0);
    greet(&mut orch, 1);
    let batch = vec![ClientMessage { index: 0, message: ClientToGame::Name("Alice".to_string()) }];
    orch.handle_setup(&batch);
    // A second Name from the synchronized-wait session: an Error reply,
    // never a state change.
    let again = vec![ClientMessage { index: 0, message: ClientToGame::Name("Mallory".to_string()) }];
    let (directives, status) = orch.handle_setup(&again);
    assert!(matches!(status, TickStatus::Running));
    assert!(matches!(
        directives[..],
        [Directive::Send { session: 0, message: GameToClient::Error(_) }]
    ));
    assert_eq!(orch.client_interfaces[0].state, GciState::WaitingForServer);
    match &orch.input_store {
        InputStore::Names(names) => assert_eq!(names[0], "Alice"),
        _ => panic!("expected collected names"),
    }
}

#[test]
fn non_name_while_name_is_solicited_resolicits() {
    let mut orch = new_orchestrator(2);
    attach_session(&mut orch);
    greet(&mut orch, 0);
    let batch = vec![ClientMessage { index: 0, message: ClientToGame::Confirmation }];
    let (directives, status) = orch.handle_setup(&batch);
    assert!(matches!(status, TickStatus::Running));
    assert!(matches!(
        directives[..],
        [Directive::Send { session: 0, message: GameToClient::WaitName }]
    ));
    assert_eq!(orch.client_interfaces[0].state, GciState::WaitingName);
}

#[test]
fn two_player_setup_scenario() {
    // Scenario: sessions send Greeting then their names; two join
    // notifications go out and the first cut is solicited from session 0
    // only.
    let mut orch = new_orchestrator(2);
    attach_session(&mut orch);
    attach_session(&mut orch);
    greet(&mut orch, 0);
    greet(&mut orch, 1);
    let batch = vec![
        ClientMessage { index: 0, message: ClientToGame::Name("Alice".to_string()) },
        ClientMessage { index: 1, message: ClientToGame::Name("Bob".to_string()) },
    ];
    let (directives, _) = orch.handle_setup(&batch);
    assert_eq!(directives.len(), 2);
    match &directives[0] {
        Directive::Broadcast {
            message: GameToClient::PlayerJoinNotification { name, number, of },
        } => {
            assert_eq!(name, "Alice");
            assert_eq!((*number, *of), (1, 2));
        },
        _ => panic!("expected a join notification broadcast"),
    }
    match &directives[1] {
        Directive::Broadcast {
            message: GameToClient::PlayerJoinNotification { name, number, of },
        } => {
            assert_eq!(name, "Bob");
            assert_eq!((*number, *of), (2, 2));
        },
        _ => panic!("expected a join notification broadcast"),
    }
    // Everyone is in synchronized-wait: setup is submitted with both names.
    let (submit, status) = orch.handle_setup(&Vec::new());
    assert!(matches!(status, TickStatus::Running));
    assert_eq!(submit.len(), 1);
    match &submit[0] {
        Directive::Submit {
            event:
                EngineEvent::Setup {
                    player_names,
                    manual_scoring,
                    underpegging,
                    muggins,
                    overpegging,
                },
        } => {
            assert_eq!(player_names[..], ["Alice".to_string(), "Bob".to_string()]);
            assert!(!manual_scoring && !underpegging && !muggins && !overpegging);
        },
        _ => panic!("expected the setup submission"),
    }
    // The engine is now in the cut phase: one cut round starts and
    // WaitInitialCut goes to session 0 only.
    let view = EngineView {
        phase: EnginePhase::CutInitial,
        players: vec![
            PlayerView { username: "Alice".to_string(), hand: Vec::new() },
            PlayerView { username: "Bob".to_string(), hand: Vec::new() },
        ],
        index_dealer: 0,
    };
    let (cut, status) = orch.handle_cut(&Vec::new(), &view);
    assert!(matches!(status, TickStatus::Running));
    assert_eq!(cut.len(), 2);
    assert!(matches!(cut[0], Directive::Submit { event: EngineEvent::Confirmation }));
    assert!(matches!(
        cut[1],
        Directive::Send { session: 0, message: GameToClient::WaitInitialCut }
    ));
    assert_eq!(orch.client_interfaces[0].state, GciState::WaitingForInitialCut);
    assert_eq!(orch.client_interfaces[1].state, GciState::WaitingForServer);
}
