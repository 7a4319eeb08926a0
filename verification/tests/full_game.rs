use std::sync::mpsc;
use std::sync::mpsc::{Receiver, Sender};

use cribbage_server::deliver::deliver_directive;
use cribbage_server::engine::{EnginePhase, EngineEvent, EngineView, PlayerView};
use cribbage_server::game::{Directive, Orchestrator, TickStatus};
use cribbage_server::messages::{Card, ClientToGame, GameToClient};

struct Remote {
    inbound: Sender<ClientToGame>,
    outbound: Receiver<GameToClient>,
    transcript: Vec<GameToClient>,
}

fn attach(orch: &mut Orchestrator) -> Remote {
    let (outbound_tx, outbound_rx) = mpsc::channel::<GameToClient>();
    let (inbound_tx, inbound_rx) = mpsc::channel::<ClientToGame>();
    orch.register_session(outbound_tx, inbound_rx);
    Remote { inbound: inbound_tx, outbound: outbound_rx, transcript: Vec::new() }
}

/// Executes the non-submission directives as the orchestrator loop
/// would: each recipient acknowledges every message, in lock step.
/// Returns the engine events submitted, in order.
fn execute(
    orch: &mut Orchestrator,
    directives: Vec<Directive>,
    view: &EngineView,
    remotes: &mut [Remote],
) -> Vec<EngineEvent> {
    let mut submitted = Vec::new();
    for directive in directives {
        match directive {
            Directive::Submit { event } => submitted.push(event),
            other => {
                match &other {
                    Directive::Send { session, .. } => {
                        remotes[*session].inbound.send(ClientToGame::Acknowledgment).unwrap();
                    },
                    Directive::Broadcast { .. } => {
                        for remote in remotes.iter() {
                            remote.inbound.send(ClientToGame::Acknowledgment).unwrap();
                        }
                    },
                    Directive::BroadcastHands => {
                        for (pos, remote) in remotes.iter().enumerate() {
                            if orch.client_interfaces[pos].index.is_some() {
                                remote.inbound.send(ClientToGame::Acknowledgment).unwrap();
                            }
                        }
                    },
                    Directive::Submit { .. } => unreachable!(),
                }
                assert!(deliver_directive(other, &mut orch.client_interfaces, view));
                for remote in remotes.iter_mut() {
                    while let Ok(message) = remote.outbound.try_recv() {
                        remote.transcript.push(message);
                    }
                }
            },
        }
    }
    submitted
}

fn tick(
    orch: &mut Orchestrator,
    view: &EngineView,
    remotes: &mut [Remote],
) -> (Vec<EngineEvent>, TickStatus) {
    let (batch, immediate) = orch.drain_sessions(&view.phase);
    let mut submitted = execute(orch, immediate, view, remotes);
    let (directives, status) = orch.dispatch(&batch, view);
    submitted.extend(execute(orch, directives, view, remotes));
    (submitted, status)
}

fn view(phase: EnginePhase, dealer: u8) -> EngineView {
    EngineView {
        phase,
        players: vec![
            PlayerView {
                username: "Alice".to_string(),
                hand: vec![
                    Card { rank: 1, suit: 0 },
                    Card { rank: 2, suit: 0 },
                    Card { rank: 3, suit: 0 },
                    Card { rank: 4, suit: 0 },
                    Card { rank: 5, suit: 0 },
                    Card { rank: 6, suit: 0 },
                ],
            },
            PlayerView {
                username: "Bob".to_string(),
                hand: vec![
                    Card { rank: 1, suit: 1 },
                    Card { rank: 2, suit: 1 },
                    Card { rank: 3, suit: 1 },
                    Card { rank: 4, suit: 1 },
                    Card { rank: 5, suit: 1 },
                    Card { rank: 6, suit: 1 },
                ],
            },
        ],
        index_dealer: dealer,
    }
}

#[test]
fn two_player_game_reaches_the_discard_submission() {
    let mut orch = Orchestrator::new(2, false, false, false, false);
    let mut remotes = vec![attach(&mut orch), attach(&mut orch)];

    // Both sessions greet; each is admitted and asked for a name.
    let setup_view = view(EnginePhase::GameStart, 0);
    remotes[0].inbound.send(ClientToGame::Greeting).unwrap();
    remotes[1].inbound.send(ClientToGame::Greeting).unwrap();
    let (submitted, status) = tick(&mut orch, &setup_view, &mut remotes);
    assert!(submitted.is_empty());
    assert!(matches!(status, TickStatus::Running));
    assert!(matches!(remotes[0].transcript[..], [GameToClient::WaitName]));
    assert!(matches!(remotes[1].transcript[..], [GameToClient::WaitName]));

    // Names arrive; both joins are announced to both sessions.
    remotes[0].inbound.send(ClientToGame::Name("Alice".to_string())).unwrap();
    remotes[1].inbound.send(ClientToGame::Name("Bob".to_string())).unwrap();
    let (submitted, _) = tick(&mut orch, &setup_view, &mut remotes);
    assert!(submitted.is_empty());
    for remote in &remotes {
        assert!(matches!(
            &remote.transcript[1],
            GameToClient::PlayerJoinNotification { name, number: 1, of: 2 } if name == "Alice"
        ));
        assert!(matches!(
            &remote.transcript[2],
            GameToClient::PlayerJoinNotification { name, number: 2, of: 2 } if name == "Bob"
        ));
    }

    // Setup is satisfied: the names and toggles go to the engine.
    let (submitted, _) = tick(&mut orch, &setup_view, &mut remotes);
    assert_eq!(submitted.len(), 1);
    assert!(matches!(
        &submitted[0],
        EngineEvent::Setup { player_names, .. } if player_names[..] == ["Alice".to_string(), "Bob".to_string()]
    ));

    // The engine cut; a round of cut confirmations starts at player 0.
    let cut_view = view(EnginePhase::CutInitial, 0);
    let (submitted, _) = tick(&mut orch, &cut_view, &mut remotes);
    assert!(matches!(submitted[..], [EngineEvent::Confirmation]));
    assert!(matches!(remotes[0].transcript.last(), Some(GameToClient::WaitInitialCut)));

    // Player 0 confirms; the revealed cut is broadcast; the cursor then
    // advances to player 1, who confirms in turn.
    remotes[0].inbound.send(ClientToGame::Confirmation).unwrap();
    tick(&mut orch, &cut_view, &mut remotes);
    for remote in &remotes {
        assert!(matches!(
            remote.transcript.last(),
            Some(GameToClient::InitialCutResult { name, .. }) if name == "Alice"
        ));
    }
    tick(&mut orch, &cut_view, &mut remotes);
    assert!(matches!(remotes[1].transcript.last(), Some(GameToClient::WaitInitialCut)));
    remotes[1].inbound.send(ClientToGame::Confirmation).unwrap();
    tick(&mut orch, &cut_view, &mut remotes);
    let (submitted, _) = tick(&mut orch, &cut_view, &mut remotes);
    assert!(submitted.is_empty());

    // The cut chose dealer Bob: announced, and the deal solicited.
    let deal_view = view(EnginePhase::Deal, 1);
    tick(&mut orch, &deal_view, &mut remotes);
    assert!(matches!(
        remotes[0].transcript.last(),
        Some(GameToClient::InitialCutSuccess(name)) if name == "Bob"
    ));
    assert!(matches!(remotes[1].transcript.last(), Some(GameToClient::WaitDeal)));

    // The dealer confirms: deal and sort are submitted, both hands are
    // reported twice, and both players are asked for two discards.
    remotes[1].inbound.send(ClientToGame::Confirmation).unwrap();
    let (submitted, _) = tick(&mut orch, &deal_view, &mut remotes);
    assert!(matches!(
        submitted[..],
        [EngineEvent::Confirmation, EngineEvent::Confirmation]
    ));
    let alice_tail = &remotes[0].transcript[remotes[0].transcript.len() - 3..];
    assert!(matches!(&alice_tail[0], GameToClient::DealtHand(hand) if hand.len() == 6));
    assert!(matches!(&alice_tail[1], GameToClient::DealtHand(hand) if hand.len() == 6));
    assert!(matches!(alice_tail[2], GameToClient::WaitDiscardTwo));
    assert!(matches!(remotes[1].transcript.last(), Some(GameToClient::WaitDiscardTwo)));

    // Both players discard; each placement is announced; once both are
    // in synchronized-wait the single DiscardSelection event carries the
    // exact cards, and completion is broadcast.
    let discard_view = view(EnginePhase::Discard, 1);
    remotes[0].inbound.send(ClientToGame::DiscardTwo { index_one: 0, index_two: 1 }).unwrap();
    remotes[1].inbound.send(ClientToGame::DiscardTwo { index_one: 2, index_two: 3 }).unwrap();
    let (submitted, _) = tick(&mut orch, &discard_view, &mut remotes);
    assert!(submitted.is_empty());
    let (submitted, status) = tick(&mut orch, &discard_view, &mut remotes);
    assert!(matches!(status, TickStatus::Running));
    assert_eq!(submitted.len(), 1);
    match &submitted[0] {
        EngineEvent::DiscardSelection(discards) => {
            assert_eq!(
                discards[0],
                vec![Card { rank: 1, suit: 0 }, Card { rank: 2, suit: 0 }]
            );
            assert_eq!(
                discards[1],
                vec![Card { rank: 3, suit: 1 }, Card { rank: 4, suit: 1 }]
            );
        },
        _ => panic!("expected the discard submission"),
    }
    for remote in &remotes {
        assert!(matches!(remote.transcript.last(), Some(GameToClient::AllDiscards)));
    }

    // The match ends: the terminal phase winds the server down.
    let end_view = view(EnginePhase::End, 1);
    let (_, status) = tick(&mut orch, &end_view, &mut remotes);
    assert!(matches!(status, TickStatus::ServerEnding));
}
