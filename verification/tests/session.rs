//! The decisions of a match: aiming, firing, answering shots, chat, game over.

use battleship::game::{Board, Cell, GameState, Orientation, Phase, ShipKind, GRID_SIZE};
use battleship::keys::Key;
use battleship::protocol::{handshake_reply, line_payload, HandshakeError, Message};
use battleship::session::{
    after_placement, aim_shown, apply_shot_reply, forfeit_for_idleness, greeting, game_over_input, game_over_prompt,
    handle_message_during_my_turn, handle_opponent_message, idle_timed_out, my_turn_input,
    opening_phase, opponent_turn_input, outgoing_chat, plan_shot, ready_answer, rematch_agreed,
    rematch_answer, start_session, AimCursor, GameOverCommand, PlacedStep, ReadyStep, RematchStep, TurnCommand,
};

fn playing_state() -> GameState {
    let mut state = start_session("Alice".to_string(), "Bob".to_string());
    state
        .my_board
        .place_ship(ShipKind::Destroyer, 0, 0, Orientation::Horizontal)
        .unwrap();
    state.phase = Phase::OpponentTurn;
    state
}

#[test]
fn aim_cursor_stops_at_edges() {
    let mut aim = AimCursor::new();
    assert_eq!(aim.pos(), (0, 0));
    aim.move_up();
    aim.move_left();
    assert_eq!(aim.pos(), (0, 0));
    for _ in 0..20 {
        aim.move_right();
        aim.move_down();
    }
    assert_eq!(aim.pos(), (9, 9));
    aim.move_left();
    aim.move_up();
    assert_eq!(aim.pos(), (8, 8));
}

#[test]
fn my_turn_keys() {
    let mut aim = AimCursor::new();
    assert_eq!(my_turn_input(Key::Char('d'), &mut aim), TurnCommand::Stay);
    assert_eq!(my_turn_input(Key::Down, &mut aim), TurnCommand::Stay);
    assert_eq!(aim.pos(), (1, 1));
    assert_eq!(my_turn_input(Key::Char('A'), &mut aim), TurnCommand::Stay);
    assert_eq!(my_turn_input(Key::Char('w'), &mut aim), TurnCommand::Stay);
    assert_eq!(aim.pos(), (0, 0));
    assert_eq!(my_turn_input(Key::Enter, &mut aim), TurnCommand::Fire);
    assert_eq!(my_turn_input(Key::Char(' '), &mut aim), TurnCommand::Fire);
    assert_eq!(my_turn_input(Key::Char('T'), &mut aim), TurnCommand::Chat);
    assert_eq!(my_turn_input(Key::Esc, &mut aim), TurnCommand::Forfeit);
    assert_eq!(my_turn_input(Key::Char('x'), &mut aim), TurnCommand::Stay);
    assert_eq!(aim.pos(), (0, 0));
}

#[test]
fn opponent_turn_keys() {
    assert_eq!(opponent_turn_input(Key::Char('t')), TurnCommand::Chat);
    assert_eq!(opponent_turn_input(Key::Esc), TurnCommand::Forfeit);
    assert_eq!(opponent_turn_input(Key::Char('d')), TurnCommand::Stay);
    assert!(aim_shown(Phase::MyTurn));
    assert!(!aim_shown(Phase::OpponentTurn));
}

#[test]
fn plan_shot_refuses_a_cell_already_fired_at() {
    let mut state = playing_state();
    let mut aim = AimCursor::new();
    aim.move_right();
    aim.move_down();
    assert_eq!(plan_shot(&state, &aim), Ok(Message::Fire { x: 1, y: 1 }));
    state.tracking_board[1][1] = Cell::Miss;
    assert_eq!(
        plan_shot(&state, &aim),
        Err("Already fired there!".to_string())
    );
}

#[test]
fn shot_reply_hit_and_sunk() {
    let mut state = playing_state();
    state.phase = Phase::MyTurn;
    let out = apply_shot_reply(
        &mut state,
        Some(Message::FireResult { x: 3, y: 4, hit: true, sunk: Some(ShipKind::Destroyer) }),
    );
    assert_eq!(out.status, "HIT! You sunk their Destroyer!");
    assert_eq!(out.flash, Some((3, 4, true)));
    assert_eq!(out.send, None);
    assert_eq!(state.tracking_board[4][3], Cell::Hit);
    assert_eq!(state.phase, Phase::OpponentTurn);
}

#[test]
fn shot_reply_hit_and_miss_status() {
    let mut state = playing_state();
    let out = apply_shot_reply(
        &mut state,
        Some(Message::FireResult { x: 0, y: 9, hit: true, sunk: None }),
    );
    assert_eq!(out.status, "HIT!");
    let out = apply_shot_reply(
        &mut state,
        Some(Message::FireResult { x: 9, y: 0, hit: false, sunk: None }),
    );
    assert_eq!(out.status, "Miss.");
    assert_eq!(out.flash, Some((9, 0, false)));
    assert_eq!(state.tracking_board[0][9], Cell::Miss);
    assert_eq!(state.tracking_board[9][0], Cell::Hit);
}

#[test]
fn shot_reply_seventeenth_hit_wins() {
    let mut state = playing_state();
    let mut count = 0;
    'outer: for row in 0..GRID_SIZE {
        for col in 0..GRID_SIZE {
            if count >= 16 {
                break 'outer;
            }
            state.tracking_board[row][col] = Cell::Hit;
            count += 1;
        }
    }
    let out = apply_shot_reply(
        &mut state,
        Some(Message::FireResult { x: 9, y: 9, hit: true, sunk: Some(ShipKind::Carrier) }),
    );
    assert_eq!(state.phase, Phase::GameOver(true));
    assert_eq!(out.send, Some(Message::GameOver { winner: "Alice".to_string() }));
}

#[test]
fn shot_reply_disconnect_or_other() {
    let mut state = playing_state();
    let out = apply_shot_reply(&mut state, None);
    assert_eq!(out.status, "Opponent disconnected!");
    assert_eq!(state.phase, Phase::GameOver(true));

    let mut state = playing_state();
    let out = apply_shot_reply(&mut state, Some(Message::Disconnect));
    assert_eq!(state.phase, Phase::GameOver(true));
    assert_eq!(out.send, None);

    let mut state = playing_state();
    let out = apply_shot_reply(&mut state, Some(Message::Ready));
    assert_eq!(out.status, "Unexpected message from opponent.");
    assert_eq!(state.phase, Phase::OpponentTurn);
}

#[test]
fn opponent_fire_hit_and_miss() {
    let mut state = playing_state();
    let out = handle_opponent_message(&mut state, Some(Message::Fire { x: 0, y: 0 }));
    assert_eq!(
        out.send,
        Some(Message::FireResult { x: 0, y: 0, hit: true, sunk: None })
    );
    assert_eq!(out.status, Some("Opponent hit at A1!".to_string()));
    assert_eq!(out.flash, Some((0, 0, true)));
    assert_eq!(out.sunk_ship, None);
    assert_eq!(state.phase, Phase::MyTurn);
    assert_eq!(state.my_board.grid[0][0], Cell::Hit);

    state.phase = Phase::OpponentTurn;
    let out = handle_opponent_message(&mut state, Some(Message::Fire { x: 9, y: 9 }));
    assert_eq!(out.status, Some("Opponent missed at J10.".to_string()));
    assert_eq!(
        out.send,
        Some(Message::FireResult { x: 9, y: 9, hit: false, sunk: None })
    );
    assert_eq!(state.my_board.grid[9][9], Cell::Miss);
}

#[test]
fn opponent_sinks_last_ship() {
    let mut state = playing_state();
    handle_opponent_message(&mut state, Some(Message::Fire { x: 0, y: 0 }));
    let out = handle_opponent_message(&mut state, Some(Message::Fire { x: 1, y: 0 }));
    assert_eq!(
        out.send,
        Some(Message::FireResult { x: 1, y: 0, hit: true, sunk: Some(ShipKind::Destroyer) })
    );
    assert_eq!(
        out.status,
        Some("Opponent hit and sunk your Destroyer!".to_string())
    );
    assert_eq!(out.sunk_ship, Some(0));
    assert_eq!(state.phase, Phase::GameOver(false));
}

#[test]
fn opponent_messages_other_than_fire() {
    let mut state = playing_state();
    let out = handle_opponent_message(&mut state, Some(Message::Chat { text: "hi".to_string() }));
    assert_eq!(out.status, None);
    assert_eq!(state.chat_log, vec![("Bob".to_string(), "hi".to_string())]);
    assert_eq!(state.phase, Phase::OpponentTurn);

    handle_opponent_message(&mut state, None);
    assert_eq!(state.phase, Phase::OpponentTurn);

    let out = handle_opponent_message(&mut state, Some(Message::Disconnect));
    assert_eq!(out.status, Some("Opponent disconnected!".to_string()));
    assert_eq!(state.phase, Phase::GameOver(true));

    let mut state = playing_state();
    handle_opponent_message(&mut state, Some(Message::GameOver { winner: "Bob".to_string() }));
    assert_eq!(state.phase, Phase::GameOver(false));
}

#[test]
fn chat_during_my_turn() {
    let mut state = playing_state();
    handle_message_during_my_turn(&mut state, Some(Message::Fire { x: 0, y: 0 }));
    assert!(state.chat_log.is_empty());
    assert_eq!(state.my_board.grid[0][0], Cell::Ship(ShipKind::Destroyer));
    handle_message_during_my_turn(&mut state, Some(Message::Chat { text: "gg".to_string() }));
    assert_eq!(state.chat_log[0], ("Bob".to_string(), "gg".to_string()));
    assert_eq!(outgoing_chat(String::new()), None);
    assert_eq!(
        outgoing_chat("hello".to_string()),
        Some(Message::Chat { text: "hello".to_string() })
    );
}

#[test]
fn idle_timeout_only_on_my_turn() {
    assert!(idle_timed_out(Phase::MyTurn, 120));
    assert!(!idle_timed_out(Phase::MyTurn, 119));
    assert!(!idle_timed_out(Phase::OpponentTurn, 500));
    let mut state = playing_state();
    let (status, message) = forfeit_for_idleness(&mut state);
    assert_eq!(status, "Idle timeout \u{2014} auto-forfeit!");
    assert_eq!(message, Message::Disconnect);
    assert_eq!(state.phase, Phase::GameOver(false));
}

#[test]
fn session_opens_with_hello_and_ready_follows_placement() {
    assert_eq!(greeting("Alice".to_string()), Message::Hello { name: "Alice".to_string() });
    let done = after_placement(true);
    assert_eq!(done, PlacedStep::SendReady);
    assert_eq!(done.message(), Message::Ready);
    assert!(!done.leaves());
    let cancelled = after_placement(false);
    assert_eq!(cancelled, PlacedStep::SendDisconnectAndLeave);
    assert_eq!(cancelled.message(), Message::Disconnect);
    assert!(cancelled.leaves());
}

#[test]
fn game_over_and_rematch() {
    assert_eq!(
        game_over_prompt(Phase::GameOver(true)),
        "VICTORY! Press R for rematch, Esc to quit."
    );
    assert_eq!(
        game_over_prompt(Phase::GameOver(false)),
        "DEFEAT. Press R for rematch, Esc to quit."
    );
    assert_eq!(game_over_prompt(Phase::MyTurn), "Game over. Press Esc to quit.");
    assert_eq!(game_over_input(Key::Char('R')), GameOverCommand::Rematch);
    assert_eq!(game_over_input(Key::Esc), GameOverCommand::Quit);
    assert_eq!(game_over_input(Key::Enter), GameOverCommand::Wait);

    let mut state = playing_state();
    state.tracking_board[2][2] = Cell::Hit;
    state.phase = Phase::GameOver(true);
    assert_eq!(rematch_answer(&mut state, Some(Message::Ready)), RematchStep::Wait);
    assert_eq!(state.phase, Phase::GameOver(true));
    assert_eq!(rematch_answer(&mut state, None), RematchStep::Leave);
    assert_eq!(rematch_answer(&mut state, Some(Message::Rematch)), RematchStep::Restart);
    assert_eq!(state.phase, Phase::Placing);
    assert!(state.my_board.ships.is_empty());
    assert_eq!(state.tracking_board[2][2], Cell::Empty);
    assert_eq!(state.opponent_name, "Bob");
    assert!(rematch_agreed(state.phase));
}

#[test]
fn session_start_and_ready() {
    let state = start_session("Alice".to_string(), "Bob".to_string());
    assert_eq!(state.phase, Phase::Placing);
    assert_eq!(state.my_name, "Alice");
    assert_eq!(state.opponent_name, "Bob");
    assert_eq!(opening_phase(true), Phase::MyTurn);
    assert_eq!(opening_phase(false), Phase::OpponentTurn);
    assert_eq!(ready_answer(Some(Message::Ready)), ReadyStep::Start);
    assert_eq!(ready_answer(Some(Message::Disconnect)), ReadyStep::Leave);
    assert_eq!(ready_answer(None), ReadyStep::Leave);
    assert_eq!(ready_answer(Some(Message::Rematch)), ReadyStep::Ignore);
    assert!(!rematch_agreed(Phase::GameOver(true)));
}

#[test]
fn handshake_outcomes() {
    assert_eq!(
        handshake_reply(Some(Message::Hello { name: "HostPlayer".to_string() })),
        Ok("HostPlayer".to_string())
    );
    assert_eq!(
        handshake_reply(Some(Message::Ready)),
        Err(HandshakeError::UnexpectedMessage)
    );
    assert_eq!(handshake_reply(None), Err(HandshakeError::PeerDisconnected));
    assert_eq!(
        HandshakeError::UnexpectedMessage.message(),
        "Expected Hello message during handshake"
    );
    assert_eq!(
        HandshakeError::PeerDisconnected.message(),
        "Peer disconnected during handshake"
    );
}

#[test]
fn line_payload_trims_and_detects_eof() {
    assert_eq!(line_payload(0, ""), None);
    assert_eq!(line_payload(8, "  \"Ready\"\n"), Some("\"Ready\""));
}

#[test]
fn fresh_board_is_empty() {
    let board = Board::new();
    for row in 0..GRID_SIZE {
        for col in 0..GRID_SIZE {
            assert_eq!(board.grid[row][col], Cell::Empty);
        }
    }
}
