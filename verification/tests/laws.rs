//! Concrete instances of the properties proved in `battleship::laws`.

use battleship::game::{Board, Cell, GameState, Orientation, Phase, ShipKind, GRID_SIZE};
use battleship::placement::{auto_place_remaining, PlacementState};
use battleship::protocol::Message;
use battleship::session::{apply_shot_reply, handle_opponent_message, start_session};
use battleship::ui::{own_cell_style, tracking_cell_style};

#[test]
fn second_shot_at_a_cell_changes_nothing() {
    let mut board = Board::new();
    board.place_ship(ShipKind::Cruiser, 2, 2, Orientation::Vertical).unwrap();
    assert_eq!(board.receive_fire(2, 3), (true, None));
    let before = board.grid;
    let hits: Vec<u8> = board.ships.iter().map(|s| s.hits).collect();
    assert_eq!(board.receive_fire(2, 3), (false, None));
    assert_eq!(board.grid, before);
    assert_eq!(board.ships.iter().map(|s| s.hits).collect::<Vec<u8>>(), hits);
    assert_eq!(board.receive_fire(7, 7), (false, None));
    assert_eq!(board.receive_fire(7, 7), (false, None));
    assert_eq!(board.grid[7][7], Cell::Miss);
}

#[test]
fn all_sunk_exactly_when_no_ship_cell_remains() {
    let mut board = Board::new();
    board.place_ship(ShipKind::Destroyer, 5, 5, Orientation::Horizontal).unwrap();
    board.place_ship(ShipKind::Submarine, 0, 9, Orientation::Horizontal).unwrap();
    let targets = [(5, 5), (6, 5), (0, 9), (1, 9), (2, 9)];
    for &(x, y) in &targets {
        let ship_cells_left = board
            .grid
            .iter()
            .flatten()
            .filter(|c| matches!(c, Cell::Ship(_)))
            .count();
        assert_eq!(board.all_sunk(), ship_cells_left == 0);
        board.receive_fire(x, y);
    }
    assert!(board.all_sunk());
    assert!(board.grid.iter().flatten().all(|c| !matches!(c, Cell::Ship(_))));
}

#[test]
fn sinking_shot_reports_the_kind() {
    let mut board = Board::new();
    board.place_ship(ShipKind::Battleship, 0, 0, Orientation::Vertical).unwrap();
    assert_eq!(board.receive_fire(0, 3), (true, None));
    assert_eq!(board.receive_fire(0, 0), (true, None));
    assert_eq!(board.receive_fire(0, 2), (true, None));
    assert_eq!(board.receive_fire(0, 1), (true, Some(ShipKind::Battleship)));
    assert!(board.ships[0].is_sunk());
}

#[test]
fn answer_matches_target_board() {
    let mut board = Board::new();
    board.place_ship(ShipKind::Carrier, 0, 0, Orientation::Horizontal).unwrap();
    let (hit, _) = board.receive_fire(4, 0);
    assert!(hit);
    assert_eq!(board.grid[0][4], Cell::Hit);
    let (hit, _) = board.receive_fire(5, 0);
    assert!(!hit);
    assert_eq!(board.grid[0][5], Cell::Miss);
}

#[test]
fn fleet_covers_seventeen_cells() {
    let total: usize = ShipKind::all().iter().map(|k| k.size()).sum();
    assert_eq!(total, 17);
    let mut state = GameState::new("Alice".to_string());
    let mut count = 0;
    for row in 0..GRID_SIZE {
        for col in 0..GRID_SIZE {
            if count < 16 {
                state.tracking_board[row][col] = Cell::Hit;
                count += 1;
            }
        }
    }
    assert!(!state.has_won());
    state.tracking_board[9][9] = Cell::Hit;
    assert!(state.has_won());
}

#[test]
fn chat_log_keeps_the_latest_five() {
    let mut state = GameState::new("Alice".to_string());
    for i in 0..12 {
        state.push_chat("Bob".to_string(), format!("m{}", i));
        assert!(state.chat_log.len() <= 5);
        assert_eq!(state.chat_log.last().unwrap().1, format!("m{}", i));
    }
    let texts: Vec<&str> = state.chat_log.iter().map(|e| e.1.as_str()).collect();
    assert_eq!(texts, vec!["m7", "m8", "m9", "m10", "m11"]);
}

#[test]
fn tracking_board_never_shows_ships() {
    for kind in ShipKind::all() {
        assert_eq!(tracking_cell_style(Cell::Ship(kind)), tracking_cell_style(Cell::Empty));
        assert_ne!(own_cell_style(Cell::Ship(kind)), own_cell_style(Cell::Empty));
    }
    assert_eq!(Orientation::Horizontal.toggle().toggle(), Orientation::Horizontal);
    assert_eq!(Orientation::Vertical.toggle().toggle(), Orientation::Vertical);
}

#[test]
fn placement_rejects_off_grid_origins() {
    let mut board = Board::new();
    assert_eq!(
        board.place_ship(ShipKind::Destroyer, 255, 0, Orientation::Horizontal),
        Err("Ship placement is out of bounds")
    );
    assert_eq!(
        board.place_ship(ShipKind::Destroyer, 0, 10, Orientation::Horizontal),
        Err("Ship placement is out of bounds")
    );
    assert_eq!(
        board.place_ship(ShipKind::Destroyer, 8, 8, Orientation::Vertical),
        Ok(())
    );
    assert!(board.ships.len() == 1);
}

#[test]
fn victory_exactly_when_fleet_sunk() {
    let mut attacker = start_session("Alice".to_string(), "Bob".to_string());
    let mut defender = start_session("Bob".to_string(), "Alice".to_string());
    let mut placement = PlacementState::new();
    while !auto_place_remaining(&mut defender.my_board, &mut placement) {}
    assert_eq!(defender.my_board.ships.len(), 5);

    for y in 0..GRID_SIZE as u8 {
        for x in 0..GRID_SIZE as u8 {
            attacker.phase = Phase::MyTurn;
            defender.phase = Phase::OpponentTurn;
            let answer = handle_opponent_message(&mut defender, Some(Message::Fire { x, y }));
            let shot = apply_shot_reply(&mut attacker, answer.send);
            let sunk = defender.my_board.all_sunk();
            assert_eq!(attacker.has_won(), sunk);
            assert_eq!(attacker.phase == Phase::GameOver(true), sunk);
            assert_eq!(defender.phase == Phase::GameOver(false), sunk);
            if sunk {
                assert_eq!(
                    shot.send,
                    Some(Message::GameOver { winner: "Alice".to_string() })
                );
                return;
            }
        }
    }
    panic!("the fleet was never sunk");
}
