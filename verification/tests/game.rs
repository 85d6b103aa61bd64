//! Board, ship and game-state behaviour.

use battleship::game::{Board, Cell, GameState, Orientation, Phase, ShipKind, GRID_SIZE};

// -- Ship placement tests -----------------------------------------------

#[test]
fn place_ship_horizontal_success() {
    let mut board = Board::new();
    // Place a Carrier (size 5) at (0,0) horizontally
    assert!(board
        .place_ship(ShipKind::Carrier, 0, 0, Orientation::Horizontal)
        .is_ok());

    // Verify grid cells are marked
    for col in 0..5 {
        assert_eq!(board.grid[0][col], Cell::Ship(ShipKind::Carrier));
    }
    // Cell just past the ship should still be empty
    assert_eq!(board.grid[0][5], Cell::Empty);
}

#[test]
fn place_ship_vertical_success() {
    let mut board = Board::new();
    // Place a Destroyer (size 2) at (3,7) vertically → occupies (3,7) and (3,8)
    assert!(board
        .place_ship(ShipKind::Destroyer, 3, 7, Orientation::Vertical)
        .is_ok());

    assert_eq!(board.grid[7][3], Cell::Ship(ShipKind::Destroyer));
    assert_eq!(board.grid[8][3], Cell::Ship(ShipKind::Destroyer));
}

#[test]
fn place_ship_out_of_bounds_horizontal() {
    let mut board = Board::new();
    // Carrier (size 5) at col 7 → would need cols 7,8,9,10,11 — out of bounds
    let result = board.place_ship(ShipKind::Carrier, 7, 0, Orientation::Horizontal);
    assert!(result.is_err());
    assert_eq!(result.unwrap_err(), "Ship placement is out of bounds");
}

#[test]
fn place_ship_out_of_bounds_vertical() {
    let mut board = Board::new();
    // Cruiser (size 3) at row 9 → would need rows 9,10,11 — out of bounds
    let result = board.place_ship(ShipKind::Cruiser, 0, 9, Orientation::Vertical);
    assert!(result.is_err());
}

#[test]
fn place_ship_overlap_rejected() {
    let mut board = Board::new();
    // Place Battleship at (0,0) horizontally → cols 0..4
    board
        .place_ship(ShipKind::Battleship, 0, 0, Orientation::Horizontal)
        .unwrap();

    // Try to place Destroyer at (2,0) vertically → overlaps at (2,0)
    let result = board.place_ship(ShipKind::Destroyer, 2, 0, Orientation::Vertical);
    assert!(result.is_err());
    assert_eq!(result.unwrap_err(), "Ship overlaps with an existing ship");
}

#[test]
fn place_all_five_ships() {
    let mut board = Board::new();
    // Place all 5 ships without overlapping
    board
        .place_ship(ShipKind::Carrier, 0, 0, Orientation::Horizontal)
        .unwrap();
    board
        .place_ship(ShipKind::Battleship, 0, 2, Orientation::Horizontal)
        .unwrap();
    board
        .place_ship(ShipKind::Cruiser, 0, 4, Orientation::Horizontal)
        .unwrap();
    board
        .place_ship(ShipKind::Submarine, 0, 6, Orientation::Horizontal)
        .unwrap();
    board
        .place_ship(ShipKind::Destroyer, 0, 8, Orientation::Horizontal)
        .unwrap();

    assert_eq!(board.ships.len(), 5);
}

// -- Firing tests -------------------------------------------------------

#[test]
fn fire_miss() {
    let mut board = Board::new();
    board
        .place_ship(ShipKind::Destroyer, 0, 0, Orientation::Horizontal)
        .unwrap();

    // Fire at an empty cell
    let (hit, sunk) = board.receive_fire(5, 5);
    assert!(!hit);
    assert!(sunk.is_none());
    assert_eq!(board.grid[5][5], Cell::Miss);
}

#[test]
fn fire_hit_no_sink() {
    let mut board = Board::new();
    board
        .place_ship(ShipKind::Destroyer, 0, 0, Orientation::Horizontal)
        .unwrap();

    // Hit the first cell of the destroyer
    let (hit, sunk) = board.receive_fire(0, 0);
    assert!(hit);
    assert!(sunk.is_none()); // needs 2 hits to sink
    assert_eq!(board.grid[0][0], Cell::Hit);
}

#[test]
fn fire_hit_and_sink() {
    let mut board = Board::new();
    board
        .place_ship(ShipKind::Destroyer, 0, 0, Orientation::Horizontal)
        .unwrap();

    // Hit both cells → should sink
    board.receive_fire(0, 0);
    let (hit, sunk) = board.receive_fire(1, 0);
    assert!(hit);
    assert_eq!(sunk, Some(ShipKind::Destroyer));
}

#[test]
fn fire_at_already_hit_cell() {
    let mut board = Board::new();
    board
        .place_ship(ShipKind::Destroyer, 0, 0, Orientation::Horizontal)
        .unwrap();

    board.receive_fire(0, 0); // first hit
    let (hit, sunk) = board.receive_fire(0, 0); // same cell again
    assert!(!hit); // treated as miss, no double-counting
    assert!(sunk.is_none());
}

// -- all_sunk tests -----------------------------------------------------

#[test]
fn all_sunk_false_initially() {
    let mut board = Board::new();
    board
        .place_ship(ShipKind::Destroyer, 0, 0, Orientation::Horizontal)
        .unwrap();
    assert!(!board.all_sunk());
}

#[test]
fn all_sunk_true_when_everything_destroyed() {
    let mut board = Board::new();
    // Place two ships
    board
        .place_ship(ShipKind::Destroyer, 0, 0, Orientation::Horizontal)
        .unwrap();
    board
        .place_ship(ShipKind::Submarine, 0, 2, Orientation::Horizontal)
        .unwrap();

    // Sink the Destroyer (size 2)
    board.receive_fire(0, 0);
    board.receive_fire(1, 0);
    assert!(!board.all_sunk()); // Submarine still alive

    // Sink the Submarine (size 3)
    board.receive_fire(0, 2);
    board.receive_fire(1, 2);
    board.receive_fire(2, 2);
    assert!(board.all_sunk());
}

#[test]
fn all_sunk_empty_board_is_vacuously_true() {
    let board = Board::new();
    // No ships → all (zero) ships are sunk
    assert!(board.all_sunk());
}

// -- ShipKind helper tests ----------------------------------------------

#[test]
fn ship_kind_sizes() {
    assert_eq!(ShipKind::Carrier.size(), 5);
    assert_eq!(ShipKind::Battleship.size(), 4);
    assert_eq!(ShipKind::Cruiser.size(), 3);
    assert_eq!(ShipKind::Submarine.size(), 3);
    assert_eq!(ShipKind::Destroyer.size(), 2);
}

#[test]
fn ship_kind_all_returns_five() {
    assert_eq!(ShipKind::all().len(), 5);
}

// -- GameState tests ----------------------------------------------------

#[test]
fn game_state_initial() {
    let state = GameState::new("Alice".to_string());
    assert_eq!(state.phase, Phase::Connecting);
    assert_eq!(state.my_name, "Alice");
    assert!(state.opponent_name.is_empty());
    assert!(state.my_board.ships.is_empty());
}

#[test]
fn board_default_matches_new() {
    let default_board: Board = Board::default();
    let new_board = Board::new();
    assert_eq!(default_board.grid, new_board.grid);
    assert!(default_board.ships.is_empty());
}

#[test]
fn ship_kind_display() {
    assert_eq!(ShipKind::Carrier.name(), "Carrier");
    assert_eq!(ShipKind::Destroyer.name(), "Destroyer");
}

#[test]
fn orientation_toggle() {
    assert_eq!(Orientation::Horizontal.toggle(), Orientation::Vertical);
    assert_eq!(Orientation::Vertical.toggle(), Orientation::Horizontal);
}

#[test]
fn has_won_initially_false() {
    let state = GameState::new("Alice".to_string());
    assert!(!state.has_won());
}

#[test]
fn has_won_after_all_hits() {
    let mut state = GameState::new("Alice".to_string());
    // Mark all ship cells as hit on the tracking board
    // Total ship cells = 5 + 4 + 3 + 3 + 2 = 17
    let mut count = 0;
    'outer: for row in 0..GRID_SIZE {
        for col in 0..GRID_SIZE {
            if count >= 17 {
                break 'outer;
            }
            state.tracking_board[row][col] = Cell::Hit;
            count += 1;
        }
    }
    assert!(state.has_won());
}

#[test]
fn push_chat_keeps_max_entries() {
    let mut state = GameState::new("Alice".to_string());
    // Push more than MAX_CHAT_LOG messages
    for i in 0..8 {
        state.push_chat("Bob".to_string(), format!("msg {}", i));
    }
    // Should only keep the last 5
    assert_eq!(state.chat_log.len(), 5);
    assert_eq!(state.chat_log[0].1, "msg 3");
    assert_eq!(state.chat_log[4].1, "msg 7");
}

#[test]
fn game_state_new_has_empty_chat() {
    let state = GameState::new("Alice".to_string());
    assert!(state.chat_log.is_empty());
}
