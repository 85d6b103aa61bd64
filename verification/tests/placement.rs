//! The placement screen: cursor, rotation, ghost preview, random placement.

use battleship::game::{Board, Cell, Orientation, ShipKind, GRID_SIZE};
use battleship::keys::Key;
use battleship::placement::{
    auto_place_remaining, list_mark, mark_all_placed, mark_auto_placed, orientation_label,
    placement_grid, placement_input, ListMark, PlacementState, PlacementStep,
};
use battleship::ui::Tint;

#[test]
fn placement_starts_with_the_carrier() {
    let state = PlacementState::new();
    assert_eq!(state.cursor(), (0, 0));
    assert_eq!(state.orientation(), Orientation::Horizontal);
    assert_eq!(state.ship_index(), 0);
    assert_eq!(state.current_ship(), Some(ShipKind::Carrier));
    assert_eq!(state.status(), "");
    assert_eq!(state.ghost_cells(), Some(vec![(0, 0), (1, 0), (2, 0), (3, 0), (4, 0)]));
}

#[test]
fn ghost_off_the_grid_is_blocked() {
    let board = Board::new();
    let mut state = PlacementState::new();
    for _ in 0..8 {
        placement_input(&mut Board::new(), &mut state, Key::Right);
    }
    assert_eq!(state.cursor(), (8, 0));
    assert_eq!(state.ghost_cells(), None);
    assert!(state.ghost_overlaps(&board));
    placement_input(&mut Board::new(), &mut state, Key::Char('r'));
    assert_eq!(state.orientation(), Orientation::Vertical);
    assert_eq!(state.ghost_cells(), Some(vec![(8, 0), (8, 1), (8, 2), (8, 3), (8, 4)]));
    assert!(!state.ghost_overlaps(&board));
}

#[test]
fn placing_moves_to_next_ship_and_resets_cursor() {
    let mut board = Board::new();
    let mut state = PlacementState::new();
    placement_input(&mut board, &mut state, Key::Down);
    placement_input(&mut board, &mut state, Key::Char('d'));
    assert_eq!(state.cursor(), (1, 1));
    let step = placement_input(&mut board, &mut state, Key::Enter);
    assert_eq!(step, PlacementStep::Continue);
    assert_eq!(state.status(), "Carrier placed!");
    assert_eq!(state.ship_index(), 1);
    assert_eq!(state.cursor(), (0, 0));
    assert_eq!(state.current_ship(), Some(ShipKind::Battleship));
    assert_eq!(board.grid[1][5], Cell::Ship(ShipKind::Carrier));
    // The status is cleared by the next key.
    placement_input(&mut board, &mut state, Key::Char('s'));
    assert_eq!(state.status(), "");
    // Overlapping the carrier is refused.
    placement_input(&mut board, &mut state, Key::Char('R'));
    placement_input(&mut board, &mut state, Key::Right);
    let step = placement_input(&mut board, &mut state, Key::Char(' '));
    assert_eq!(step, PlacementStep::Continue);
    assert_eq!(
        state.status(),
        "Cannot place: Ship overlaps with an existing ship"
    );
    assert_eq!(state.ship_index(), 1);
    assert!(state.ghost_overlaps(&board));
}

#[test]
fn placement_keys_for_auto_and_quit() {
    let mut board = Board::new();
    let mut state = PlacementState::new();
    assert_eq!(placement_input(&mut board, &mut state, Key::Char('a')), PlacementStep::AutoPlace);
    assert_eq!(placement_input(&mut board, &mut state, Key::Esc), PlacementStep::Quit);
    // 'a' does not move left on this screen; only the arrow does.
    placement_input(&mut board, &mut state, Key::Right);
    placement_input(&mut board, &mut state, Key::Char('A'));
    assert_eq!(state.cursor(), (1, 0));
    placement_input(&mut board, &mut state, Key::Left);
    assert_eq!(state.cursor(), (0, 0));
}

#[test]
fn auto_place_fills_the_fleet() {
    let mut board = Board::new();
    let mut state = PlacementState::new();
    placement_input(&mut board, &mut state, Key::Enter);
    assert_eq!(state.ship_index(), 1);
    assert!(auto_place_remaining(&mut board, &mut state));
    mark_auto_placed(&mut state);
    assert_eq!(state.status(), "All ships auto-placed!");
    assert_eq!(state.ship_index(), 5);
    assert_eq!(state.current_ship(), None);
    assert_eq!(board.ships.len(), 5);
    let kinds: Vec<ShipKind> = board.ships.iter().map(|s| s.kind).collect();
    assert_eq!(kinds, ShipKind::all().to_vec());
    let mut ship_cells = 0;
    for row in 0..GRID_SIZE {
        for col in 0..GRID_SIZE {
            if let Cell::Ship(_) = board.grid[row][col] {
                ship_cells += 1;
            }
        }
    }
    assert_eq!(ship_cells, 17);
    for ship in &board.ships {
        assert_eq!(ship.cells.len(), ship.kind.size());
        for &(x, y) in &ship.cells {
            assert!((x as usize) < GRID_SIZE && (y as usize) < GRID_SIZE);
            assert_eq!(board.grid[y as usize][x as usize], Cell::Ship(ship.kind));
        }
    }
    mark_all_placed(&mut state);
    assert_eq!(state.status(), "All ships placed! Ready for battle.");
}

#[test]
fn placement_grid_shows_ghost_colours() {
    let mut board = Board::new();
    let state = PlacementState::new();
    let grid = placement_grid(&board, &state);
    assert_eq!(grid[0][0], ('\u{2588}', Tint::Green));
    assert_eq!(grid[0][5], ('\u{b7}', Tint::DarkBlue));
    board
        .place_ship(ShipKind::Destroyer, 4, 0, Orientation::Vertical)
        .unwrap();
    let grid = placement_grid(&board, &state);
    assert_eq!(grid[0][0], ('\u{2588}', Tint::Red));
    assert_eq!(grid[1][4], ('\u{25a0}', Tint::White));
}

#[test]
fn ship_list_and_orientation_labels() {
    assert_eq!(list_mark(0, 2), ListMark::Placed);
    assert_eq!(list_mark(2, 2), ListMark::Current);
    assert_eq!(list_mark(4, 2), ListMark::Pending);
    assert_eq!(orientation_label(Orientation::Horizontal), "Horizontal \u{2192}");
    assert_eq!(orientation_label(Orientation::Vertical), "Vertical \u{2193}");
}

/// A board on which no Carrier fits: rows 4 and 9 are full, and columns 4
/// and 9 are filled in between them.
fn board_without_room_for_a_carrier() -> Board {
    let mut board = Board::new();
    for &y in &[4u8, 9u8] {
        for &x in &[0u8, 5u8] {
            assert!(board.place_ship(ShipKind::Carrier, x, y, Orientation::Horizontal).is_ok());
        }
    }
    for &x in &[4u8, 9u8] {
        for &y in &[0u8, 5u8] {
            assert!(board.place_ship(ShipKind::Battleship, x, y, Orientation::Vertical).is_ok());
        }
    }
    board
}

#[test]
fn auto_place_reports_a_ship_without_room() {
    let mut board = board_without_room_for_a_carrier();
    let before = board.ships.len();
    let mut state = PlacementState::new();
    assert!(!auto_place_remaining(&mut board, &mut state));
    assert_eq!(state.ship_index(), 0);
    assert_eq!(board.ships.len(), before);
}

#[test]
fn auto_place_finds_the_last_free_spot() {
    let mut board = Board::new();
    for &y in &[4u8, 9u8] {
        for &x in &[0u8, 5u8] {
            if (x, y) != (5, 9) {
                assert!(board.place_ship(ShipKind::Carrier, x, y, Orientation::Horizontal).is_ok());
            }
        }
    }
    for &x in &[4u8, 9u8] {
        for &y in &[0u8, 5u8] {
            assert!(board.place_ship(ShipKind::Battleship, x, y, Orientation::Vertical).is_ok());
        }
    }
    let before = board.ships.len();
    let mut state = PlacementState::new();
    assert!(auto_place_remaining(&mut board, &mut state));
    assert_eq!(state.ship_index(), 5);
    assert_eq!(board.ships.len(), before + 5);
    assert_eq!(board.ships[before].kind, ShipKind::Carrier);
}
