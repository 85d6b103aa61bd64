//! What the screens show.

use battleship::audio::Sfx;
use battleship::game::{Board, Cell, GameState, Orientation, Phase, ShipKind};
use battleship::ui::{
    cell_screen_pos, flash_final, flash_frame, fleet_health, opponent_label, own_cell_style,
    phase_banner, tracking_cell_style, ShipHealth, Tint,
};

#[test]
fn cell_styles() {
    assert_eq!(own_cell_style(Cell::Empty), ('\u{b7}', Tint::DarkBlue));
    assert_eq!(own_cell_style(Cell::Ship(ShipKind::Cruiser)), ('\u{25a0}', Tint::Green));
    assert_eq!(own_cell_style(Cell::Hit), ('\u{2715}', Tint::Red));
    assert_eq!(own_cell_style(Cell::Miss), ('\u{25cb}', Tint::DarkGrey));
    assert_eq!(tracking_cell_style(Cell::Ship(ShipKind::Cruiser)), ('\u{b7}', Tint::DarkBlue));
    assert_eq!(tracking_cell_style(Cell::Miss), ('\u{25cb}', Tint::White));
    assert_eq!(tracking_cell_style(Cell::Hit), ('\u{2715}', Tint::Red));
}

#[test]
fn fleet_health_line() {
    let mut board = Board::new();
    board.place_ship(ShipKind::Destroyer, 0, 0, Orientation::Horizontal).unwrap();
    board.place_ship(ShipKind::Carrier, 0, 2, Orientation::Horizontal).unwrap();
    board.receive_fire(0, 0);
    board.receive_fire(1, 0);
    board.receive_fire(3, 2);
    let health = fleet_health(&board);
    assert_eq!(
        health,
        vec![
            (ShipKind::Carrier, ShipHealth::Afloat(4)),
            (ShipKind::Battleship, ShipHealth::NotPlaced),
            (ShipKind::Cruiser, ShipHealth::NotPlaced),
            (ShipKind::Submarine, ShipHealth::NotPlaced),
            (ShipKind::Destroyer, ShipHealth::Sunk),
        ]
    );
}

#[test]
fn banners_and_names() {
    assert_eq!(phase_banner(Phase::Connecting), ("Connecting...", Tint::Yellow));
    assert_eq!(phase_banner(Phase::Placing), ("Place your ships", Tint::Cyan));
    assert_eq!(
        phase_banner(Phase::GameOver(true)),
        ("VICTORY! You sank the entire fleet!", Tint::Green)
    );
    assert_eq!(
        phase_banner(Phase::GameOver(false)),
        ("DEFEAT \u{2014} Your fleet has been destroyed.", Tint::Red)
    );
    let mut state = GameState::new("Alice".to_string());
    assert_eq!(opponent_label(&state), ("???", Tint::DarkGrey));
    state.opponent_name = "Bob".to_string();
    assert_eq!(opponent_label(&state), ("Bob", Tint::Magenta));
}

#[test]
fn screen_positions_and_flash() {
    assert_eq!(cell_screen_pos(0, 0, false), (6, 4));
    assert_eq!(cell_screen_pos(9, 9, true), (60, 13));
    assert_eq!(flash_frame(true, 0), ('\u{2715}', Tint::White, Some(Tint::Red)));
    assert_eq!(flash_frame(true, 1), ('\u{2715}', Tint::Red, None));
    assert_eq!(flash_frame(false, 2), ('\u{25cb}', Tint::White, None));
    assert_eq!(flash_frame(false, 5), ('\u{25cb}', Tint::DarkGrey, None));
    assert_eq!(flash_final(true), ('\u{2715}', Tint::Red));
    assert_eq!(flash_final(false), ('\u{25cb}', Tint::DarkGrey));
}

#[test]
fn sound_files() {
    assert_eq!(Sfx::Select.filename(), "Select 1.wav");
    assert_eq!(Sfx::Confirm.filename(), "Confirm 1.wav");
    assert_eq!(Sfx::Cancel.filename(), "Cancel 1.wav");
    assert_eq!(Sfx::Hit.filename(), "Hit damage 1.wav");
    assert_eq!(Sfx::Sunk.filename(), "Balloon Pop 1.wav");
}
