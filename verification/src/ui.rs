//! What the screens show: the glyph and colour of each cell, the fleet
//! health line, the status banner and where a grid cell sits on the terminal.
//! The front end does the drawing.

use vstd::prelude::*;

use crate::game::{fleet, Board, Cell, GameState, Phase, ShipKind};
use crate::model::ShipView;

verus! {

/// The colours the screens use.
#[derive(Debug, Clone, Copy, PartialEq, Eq, Structural)]
pub enum Tint {
    Black,
    White,
    Red,
    DarkRed,
    Green,
    Yellow,
    Cyan,
    Magenta,
    DarkBlue,
    DarkGrey,
    /// The terminal's default colour.
    Reset,
}

/// How a cell of our own board is drawn: ships are visible here.
pub open spec fn own_style(cell: Cell) -> (char, Tint) {
    match cell {
        Cell::Empty => ('\u{b7}', Tint::DarkBlue),
        Cell::Ship(_) => ('\u{25a0}', Tint::Green),
        Cell::Hit => ('\u{2715}', Tint::Red),
        Cell::Miss => ('\u{25cb}', Tint::DarkGrey),
    }
}

/// How a cell of the tracking board is drawn: ships are never shown, only
/// the hits and misses of our shots.
pub open spec fn tracking_style(cell: Cell) -> (char, Tint) {
    match cell {
        Cell::Empty => ('\u{b7}', Tint::DarkBlue),
        Cell::Ship(_) => ('\u{b7}', Tint::DarkBlue),
        Cell::Hit => ('\u{2715}', Tint::Red),
        Cell::Miss => ('\u{25cb}', Tint::White),
    }
}

/// Return the character and colour for a cell on the player's own board.
pub fn own_cell_style(cell: Cell) -> (r: (char, Tint))
    ensures
        r == own_style(cell),
{
    match cell {
        Cell::Empty => ('\u{b7}', Tint::DarkBlue),
        Cell::Ship(_) => ('\u{25a0}', Tint::Green),
        Cell::Hit => ('\u{2715}', Tint::Red),
        Cell::Miss => ('\u{25cb}', Tint::DarkGrey),
    }
}

/// Return the character and colour for a cell on the tracking board.
pub fn tracking_cell_style(cell: Cell) -> (r: (char, Tint))
    ensures
        r == tracking_style(cell),
{
    match cell {
        Cell::Empty => ('\u{b7}', Tint::DarkBlue),
        Cell::Ship(_) => ('\u{b7}', Tint::DarkBlue),
        Cell::Hit => ('\u{2715}', Tint::Red),
        Cell::Miss => ('\u{25cb}', Tint::White),
    }
}

/// The state of one ship kind in the fleet health line.
#[derive(Debug, Clone, Copy, PartialEq, Eq, Structural)]
pub enum ShipHealth {
    /// No ship of this kind has been placed.
    NotPlaced,
    /// The ship is afloat with this many cells not yet hit.
    Afloat(usize),
    /// The ship is sunk.
    Sunk,
}

/// The health of the first placed ship of `kind`, if any.
pub open spec fn health_of(ships: Seq<ShipView>, kind: ShipKind) -> ShipHealth
    decreases ships.len(),
{
    if ships.len() == 0 {
        ShipHealth::NotPlaced
    } else if ships[0].kind == kind {
        if ships[0].is_sunk() {
            ShipHealth::Sunk
        } else {
            ShipHealth::Afloat((kind.size() - ships[0].hits) as usize)
        }
    } else {
        health_of(ships.drop_first(), kind)
    }
}

/// The health of the first ship of `kind` on the board.
fn kind_health(board: &Board, kind: ShipKind) -> (r: ShipHealth)
    requires
        board.wf(),
    ensures
        r == health_of(board@.ships, kind),
{
    let ghost ships = board@.ships;
    let mut i: usize = 0;
    assert(ships.skip(0) =~= ships);
    while i < board.ships.len()
        invariant
            i <= board.ships@.len(),
            board.wf(),
            ships == board@.ships,
            health_of(ships, kind) == health_of(ships.skip(i as int), kind),
        decreases board.ships.len() - i,
    {
        let ghost rest = ships.skip(i as int);
        assert(rest[0] == ships[i as int]);
        assert(ships[i as int].placed_on(board@.grid));
        proof {
            crate::model::lemma_count_hits_bounds(board@.grid, ships[i as int].cells);
        }
        if board.ships[i].kind == kind {
            if board.ships[i].is_sunk() {
                return ShipHealth::Sunk;
            } else {
                return ShipHealth::Afloat(kind.size() - board.ships[i].hits as usize);
            }
        }
        assert(rest.drop_first() =~= ships.skip(i + 1));
        i += 1;
    }
    ShipHealth::NotPlaced
}

/// The fleet health line: for each ship kind, in fleet order, whether it is
/// not yet placed, afloat (with its cells left unhit) or sunk.
pub fn fleet_health(board: &Board) -> (r: Vec<(ShipKind, ShipHealth)>)
    requires
        board.wf(),
    ensures
        r@.len() == 5,
        forall|i: int|
            0 <= i < 5 ==> #[trigger] r@[i] == (fleet()[i], health_of(board@.ships, fleet()[i])),
{
    let all = ShipKind::all();
    let mut r: Vec<(ShipKind, ShipHealth)> = Vec::new();
    let mut i: usize = 0;
    while i < 5
        invariant
            i <= 5,
            board.wf(),
            all@ == fleet(),
            r@.len() == i,
            forall|j: int|
                0 <= j < i ==> #[trigger] r@[j] == (fleet()[j], health_of(board@.ships, fleet()[j])),
        decreases 5 - i,
    {
        let kind = all[i];
        r.push((kind, kind_health(board, kind)));
        i += 1;
    }
    r
}

/// The status banner for each phase and its colour.
pub open spec fn banner(phase: Phase) -> (Seq<char>, Tint) {
    match phase {
        Phase::Connecting => ("Connecting..."@, Tint::Yellow),
        Phase::Placing => ("Place your ships"@, Tint::Cyan),
        Phase::MyTurn => ("YOUR TURN \u{2014} Arrow keys to aim, Enter to fire"@, Tint::Green),
        Phase::OpponentTurn => ("Opponent's turn \u{2014} waiting..."@, Tint::Yellow),
        Phase::GameOver(true) => ("VICTORY! You sank the entire fleet!"@, Tint::Green),
        Phase::GameOver(false) => ("DEFEAT \u{2014} Your fleet has been destroyed."@, Tint::Red),
    }
}

/// The status banner shown for the current phase.
pub fn phase_banner(phase: Phase) -> (r: (&'static str, Tint))
    ensures
        (r.0@, r.1) == banner(phase),
{
    match phase {
        Phase::Connecting => ("Connecting...", Tint::Yellow),
        Phase::Placing => ("Place your ships", Tint::Cyan),
        Phase::MyTurn => ("YOUR TURN \u{2014} Arrow keys to aim, Enter to fire", Tint::Green),
        Phase::OpponentTurn => ("Opponent's turn \u{2014} waiting...", Tint::Yellow),
        Phase::GameOver(won) => {
            if won {
                ("VICTORY! You sank the entire fleet!", Tint::Green)
            } else {
                ("DEFEAT \u{2014} Your fleet has been destroyed.", Tint::Red)
            }
        },
    }
}

/// The opponent's name as the status area shows it: `???` in grey while it
/// is unknown, the name in magenta otherwise.
pub fn opponent_label(state: &GameState) -> (r: (&str, Tint))
    ensures
        state.opponent_name@.len() == 0 ==> r.0@ == "???"@ && r.1 == Tint::DarkGrey,
        state.opponent_name@.len() != 0 ==> r.0@ == state.opponent_name@ && r.1 == Tint::Magenta,
{
    if state.opponent_name.as_str().is_empty() {
        ("???", Tint::DarkGrey)
    } else {
        (state.opponent_name.as_str(), Tint::Magenta)
    }
}

/// Terminal column of the left grid (our fleet).
pub const LEFT_GRID_X: u16 = 2;

/// Terminal column of the right grid (opponent waters).
pub const RIGHT_GRID_X: u16 = 38;

/// Terminal row of both grids' column labels.
pub const GRID_Y: u16 = 3;

/// Where the glyph of grid cell `(x, y)` sits on the terminal, on the
/// tracking grid (`tracking_side`) or on our own grid.
pub fn cell_screen_pos(x: u8, y: u8, tracking_side: bool) -> (r: (u16, u16))
    ensures
        r.0 == (if tracking_side {
            RIGHT_GRID_X
        } else {
            LEFT_GRID_X
        }) + 4 + 2 * x,
        r.1 == GRID_Y + 1 + y,
{
    let origin_x = if tracking_side {
        RIGHT_GRID_X
    } else {
        LEFT_GRID_X
    };
    (origin_x + 4 + (x as u16 * 2), GRID_Y + 1 + y as u16)
}

/// One frame of the flash animation on a cell: the glyph, its colour and
/// the background colour, if any.
pub open spec fn flash_frame_spec(hit: bool, frame: u8) -> (char, Tint, Option<Tint>) {
    if hit {
        if frame % 2 == 0 {
            ('\u{2715}', Tint::White, Some(Tint::Red))
        } else {
            ('\u{2715}', Tint::Red, None)
        }
    } else {
        if frame % 2 == 0 {
            ('\u{25cb}', Tint::White, None)
        } else {
            ('\u{25cb}', Tint::DarkGrey, None)
        }
    }
}

/// Frame `frame` of the flash animation for a hit or a miss: it alternates
/// between white and the cell's colour, a hit on a red background on the
/// white frames.
pub fn flash_frame(hit: bool, frame: u8) -> (r: (char, Tint, Option<Tint>))
    ensures
        r == flash_frame_spec(hit, frame),
{
    let ch = if hit {
        '\u{2715}'
    } else {
        '\u{25cb}'
    };
    let even = frame % 2 == 0;
    let color = if even {
        Tint::White
    } else if hit {
        Tint::Red
    } else {
        Tint::DarkGrey
    };
    let background = if hit && even {
        Some(Tint::Red)
    } else {
        None
    };
    (ch, color, background)
}

/// How a flashed cell is left once the animation ends.
pub fn flash_final(hit: bool) -> (r: (char, Tint))
    ensures
        r == if hit {
            ('\u{2715}', Tint::Red)
        } else {
            ('\u{25cb}', Tint::DarkGrey)
        },
{
    if hit {
        ('\u{2715}', Tint::Red)
    } else {
        ('\u{25cb}', Tint::DarkGrey)
    }
}

} // verus!
