//! Core data model: cells, ships, boards, shot resolution and game state.

use vstd::prelude::*;

use crate::model::{
    cell_of, fits, footprint, lemma_fire_wf, lemma_footprint, lemma_set_cell, lemma_unique_owner,
    lemma_with_ship_wf, lemma_empty_board_wf, lemma_count_hits_bounds, lemma_count_hits_strike, on_grid, paint, set_cell,
    well_shaped, BoardView, Pos, ShipView,
};

verus! {

/// Grid dimensions (10x10 classic Battleship board).
pub const GRID_SIZE: usize = 10;

/// The five ship types in classic Battleship, each with a fixed size.
#[derive(Clone, Copy, Debug, PartialEq, Eq, Structural)]
pub enum ShipKind {
    Carrier,
    Battleship,
    Cruiser,
    Submarine,
    Destroyer,
}

/// The display name of a ship kind.
pub open spec fn kind_name(kind: ShipKind) -> Seq<char> {
    match kind {
        ShipKind::Carrier => "Carrier"@,
        ShipKind::Battleship => "Battleship"@,
        ShipKind::Cruiser => "Cruiser"@,
        ShipKind::Submarine => "Submarine"@,
        ShipKind::Destroyer => "Destroyer"@,
    }
}

impl ShipKind {
    /// Returns the length (number of cells) this ship occupies.
    #[verifier::allow_in_spec]
    pub fn size(self) -> usize
        returns
            match self {
                ShipKind::Carrier => 5usize,
                ShipKind::Battleship => 4usize,
                ShipKind::Cruiser => 3usize,
                ShipKind::Submarine => 3usize,
                ShipKind::Destroyer => 2usize,
            },
    {
        match self {
            ShipKind::Carrier => 5,
            ShipKind::Battleship => 4,
            ShipKind::Cruiser => 3,
            ShipKind::Submarine => 3,
            ShipKind::Destroyer => 2,
        }
    }

    /// Returns a human-readable name for display in the UI.
    pub fn name(self) -> (r: &'static str)
        ensures
            r@ == kind_name(self),
    {
        match self {
            ShipKind::Carrier => "Carrier",
            ShipKind::Battleship => "Battleship",
            ShipKind::Cruiser => "Cruiser",
            ShipKind::Submarine => "Submarine",
            ShipKind::Destroyer => "Destroyer",
        }
    }
}


/// All five ship kinds in placement order (largest first).
pub open spec fn fleet() -> Seq<ShipKind> {
    seq![
        ShipKind::Carrier,
        ShipKind::Battleship,
        ShipKind::Cruiser,
        ShipKind::Submarine,
        ShipKind::Destroyer,
    ]
}

impl ShipKind {
    /// Returns all five ship kinds in placement order (largest first).
    pub fn all() -> (r: [ShipKind; 5])
        ensures
            r@ == fleet(),
    {
        let r = [
            ShipKind::Carrier,
            ShipKind::Battleship,
            ShipKind::Cruiser,
            ShipKind::Submarine,
            ShipKind::Destroyer,
        ];
        assert(r@ =~= fleet());
        r
    }
}

/// Ship placement direction on the grid.
#[derive(Clone, Copy, Debug, PartialEq, Eq, Structural)]
pub enum Orientation {
    /// Extends rightward from the origin.
    Horizontal,
    /// Extends downward from the origin.
    Vertical,
}

impl Orientation {
    /// Flip between horizontal and vertical.
    #[verifier::allow_in_spec]
    pub fn toggle(self) -> Orientation
        returns
            match self {
                Orientation::Horizontal => Orientation::Vertical,
                Orientation::Vertical => Orientation::Horizontal,
            },
    {
        match self {
            Orientation::Horizontal => Orientation::Vertical,
            Orientation::Vertical => Orientation::Horizontal,
        }
    }
}

/// A single cell on the board grid.
/// - `Empty`: open water, no ship.
/// - `Ship(kind)`: occupied by part of a ship (hidden from the opponent).
/// - `Hit`: a shot that struck a ship.
/// - `Miss`: a shot that hit open water.
#[derive(Clone, Copy, Debug, PartialEq, Eq, Structural)]
pub enum Cell {
    Empty,
    Ship(ShipKind),
    Hit,
    Miss,
}


/// The model of a 10x10 cell array: its rows, each as a sequence of cells.
pub open spec fn grid_view(grid: [[Cell; GRID_SIZE]; GRID_SIZE]) -> Seq<Seq<Cell>> {
    grid@.map_values(|row: [Cell; GRID_SIZE]| row@)
}

/// A 10x10 grid of open water.
pub(crate) fn empty_grid() -> (g: [[Cell; GRID_SIZE]; GRID_SIZE])
    ensures
        well_shaped(grid_view(g)),
        forall|p: Pos| on_grid(p) ==> #[trigger] cell_of(grid_view(g), p) == Cell::Empty,
{
    let row: [Cell; GRID_SIZE] = [
        Cell::Empty,
        Cell::Empty,
        Cell::Empty,
        Cell::Empty,
        Cell::Empty,
        Cell::Empty,
        Cell::Empty,
        Cell::Empty,
        Cell::Empty,
        Cell::Empty,
    ];
    let g: [[Cell; GRID_SIZE]; GRID_SIZE] = [row, row, row, row, row, row, row, row, row, row];
    assert forall|p: Pos| on_grid(p) implies #[trigger] cell_of(grid_view(g), p) == Cell::Empty by {
        assert(grid_view(g)[p.1 as int] == g@[p.1 as int]@);
    }
    g
}

/// Write one cell of a 10x10 grid.
pub(crate) fn write_cell(grid: &mut [[Cell; GRID_SIZE]; GRID_SIZE], x: usize, y: usize, c: Cell)
    requires
        x < GRID_SIZE,
        y < GRID_SIZE,
    ensures
        grid_view(*final(grid)) == set_cell(grid_view(*old(grid)), (x as u8, y as u8), c),
{
    let mut row = grid[y];
    row[x] = c;
    grid[y] = row;
    assert(grid_view(*grid) =~= set_cell(grid_view(*old(grid)), (x as u8, y as u8), c));
}

/// Read one cell of a 10x10 grid.
pub(crate) fn read_cell(grid: &[[Cell; GRID_SIZE]; GRID_SIZE], x: usize, y: usize) -> (c: Cell)
    requires
        x < GRID_SIZE,
        y < GRID_SIZE,
    ensures
        c == cell_of(grid_view(*grid), (x as u8, y as u8)),
{
    grid[y][x]
}


/// A ship placed on the board. Tracks which cells it occupies
/// and how many of those cells have been hit.
#[derive(Clone, Debug)]
pub struct Ship {
    pub kind: ShipKind,
    /// The grid coordinates (col, row) this ship occupies.
    pub cells: Vec<(u8, u8)>,
    /// Number of cells that have been hit so far.
    pub hits: u8,
}

impl View for Ship {
    type V = ShipView;

    open spec fn view(&self) -> ShipView {
        ShipView { kind: self.kind, cells: self.cells@, hits: self.hits as nat }
    }
}

impl Ship {
    /// Returns `true` when every cell of this ship has been hit.
    pub fn is_sunk(&self) -> (r: bool)
        ensures
            r == self@.is_sunk(),
    {
        self.hits as usize == self.cells.len()
    }

    /// Check whether this ship occupies the given coordinate.
    pub fn occupies(&self, x: u8, y: u8) -> (r: bool)
        ensures
            r == self.cells@.contains((x, y)),
    {
        let mut i: usize = 0;
        while i < self.cells.len()
            invariant
                i <= self.cells.len(),
                forall|k: int| 0 <= k < i ==> self.cells@[k] != (x, y),
            decreases self.cells.len() - i,
        {
            let (cx, cy) = self.cells[i];
            if cx == x && cy == y {
                assert(self.cells@[i as int] == (x, y));
                return true;
            }
            i += 1;
        }
        false
    }
}

/// Represents one player's board: the grid of cells and the list
/// of ships that have been placed on it.
#[derive(Clone, Debug)]
pub struct Board {
    /// The 10x10 grid. Indexed as `grid[row][col]`.
    pub grid: [[Cell; GRID_SIZE]; GRID_SIZE],
    /// All ships placed on this board.
    pub ships: Vec<Ship>,
}

impl View for Board {
    type V = BoardView;

    open spec fn view(&self) -> BoardView {
        BoardView { grid: grid_view(self.grid), ships: self.ships@.map_values(|s: Ship| s@) }
    }
}

impl Board {
    /// The board invariant (see `BoardView::wf`).
    pub open spec fn wf(&self) -> bool {
        self@.wf()
    }

    /// Creates a new empty board: all cells are `Empty`, no ships placed.
    pub fn new() -> (b: Board)
        ensures
            b.wf(),
            b@.ships.len() == 0,
            forall|p: Pos| on_grid(p) ==> #[trigger] b@.cell(p) == Cell::Empty,
    {
        let grid = empty_grid();
        let b = Board { grid, ships: Vec::new() };
        proof {
            assert(b@.ships =~= Seq::<ShipView>::empty());
            lemma_empty_board_wf(grid_view(grid));
        }
        b
    }

    /// Attempts to place a ship on the board.
    ///
    /// - `kind`: which ship to place.
    /// - `x`, `y`: top-left origin (col, row), zero-indexed.
    /// - `orientation`: horizontal (extends right) or vertical (extends down).
    ///
    /// Returns `Ok(())` on success, or `Err(message)` if the placement
    /// is out of bounds or overlaps an existing ship; on an error the board
    /// is unchanged.
    pub fn place_ship(&mut self, kind: ShipKind, x: u8, y: u8, orientation: Orientation) -> (r:
        Result<(), &'static str>)
        ensures
            r is Ok <==> fits(kind, x, y, orientation) && old(self)@.is_clear(
                footprint(kind, x, y, orientation),
            ),
            r is Ok ==> final(self)@ == old(self)@.with_ship(
                kind,
                footprint(kind, x, y, orientation),
            ),
            r is Err ==> *final(self) == *old(self),
            !fits(kind, x, y, orientation) ==> (r matches Err(e) && e@
                == "Ship placement is out of bounds"@),
            fits(kind, x, y, orientation) && !old(self)@.is_clear(
                footprint(kind, x, y, orientation),
            ) ==> (r matches Err(e) && e@ == "Ship overlaps with an existing ship"@),
            old(self).wf() ==> final(self).wf(),
    {
        let size = kind.size();
        let ghost fp = footprint(kind, x, y, orientation);
        // Compute all cells the ship would occupy, checking that each lies on the grid.
        let mut cells: Vec<(u8, u8)> = Vec::new();
        let mut i: usize = 0;
        while i < size
            invariant
                i <= size,
                size == kind.size(),
                fp == footprint(kind, x, y, orientation),
                cells@ == fp.take(i as int),
                forall|k: int| 0 <= k < i ==> on_grid(#[trigger] fp[k]),
                forall|k: int|
                    0 <= k < i ==> #[trigger] fp[k] == fp[k] && match orientation {
                        Orientation::Horizontal => x + k < GRID_SIZE && (y as int) < GRID_SIZE,
                        Orientation::Vertical => (x as int) < GRID_SIZE && y + k < GRID_SIZE,
                    },
            decreases size - i,
        {
            let (cx, cy): (usize, usize) = match orientation {
                Orientation::Horizontal => (x as usize + i, y as usize),
                Orientation::Vertical => (x as usize, y as usize + i),
            };
            if cx >= GRID_SIZE || cy >= GRID_SIZE {
                return Err("Ship placement is out of bounds");
            }
            cells.push((cx as u8, cy as u8));
            assert(cells@ =~= fp.take(i + 1));
            i += 1;
        }
        assert(cells@ =~= fp);
        assert(on_grid(fp[size - 1]));
        assert(fp[size - 1] == fp[size - 1]);
        assert(fits(kind, x, y, orientation));
        proof {
            lemma_footprint(kind, x, y, orientation);
        }
        // Every cell must be open water.
        let mut j: usize = 0;
        while j < cells.len()
            invariant
                j <= cells.len(),
                cells@ == fp,
                fp == footprint(kind, x, y, orientation),
                fits(kind, x, y, orientation),
                forall|a: int| 0 <= a < fp.len() ==> on_grid(#[trigger] fp[a]),
                forall|k: int| 0 <= k < j ==> self@.cell(#[trigger] fp[k]) == Cell::Empty,
            decreases cells.len() - j,
        {
            let (cx, cy) = cells[j];
            assert(on_grid(fp[j as int]));
            if read_cell(&self.grid, cx as usize, cy as usize) != Cell::Empty {
                return Err("Ship overlaps with an existing ship");
            }
            j += 1;
        }
        assert(self@.is_clear(fp));
        proof {
            if old(self).wf() {
                lemma_with_ship_wf(old(self)@, kind, x, y, orientation);
            }
        }
        // Mark the ship's cells on the grid.
        let mut k: usize = 0;
        while k < cells.len()
            invariant
                k <= cells.len(),
                cells@ == fp,
                forall|a: int| 0 <= a < fp.len() ==> on_grid(#[trigger] fp[a]),
                grid_view(self.grid) == paint(grid_view(old(self).grid), fp.take(k as int), Cell::Ship(kind)),
                self.ships == old(self).ships,
            decreases cells.len() - k,
        {
            let (cx, cy) = cells[k];
            assert(on_grid(fp[k as int]));
            write_cell(&mut self.grid, cx as usize, cy as usize, Cell::Ship(kind));
            assert(fp.take(k + 1).drop_last() =~= fp.take(k as int));
            k += 1;
        }
        assert(fp.take(cells.len() as int) =~= fp);
        // Record the ship for hit tracking.
        let ghost old_ships = self.ships@;
        self.ships.push(Ship { kind, cells, hits: 0 });
        assert(self@.ships =~= old(self)@.ships.push(ShipView { kind, cells: fp, hits: 0 }));
        Ok(())
    }
}


/// The index of the first ship of `kind` that occupies `(x, y)`, if any.
fn owner_of(ships: &Vec<Ship>, kind: ShipKind, x: u8, y: u8) -> (r: Option<usize>)
    ensures
        match r {
            Some(i) => i < ships@.len() && ships@[i as int].kind == kind
                && ships@[i as int].cells@.contains((x, y)),
            None => forall|i: int|
                0 <= i < ships@.len() ==> !(ships@[i].kind == kind && #[trigger] ships@[i].cells@.contains(
                    (x, y),
                )),
        },
{
    let mut i: usize = 0;
    while i < ships.len()
        invariant
            i <= ships@.len(),
            forall|j: int|
                0 <= j < i ==> !(ships@[j].kind == kind && #[trigger] ships@[j].cells@.contains(
                    (x, y),
                )),
        decreases ships.len() - i,
    {
        if ships[i].kind == kind && ships[i].occupies(x, y) {
            return Some(i);
        }
        i += 1;
    }
    None
}

impl Board {
    /// Process an incoming shot at coordinates (x, y).
    ///
    /// Returns a tuple:
    /// - `bool`: `true` if a ship was hit, `false` for a miss.
    /// - `Option<ShipKind>`: `Some(kind)` if the hit just sunk a ship.
    ///
    /// The grid cell is updated to `Hit` or `Miss` accordingly; a cell that
    /// was already shot at is treated as a miss and nothing changes.
    pub fn receive_fire(&mut self, x: u8, y: u8) -> (r: (bool, Option<ShipKind>))
        requires
            old(self).wf(),
            (x as int) < GRID_SIZE,
            (y as int) < GRID_SIZE,
        ensures
            final(self).wf(),
            final(self)@ == old(self)@.fire((x, y)).0,
            r == old(self)@.fire((x, y)).1,
    {
        let ghost b = self@;
        let ghost p: Pos = (x, y);
        proof {
            lemma_fire_wf(b, p);
            lemma_set_cell(b.grid, p, Cell::Hit);
        }
        let row = y as usize;
        let col = x as usize;
        match read_cell(&self.grid, col, row) {
            Cell::Ship(kind) => {
                write_cell(&mut self.grid, col, row, Cell::Hit);
                let mut sunk_kind = None;
                match owner_of(&self.ships, kind, x, y) {
                    Some(i) => {
                        proof {
                            let s = b.ships[i as int];
                            assert(s == self.ships@[i as int]@);
                            assert(s.placed_on(b.grid));
                            lemma_count_hits_strike(b.grid, s.cells, p);
                            lemma_count_hits_bounds(set_cell(b.grid, p, Cell::Hit), s.cells);
                        }
                        let h = self.ships[i].hits;
                        self.ships[i].hits = h + 1;
                        if self.ships[i].is_sunk() {
                            sunk_kind = Some(kind);
                        }
                        proof {
                            let after = b.fire(p).0;
                            assert forall|j: int| 0 <= j < b.ships.len() implies #[trigger] self@.ships[j]
                                == after.ships[j] by {
                                if j != i {
                                    if b.ships[j].cells.contains(p) {
                                        lemma_unique_owner(b, p, i as int, j);
                                    }
                                }
                            }
                            assert(self@.ships =~= after.ships);
                            assert(self@.grid == after.grid);
                            if sunk_kind is None {
                                assert forall|j: int|
                                    0 <= j < after.ships.len() && #[trigger] after.ships[j].cells.contains(
                                        p,
                                    ) implies !after.ships[j].is_sunk() by {
                                    lemma_unique_owner(after, p, i as int, j);
                                }
                            } else {
                                assert(after.ships[i as int].cells.contains(p));
                            }
                        }
                    },
                    None => {
                        proof {
                            let j = choose|j: int|
                                0 <= j < b.ships.len() && #[trigger] b.ships[j].cells.contains(p);
                            let a = choose|a: int|
                                0 <= a < b.ships[j].cells.len() && b.ships[j].cells[a] == p;
                            assert(b.ships[j].placed_on(b.grid));
                            assert(b.ships[j] == self.ships@[j]@);
                            assert(false);
                        }
                    },
                }
                (true, sunk_kind)
            },
            Cell::Empty => {
                write_cell(&mut self.grid, col, row, Cell::Miss);
                (false, None)
            },
            _ => (false, None),
        }
    }

    /// Returns `true` when every ship on this board has been sunk.
    pub fn all_sunk(&self) -> (r: bool)
        ensures
            r == self@.all_sunk(),
    {
        let mut i: usize = 0;
        while i < self.ships.len()
            invariant
                i <= self.ships@.len(),
                forall|j: int| 0 <= j < i ==> #[trigger] self@.ships[j].is_sunk(),
            decreases self.ships.len() - i,
        {
            if !self.ships[i].is_sunk() {
                assert(!self@.ships[i as int].is_sunk());
                return false;
            }
            i += 1;
        }
        true
    }
}

impl Default for Board {
    /// The same as `Board::new()`.
    fn default() -> (b: Board)
        ensures
            b.wf(),
            b@.ships.len() == 0,
            forall|p: Pos| on_grid(p) ==> #[trigger] b@.cell(p) == Cell::Empty,
    {
        Board::new()
    }
}


/// The current phase of the game, driving what the UI shows
/// and what inputs are accepted.
#[derive(Clone, Copy, Debug, PartialEq, Eq, Structural)]
pub enum Phase {
    /// Waiting for the TCP connection to be established.
    Connecting,
    /// Both players are placing their ships.
    Placing,
    /// It's our turn to fire a shot.
    MyTurn,
    /// Waiting for the opponent to fire.
    OpponentTurn,
    /// Game is over. `bool` is `true` if we won.
    GameOver(bool),
}

/// Maximum number of chat messages kept in the visible log.
pub const MAX_CHAT_LOG: usize = 5;

/// Idle timeout in seconds: auto-forfeit if a player doesn't act.
pub const IDLE_TIMEOUT_SECS: u64 = 120;

/// Number of `Hit` cells in a row.
pub open spec fn row_hit_count(row: Seq<Cell>) -> nat
    decreases row.len(),
{
    if row.len() == 0 {
        0
    } else {
        row_hit_count(row.drop_last()) + if row.last() == Cell::Hit {
            1nat
        } else {
            0nat
        }
    }
}

/// Number of `Hit` cells in a grid.
pub open spec fn grid_hit_count(rows: Seq<Seq<Cell>>) -> nat
    decreases rows.len(),
{
    if rows.len() == 0 {
        0
    } else {
        grid_hit_count(rows.drop_last()) + row_hit_count(rows.last())
    }
}

/// Total number of cells covered by a list of ship kinds.
pub open spec fn total_size(kinds: Seq<ShipKind>) -> nat
    decreases kinds.len(),
{
    if kinds.len() == 0 {
        0
    } else {
        total_size(kinds.drop_last()) + kinds.last().size() as nat
    }
}

/// The new chat log after a message is appended: the oldest entry goes
/// once the log would hold more than `MAX_CHAT_LOG` entries.
pub open spec fn chat_after(log: Seq<(String, String)>, entry: (String, String)) -> Seq<(String, String)> {
    if log.len() + 1 > MAX_CHAT_LOG {
        log.push(entry).drop_first()
    } else {
        log.push(entry)
    }
}

/// Top-level game state holding both boards, the current phase,
/// and player names.
#[derive(Clone, Debug)]
pub struct GameState {
    /// Our own board showing ship positions and incoming hits.
    pub my_board: Board,
    /// Tracking board: what we know about the opponent's grid
    /// (hits and misses from our shots). Ships are never revealed here.
    pub tracking_board: [[Cell; GRID_SIZE]; GRID_SIZE],
    /// Current game phase.
    pub phase: Phase,
    /// Our display name.
    pub my_name: String,
    /// Opponent's display name.
    pub opponent_name: String,
    /// Chat message log (most recent last), displayed on the game screen.
    pub chat_log: Vec<(String, String)>,
}

impl GameState {
    /// Creates a new game state with empty boards in the `Connecting` phase.
    pub fn new(my_name: String) -> (st: GameState)
        ensures
            st.my_board.wf(),
            st.my_board@.ships.len() == 0,
            forall|p: Pos| on_grid(p) ==> #[trigger] st.my_board@.cell(p) == Cell::Empty,
            forall|p: Pos|
                on_grid(p) ==> #[trigger] cell_of(grid_view(st.tracking_board), p) == Cell::Empty,
            st.phase == Phase::Connecting,
            st.my_name == my_name,
            st.opponent_name@ == Seq::<char>::empty(),
            st.chat_log@.len() == 0,
    {
        GameState {
            my_board: Board::new(),
            tracking_board: empty_grid(),
            phase: Phase::Connecting,
            my_name,
            opponent_name: String::new(),
            chat_log: Vec::new(),
        }
    }

    /// Add a chat message to the log, trimming old entries.
    pub fn push_chat(&mut self, sender: String, text: String)
        ensures
            final(self).chat_log@ == chat_after(old(self).chat_log@, (sender, text)),
            old(self).chat_log@.len() <= MAX_CHAT_LOG ==> final(self).chat_log@.len()
                <= MAX_CHAT_LOG && final(self).chat_log@.last() == (sender, text),
            final(self).my_board == old(self).my_board,
            final(self).tracking_board == old(self).tracking_board,
            final(self).phase == old(self).phase,
            final(self).my_name == old(self).my_name,
            final(self).opponent_name == old(self).opponent_name,
    {
        let ghost entry = (sender, text);
        self.chat_log.push((sender, text));
        if self.chat_log.len() > MAX_CHAT_LOG {
            self.chat_log.remove(0);
            assert(self.chat_log@ =~= old(self).chat_log@.push(entry).drop_first());
        }
    }

    /// Check whether the player has sunk all opponent ships by counting
    /// hits on the tracking board against the total number of ship cells.
    pub fn has_won(&self) -> (r: bool)
        ensures
            r == (grid_hit_count(grid_view(self.tracking_board)) >= total_size(fleet())),
    {
        let all = ShipKind::all();
        let mut total_ship_cells: usize = 0;
        let mut i: usize = 0;
        while i < 5
            invariant
                i <= 5,
                all@ == fleet(),
                total_ship_cells == total_size(fleet().take(i as int)),
                total_ship_cells <= 5 * i,
            decreases 5 - i,
        {
            assert(fleet().take(i + 1).drop_last() =~= fleet().take(i as int));
            total_ship_cells = total_ship_cells + all[i].size();
            i += 1;
        }
        assert(fleet().take(5) =~= fleet());
        let ghost g = grid_view(self.tracking_board);
        let mut hit_count: usize = 0;
        let mut row: usize = 0;
        while row < GRID_SIZE
            invariant
                row <= GRID_SIZE,
                g == grid_view(self.tracking_board),
                hit_count == grid_hit_count(g.take(row as int)),
                hit_count <= GRID_SIZE * row,
            decreases GRID_SIZE - row,
        {
            let mut col: usize = 0;
            let ghost before = hit_count;
            while col < GRID_SIZE
                invariant
                    row < GRID_SIZE,
                    col <= GRID_SIZE,
                    g == grid_view(self.tracking_board),
                    hit_count == before + row_hit_count(g[row as int].take(col as int)),
                    before <= GRID_SIZE * row,
                    hit_count <= before + col,
                decreases GRID_SIZE - col,
            {
                assert(g[row as int].take(col + 1).drop_last() =~= g[row as int].take(col as int));
                assert(g[row as int] == self.tracking_board[row as int]@);
                if self.tracking_board[row][col] == Cell::Hit {
                    hit_count = hit_count + 1;
                }
                col += 1;
            }
            assert(g[row as int].take(GRID_SIZE as int) =~= g[row as int]);
            assert(g.take(row + 1).drop_last() =~= g.take(row as int));
            row += 1;
        }
        assert(g.take(GRID_SIZE as int) =~= g);
        hit_count >= total_ship_cells
    }
}

} // verus!
