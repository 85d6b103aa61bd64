//! Mathematical model of a board: a grid of cells and the ships placed on it,
//! with the invariant that ties the two together and the lemmas about it.

use vstd::prelude::*;

use crate::game::{Cell, Orientation, ShipKind, GRID_SIZE};

verus! {

/// A grid coordinate `(column, row)`.
pub type Pos = (u8, u8);

/// Whether a coordinate lies on the 10x10 grid.
pub open spec fn on_grid(p: Pos) -> bool {
    (p.0 as int) < GRID_SIZE && (p.1 as int) < GRID_SIZE
}

/// Whether a grid has the 10x10 shape of a board.
pub open spec fn well_shaped(grid: Seq<Seq<Cell>>) -> bool {
    &&& grid.len() == GRID_SIZE
    &&& forall|r: int| 0 <= r < GRID_SIZE ==> (#[trigger] grid[r]).len() == GRID_SIZE
}

/// The cell of a grid (indexed `grid[row][column]`) at a coordinate.
pub open spec fn cell_of(grid: Seq<Seq<Cell>>, p: Pos) -> Cell {
    grid[p.1 as int][p.0 as int]
}

/// The grid with one cell replaced.
pub open spec fn set_cell(grid: Seq<Seq<Cell>>, p: Pos, c: Cell) -> Seq<Seq<Cell>> {
    grid.update(p.1 as int, grid[p.1 as int].update(p.0 as int, c))
}

/// The grid with every coordinate of `cells` set to `c`, one after another.
pub open spec fn paint(grid: Seq<Seq<Cell>>, cells: Seq<Pos>, c: Cell) -> Seq<Seq<Cell>>
    decreases cells.len(),
{
    if cells.len() == 0 {
        grid
    } else {
        set_cell(paint(grid, cells.drop_last(), c), cells.last(), c)
    }
}

/// How many of the coordinates in `cells` hold `Hit` on the grid.
pub open spec fn count_hits(grid: Seq<Seq<Cell>>, cells: Seq<Pos>) -> nat
    decreases cells.len(),
{
    if cells.len() == 0 {
        0
    } else {
        count_hits(grid, cells.drop_last()) + if cell_of(grid, cells.last()) == Cell::Hit {
            1nat
        } else {
            0nat
        }
    }
}

/// The coordinates a ship of `kind` occupies when placed at `(x, y)` with the
/// given orientation: horizontally it extends right, vertically down.
pub open spec fn footprint(kind: ShipKind, x: u8, y: u8, o: Orientation) -> Seq<Pos> {
    Seq::new(
        kind.size() as nat,
        |i: int|
            match o {
                Orientation::Horizontal => ((x + i) as u8, y),
                Orientation::Vertical => (x, (y + i) as u8),
            },
    )
}

/// Whether the whole footprint of the placement lies on the grid.
pub open spec fn fits(kind: ShipKind, x: u8, y: u8, o: Orientation) -> bool {
    match o {
        Orientation::Horizontal => x + kind.size() <= GRID_SIZE && (y as int) < GRID_SIZE,
        Orientation::Vertical => (x as int) < GRID_SIZE && y + kind.size() <= GRID_SIZE,
    }
}

/// A ship as the model sees it: its kind, its coordinates, its hit counter.
pub struct ShipView {
    pub kind: ShipKind,
    pub cells: Seq<Pos>,
    pub hits: nat,
}

impl ShipView {
    /// Every cell of the ship has been hit.
    pub open spec fn is_sunk(self) -> bool {
        self.hits == self.cells.len()
    }

    /// The ship lies on the grid as placement leaves it: the right length,
    /// distinct on-grid coordinates, each showing the ship or a hit, and a hit
    /// counter equal to the number of its cells that show a hit.
    pub open spec fn placed_on(self, grid: Seq<Seq<Cell>>) -> bool {
        &&& self.cells.len() == self.kind.size()
        &&& self.cells.no_duplicates()
        &&& forall|a: int| 0 <= a < self.cells.len() ==> on_grid(#[trigger] self.cells[a])
        &&& forall|a: int|
            0 <= a < self.cells.len() ==> (cell_of(grid, #[trigger] self.cells[a]) == Cell::Ship(
                self.kind,
            ) || cell_of(grid, self.cells[a]) == Cell::Hit)
        &&& self.hits == count_hits(grid, self.cells)
    }
}

/// A board as the model sees it: the grid `grid[row][column]` and the ships.
pub struct BoardView {
    pub grid: Seq<Seq<Cell>>,
    pub ships: Seq<ShipView>,
}

impl BoardView {
    /// The cell at a coordinate.
    pub open spec fn cell(self, p: Pos) -> Cell {
        cell_of(self.grid, p)
    }

    /// No two ships share a coordinate.
    pub open spec fn disjoint(self) -> bool {
        forall|i: int, j: int, a: int, b: int|
            0 <= i < self.ships.len() && 0 <= j < self.ships.len() && i != j && 0 <= a
                < self.ships[i].cells.len() && 0 <= b < self.ships[j].cells.len()
                ==> #[trigger] self.ships[i].cells[a] != #[trigger] self.ships[j].cells[b]
    }

    /// Every cell that shows a ship or a hit belongs to some placed ship.
    pub open spec fn covered(self) -> bool {
        forall|p: Pos|
            on_grid(p) && ((#[trigger] self.cell(p)) is Ship || self.cell(p) == Cell::Hit)
                ==> exists|i: int|
                0 <= i < self.ships.len() && #[trigger] self.ships[i].cells.contains(p)
    }

    /// The board invariant: a 10x10 grid, every ship placed on it, no two
    /// ships overlapping, and no ship cell without its ship.
    pub open spec fn wf(self) -> bool {
        &&& well_shaped(self.grid)
        &&& forall|i: int| 0 <= i < self.ships.len() ==> #[trigger] self.ships[i].placed_on(self.grid)
        &&& self.disjoint()
        &&& self.covered()
    }

    /// Every cell of `cells` is open water.
    pub open spec fn is_clear(self, cells: Seq<Pos>) -> bool {
        forall|a: int| 0 <= a < cells.len() ==> self.cell(#[trigger] cells[a]) == Cell::Empty
    }

    /// The board after a ship of `kind` is put on `cells`.
    pub open spec fn with_ship(self, kind: ShipKind, cells: Seq<Pos>) -> BoardView {
        BoardView {
            grid: paint(self.grid, cells, Cell::Ship(kind)),
            ships: self.ships.push(ShipView { kind, cells, hits: 0 }),
        }
    }

    /// This board grew out of `before` by placing ships: the earlier ships
    /// are kept, every cell that was not open water is unchanged, and every
    /// cell that changed belongs to one of the added ships.
    pub open spec fn extends(self, before: BoardView) -> bool {
        &&& self.ships.len() >= before.ships.len()
        &&& forall|i: int| 0 <= i < before.ships.len() ==> #[trigger] self.ships[i] == before.ships[i]
        &&& forall|p: Pos|
            on_grid(p) && before.cell(p) != Cell::Empty ==> #[trigger] self.cell(p) == before.cell(p)
        &&& forall|p: Pos|
            on_grid(p) && #[trigger] self.cell(p) != before.cell(p) ==> exists|i: int|
                before.ships.len() <= i < self.ships.len() && #[trigger] self.ships[i].cells.contains(p)
    }

    /// Every ship on the board is sunk.
    pub open spec fn all_sunk(self) -> bool {
        forall|i: int| 0 <= i < self.ships.len() ==> #[trigger] self.ships[i].is_sunk()
    }

    /// The board and the answer `(hit, sunk)` after a shot at `p`:
    /// a ship cell becomes `Hit` and its ship's counter goes up, reporting
    /// the ship's kind if that ship is now sunk; open water becomes `Miss`;
    /// a cell already shot at changes nothing and counts as a miss.
    pub open spec fn fire(self, p: Pos) -> (BoardView, (bool, Option<ShipKind>)) {
        match self.cell(p) {
            Cell::Ship(k) => {
                let after = BoardView {
                    grid: set_cell(self.grid, p, Cell::Hit),
                    ships: self.ships.map_values(
                        |s: ShipView|
                            if s.cells.contains(p) {
                                ShipView { kind: s.kind, cells: s.cells, hits: s.hits + 1 }
                            } else {
                                s
                            },
                    ),
                };
                let sunk = exists|i: int|
                    0 <= i < after.ships.len() && #[trigger] after.ships[i].cells.contains(p)
                        && after.ships[i].is_sunk();
                (after, (true, if sunk { Some(k) } else { None }))
            },
            Cell::Empty => (
                BoardView { grid: set_cell(self.grid, p, Cell::Miss), ships: self.ships },
                (false, None),
            ),
            _ => (self, (false, None)),
        }
    }
}

/// A cursor position after one step up, stopping at the edge of the grid.
pub open spec fn step_up(p: Pos) -> Pos {
    (p.0, if p.1 > 0 { (p.1 - 1) as u8 } else { p.1 })
}

/// A cursor position after one step down, stopping at the edge of the grid.
pub open spec fn step_down(p: Pos) -> Pos {
    (p.0, if p.1 < GRID_SIZE - 1 { (p.1 + 1) as u8 } else { p.1 })
}

/// A cursor position after one step left, stopping at the edge of the grid.
pub open spec fn step_left(p: Pos) -> Pos {
    (if p.0 > 0 { (p.0 - 1) as u8 } else { p.0 }, p.1)
}

/// A cursor position after one step right, stopping at the edge of the grid.
pub open spec fn step_right(p: Pos) -> Pos {
    (if p.0 < GRID_SIZE - 1 { (p.0 + 1) as u8 } else { p.0 }, p.1)
}

// ---------------------------------------------------------------------------
// Lemmas about single cells
// ---------------------------------------------------------------------------

/// Replacing one cell changes that cell only and keeps the grid's shape.
pub proof fn lemma_set_cell(grid: Seq<Seq<Cell>>, p: Pos, c: Cell)
    requires
        well_shaped(grid),
        on_grid(p),
    ensures
        well_shaped(set_cell(grid, p, c)),
        forall|q: Pos|
            on_grid(q) ==> #[trigger] cell_of(set_cell(grid, p, c), q) == if q == p {
                c
            } else {
                cell_of(grid, q)
            },
{
    let g2 = set_cell(grid, p, c);
    assert forall|r: int| 0 <= r < GRID_SIZE implies (#[trigger] g2[r]).len() == GRID_SIZE by {
        if r == p.1 as int {
        } else {
        }
    }
    assert forall|q: Pos| on_grid(q) implies #[trigger] cell_of(g2, q) == if q == p {
        c
    } else {
        cell_of(grid, q)
    } by {
        if q.1 == p.1 {
            if q.0 == p.0 {
                assert(q == p);
            } else {
                assert(q != p);
            }
        } else {
            assert(q != p);
        }
    }
}

/// Painting a list of on-grid cells sets exactly those cells.
pub proof fn lemma_paint(grid: Seq<Seq<Cell>>, cells: Seq<Pos>, c: Cell)
    requires
        well_shaped(grid),
        forall|a: int| 0 <= a < cells.len() ==> on_grid(#[trigger] cells[a]),
    ensures
        well_shaped(paint(grid, cells, c)),
        forall|q: Pos|
            on_grid(q) ==> #[trigger] cell_of(paint(grid, cells, c), q) == if cells.contains(q) {
                c
            } else {
                cell_of(grid, q)
            },
    decreases cells.len(),
{
    if cells.len() > 0 {
        let rest = cells.drop_last();
        assert forall|a: int| 0 <= a < rest.len() implies on_grid(#[trigger] rest[a]) by {
            assert(rest[a] == cells[a]);
        }
        lemma_paint(grid, rest, c);
        assert(on_grid(cells[cells.len() - 1]));
        lemma_set_cell(paint(grid, rest, c), cells.last(), c);
        assert forall|q: Pos| on_grid(q) implies #[trigger] cell_of(paint(grid, cells, c), q) == if cells.contains(q) {
            c
        } else {
            cell_of(grid, q)
        } by {
            if q == cells.last() {
                assert(cells[cells.len() - 1] == q);
            } else if rest.contains(q) {
                let a = choose|a: int| 0 <= a < rest.len() && rest[a] == q;
                assert(cells[a] == q);
            } else {
                if cells.contains(q) {
                    let a = choose|a: int| 0 <= a < cells.len() && cells[a] == q;
                    if a < cells.len() - 1 {
                        assert(rest[a] == q);
                    }
                }
            }
        }
    }
}

// ---------------------------------------------------------------------------
// Lemmas about hit counting
// ---------------------------------------------------------------------------

/// The hit count never exceeds the number of cells; it is zero when no cell
/// shows a hit, and equal to the number of cells exactly when all do.
pub proof fn lemma_count_hits_bounds(grid: Seq<Seq<Cell>>, cells: Seq<Pos>)
    ensures
        count_hits(grid, cells) <= cells.len(),
        (forall|a: int| 0 <= a < cells.len() ==> cell_of(grid, #[trigger] cells[a]) != Cell::Hit)
            ==> count_hits(grid, cells) == 0,
        count_hits(grid, cells) == cells.len() <==> forall|a: int|
            0 <= a < cells.len() ==> cell_of(grid, #[trigger] cells[a]) == Cell::Hit,
    decreases cells.len(),
{
    if cells.len() > 0 {
        let rest = cells.drop_last();
        lemma_count_hits_bounds(grid, rest);
        if forall|a: int| 0 <= a < cells.len() ==> cell_of(grid, #[trigger] cells[a]) != Cell::Hit {
            assert forall|a: int| 0 <= a < rest.len() implies cell_of(grid, #[trigger] rest[a])
                != Cell::Hit by {
                assert(rest[a] == cells[a]);
            }
            assert(cell_of(grid, cells[cells.len() - 1]) != Cell::Hit);
        }
        if count_hits(grid, cells) == cells.len() {
            assert forall|a: int| 0 <= a < cells.len() implies cell_of(grid, #[trigger] cells[a])
                == Cell::Hit by {
                if a < cells.len() - 1 {
                    assert(rest[a] == cells[a]);
                }
            }
        }
        if forall|a: int| 0 <= a < cells.len() ==> cell_of(grid, #[trigger] cells[a]) == Cell::Hit {
            assert forall|a: int| 0 <= a < rest.len() implies cell_of(grid, #[trigger] rest[a])
                == Cell::Hit by {
                assert(rest[a] == cells[a]);
            }
            assert(cell_of(grid, cells[cells.len() - 1]) == Cell::Hit);
        }
    }
}

/// The hit count depends only on the cells counted.
pub proof fn lemma_count_hits_frame(g1: Seq<Seq<Cell>>, g2: Seq<Seq<Cell>>, cells: Seq<Pos>)
    requires
        forall|a: int|
            0 <= a < cells.len() ==> cell_of(g1, #[trigger] cells[a]) == cell_of(g2, cells[a]),
    ensures
        count_hits(g1, cells) == count_hits(g2, cells),
    decreases cells.len(),
{
    if cells.len() > 0 {
        let rest = cells.drop_last();
        assert forall|a: int| 0 <= a < rest.len() implies cell_of(g1, #[trigger] rest[a]) == cell_of(
            g2,
            rest[a],
        ) by {
            assert(rest[a] == cells[a]);
        }
        lemma_count_hits_frame(g1, g2, rest);
        assert(cell_of(g1, cells[cells.len() - 1]) == cell_of(g2, cells[cells.len() - 1]));
    }
}

/// Turning one not-yet-hit cell of a list of distinct cells into a hit
/// raises the list's hit count by one.
pub proof fn lemma_count_hits_strike(grid: Seq<Seq<Cell>>, cells: Seq<Pos>, p: Pos)
    requires
        well_shaped(grid),
        on_grid(p),
        forall|a: int| 0 <= a < cells.len() ==> on_grid(#[trigger] cells[a]),
        cells.no_duplicates(),
        cells.contains(p),
        cell_of(grid, p) != Cell::Hit,
    ensures
        count_hits(set_cell(grid, p, Cell::Hit), cells) == count_hits(grid, cells) + 1,
    decreases cells.len(),
{
    let g2 = set_cell(grid, p, Cell::Hit);
    lemma_set_cell(grid, p, Cell::Hit);
    let rest = cells.drop_last();
    let last = cells.last();
    assert(on_grid(cells[cells.len() - 1]));
    assert forall|a: int| 0 <= a < rest.len() implies on_grid(#[trigger] rest[a]) by {
        assert(rest[a] == cells[a]);
    }
    if last == p {
        assert forall|a: int| 0 <= a < rest.len() implies cell_of(g2, #[trigger] rest[a]) == cell_of(
            grid,
            rest[a],
        ) by {
            assert(rest[a] == cells[a]);
            assert(cells[a] != cells[cells.len() - 1]);
        }
        lemma_count_hits_frame(g2, grid, rest);
    } else {
        let a = choose|a: int| 0 <= a < cells.len() && cells[a] == p;
        assert(a != cells.len() - 1);
        assert(rest[a] == p);
        assert(rest.no_duplicates()) by {
            assert forall|i: int, j: int| 0 <= i < rest.len() && 0 <= j < rest.len() && i != j implies rest[i] != rest[j] by {
                assert(rest[i] == cells[i]);
                assert(rest[j] == cells[j]);
            }
        }
        lemma_count_hits_strike(grid, rest, p);
        assert(cell_of(g2, last) == cell_of(grid, last));
    }
}

/// Changing a cell outside a list of cells leaves the list's hit count alone.
pub proof fn lemma_count_hits_elsewhere(grid: Seq<Seq<Cell>>, cells: Seq<Pos>, p: Pos, c: Cell)
    requires
        well_shaped(grid),
        on_grid(p),
        forall|a: int| 0 <= a < cells.len() ==> on_grid(#[trigger] cells[a]),
        !cells.contains(p),
    ensures
        count_hits(set_cell(grid, p, c), cells) == count_hits(grid, cells),
{
    lemma_set_cell(grid, p, c);
    assert forall|a: int| 0 <= a < cells.len() implies cell_of(set_cell(grid, p, c), #[trigger] cells[a])
        == cell_of(grid, cells[a]) by {
        assert(cells[a] != p);
    }
    lemma_count_hits_frame(set_cell(grid, p, c), grid, cells);
}


// ---------------------------------------------------------------------------
// Lemmas about the board invariant
// ---------------------------------------------------------------------------

/// A footprint that fits lies on the grid, has the ship's length and never
/// repeats a coordinate.
pub proof fn lemma_footprint(kind: ShipKind, x: u8, y: u8, o: Orientation)
    requires
        fits(kind, x, y, o),
    ensures
        footprint(kind, x, y, o).len() == kind.size(),
        forall|a: int|
            0 <= a < footprint(kind, x, y, o).len() ==> on_grid(
                #[trigger] footprint(kind, x, y, o)[a],
            ),
        footprint(kind, x, y, o).no_duplicates(),
{
    let fp = footprint(kind, x, y, o);
    assert forall|i: int, j: int| 0 <= i < fp.len() && 0 <= j < fp.len() && i != j implies fp[i]
        != fp[j] by {
        match o {
            Orientation::Horizontal => {
                assert(fp[i].0 != fp[j].0);
            },
            Orientation::Vertical => {
                assert(fp[i].1 != fp[j].1);
            },
        }
    }
}

/// An empty board satisfies the invariant.
pub proof fn lemma_empty_board_wf(grid: Seq<Seq<Cell>>)
    requires
        well_shaped(grid),
        forall|p: Pos| on_grid(p) ==> #[trigger] cell_of(grid, p) == Cell::Empty,
    ensures
        (BoardView { grid, ships: Seq::empty() }).wf(),
{
}

/// Putting a ship on a clear footprint that fits keeps the invariant.
pub proof fn lemma_with_ship_wf(b: BoardView, kind: ShipKind, x: u8, y: u8, o: Orientation)
    requires
        b.wf(),
        fits(kind, x, y, o),
        b.is_clear(footprint(kind, x, y, o)),
    ensures
        b.with_ship(kind, footprint(kind, x, y, o)).wf(),
{
    let fp = footprint(kind, x, y, o);
    let nb = b.with_ship(kind, fp);
    lemma_footprint(kind, x, y, o);
    lemma_paint(b.grid, fp, Cell::Ship(kind));
    // A coordinate of an existing ship is never in the new footprint.
    assert forall|i: int, a: int|
        0 <= i < b.ships.len() && 0 <= a < b.ships[i].cells.len() implies !fp.contains(
        #[trigger] b.ships[i].cells[a],
    ) by {
        assert(b.ships[i].placed_on(b.grid));
        if fp.contains(b.ships[i].cells[a]) {
            let k = choose|k: int| 0 <= k < fp.len() && fp[k] == b.ships[i].cells[a];
            assert(b.cell(fp[k]) == Cell::Empty);
        }
    }
    assert forall|i: int| 0 <= i < nb.ships.len() implies #[trigger] nb.ships[i].placed_on(
        nb.grid,
    ) by {
        if i == b.ships.len() {
            let s = nb.ships[i];
            assert(s.cells == fp);
            assert forall|a: int| 0 <= a < fp.len() implies cell_of(nb.grid, #[trigger] fp[a])
                == Cell::Ship(kind) by {
                assert(fp.contains(fp[a]));
            }
            lemma_count_hits_bounds(nb.grid, fp);
        } else {
            let s = b.ships[i];
            assert(nb.ships[i] == s);
            assert(s.placed_on(b.grid));
            assert forall|a: int| 0 <= a < s.cells.len() implies cell_of(
                nb.grid,
                #[trigger] s.cells[a],
            ) == cell_of(b.grid, s.cells[a]) by {
                assert(!fp.contains(b.ships[i].cells[a]));
            }
            lemma_count_hits_frame(nb.grid, b.grid, s.cells);
        }
    }
    assert forall|i: int, j: int, a: int, c: int|
        0 <= i < nb.ships.len() && 0 <= j < nb.ships.len() && i != j && 0 <= a
            < nb.ships[i].cells.len() && 0 <= c < nb.ships[j].cells.len() implies #[trigger] nb.ships[i].cells[a]
        != #[trigger] nb.ships[j].cells[c] by {
        if i == b.ships.len() {
            assert(!fp.contains(b.ships[j].cells[c]));
            assert(nb.ships[i].cells[a] == fp[a]);
        } else if j == b.ships.len() {
            assert(!fp.contains(b.ships[i].cells[a]));
            assert(nb.ships[j].cells[c] == fp[c]);
        } else {
            assert(nb.ships[i] == b.ships[i]);
            assert(nb.ships[j] == b.ships[j]);
        }
    }
    assert forall|p: Pos|
        on_grid(p) && ((#[trigger] nb.cell(p)) is Ship || nb.cell(p) == Cell::Hit) implies exists|i: int|
        0 <= i < nb.ships.len() && #[trigger] nb.ships[i].cells.contains(p) by {
        if fp.contains(p) {
            assert(nb.ships[b.ships.len() as int].cells.contains(p));
        } else {
            assert(b.cell(p) is Ship || b.cell(p) == Cell::Hit);
            let i = choose|i: int| 0 <= i < b.ships.len() && #[trigger] b.ships[i].cells.contains(p);
            assert(nb.ships[i] == b.ships[i]);
            assert(nb.ships[i].cells.contains(p));
        }
    }
}

/// Putting a ship on a clear footprint extends the board, and extension is
/// transitive.
pub proof fn lemma_with_ship_extends(
    b: BoardView,
    kind: ShipKind,
    x: u8,
    y: u8,
    o: Orientation,
    start: BoardView,
)
    requires
        b.wf(),
        fits(kind, x, y, o),
        b.is_clear(footprint(kind, x, y, o)),
        b.extends(start),
    ensures
        b.with_ship(kind, footprint(kind, x, y, o)).extends(b),
        b.with_ship(kind, footprint(kind, x, y, o)).extends(start),
{
    let fp = footprint(kind, x, y, o);
    let nb = b.with_ship(kind, fp);
    lemma_footprint(kind, x, y, o);
    lemma_paint(b.grid, fp, Cell::Ship(kind));
    assert forall|p: Pos| on_grid(p) && b.cell(p) != Cell::Empty implies #[trigger] nb.cell(p) == b.cell(
        p,
    ) by {
        if fp.contains(p) {
            let k = choose|k: int| 0 <= k < fp.len() && fp[k] == p;
            assert(b.cell(fp[k]) == Cell::Empty);
        }
    }
    assert forall|p: Pos| on_grid(p) && start.cell(p) != Cell::Empty implies #[trigger] nb.cell(p)
        == start.cell(p) by {
        assert(b.cell(p) == start.cell(p));
    }
    let n = b.ships.len() as int;
    assert(nb.ships[n].cells == fp);
    assert forall|p: Pos| on_grid(p) && #[trigger] nb.cell(p) != b.cell(p) implies exists|i: int|
        b.ships.len() <= i < nb.ships.len() && #[trigger] nb.ships[i].cells.contains(p) by {
        assert(fp.contains(p));
        assert(nb.ships[n].cells.contains(p));
    }
    assert forall|p: Pos| on_grid(p) && #[trigger] nb.cell(p) != start.cell(p) implies exists|i: int|
        start.ships.len() <= i < nb.ships.len() && #[trigger] nb.ships[i].cells.contains(p) by {
        if nb.cell(p) != b.cell(p) {
            assert(fp.contains(p));
            assert(nb.ships[n].cells.contains(p));
        } else {
            assert(b.cell(p) != start.cell(p));
            let i = choose|i: int|
                start.ships.len() <= i < b.ships.len() && #[trigger] b.ships[i].cells.contains(p);
            assert(nb.ships[i] == b.ships[i]);
            assert(nb.ships[i].cells.contains(p));
        }
    }
}

/// The ship of a well-formed board that holds a coordinate is unique.
pub proof fn lemma_unique_owner(b: BoardView, p: Pos, i: int, j: int)
    requires
        b.wf(),
        0 <= i < b.ships.len(),
        0 <= j < b.ships.len(),
        b.ships[i].cells.contains(p),
        b.ships[j].cells.contains(p),
    ensures
        i == j,
{
    if i != j {
        let a = choose|a: int| 0 <= a < b.ships[i].cells.len() && b.ships[i].cells[a] == p;
        let c = choose|c: int| 0 <= c < b.ships[j].cells.len() && b.ships[j].cells[c] == p;
        assert(b.ships[i].cells[a] != b.ships[j].cells[c]);
    }
}

/// A shot at an on-grid coordinate keeps the invariant.
pub proof fn lemma_fire_wf(b: BoardView, p: Pos)
    requires
        b.wf(),
        on_grid(p),
    ensures
        b.fire(p).0.wf(),
{
    let nb = b.fire(p).0;
    lemma_set_cell(b.grid, p, Cell::Hit);
    lemma_set_cell(b.grid, p, Cell::Miss);
    match b.cell(p) {
        Cell::Ship(k) => {
            assert forall|i: int| 0 <= i < nb.ships.len() implies #[trigger] nb.ships[i].placed_on(
                nb.grid,
            ) by {
                let s = b.ships[i];
                assert(s.placed_on(b.grid));
                assert forall|a: int| 0 <= a < s.cells.len() implies (cell_of(
                    nb.grid,
                    #[trigger] s.cells[a],
                ) == Cell::Ship(s.kind) || cell_of(nb.grid, s.cells[a]) == Cell::Hit) by {
                    assert(on_grid(s.cells[a]));
                }
                if s.cells.contains(p) {
                    lemma_count_hits_strike(b.grid, s.cells, p);
                } else {
                    lemma_count_hits_elsewhere(b.grid, s.cells, p, Cell::Hit);
                }
            }
            assert forall|i: int, j: int, a: int, c: int|
                0 <= i < nb.ships.len() && 0 <= j < nb.ships.len() && i != j && 0 <= a
                    < nb.ships[i].cells.len() && 0 <= c < nb.ships[j].cells.len() implies #[trigger] nb.ships[i].cells[a]
                != #[trigger] nb.ships[j].cells[c] by {
                assert(nb.ships[i].cells == b.ships[i].cells);
                assert(nb.ships[j].cells == b.ships[j].cells);
                assert(b.ships[i].cells[a] != b.ships[j].cells[c]);
            }
            assert forall|q: Pos|
                on_grid(q) && ((#[trigger] nb.cell(q)) is Ship || nb.cell(q) == Cell::Hit) implies exists|i: int|
                0 <= i < nb.ships.len() && #[trigger] nb.ships[i].cells.contains(q) by {
                assert(b.cell(q) is Ship || b.cell(q) == Cell::Hit);
                let i = choose|i: int|
                    0 <= i < b.ships.len() && #[trigger] b.ships[i].cells.contains(q);
                assert(nb.ships[i].cells == b.ships[i].cells);
            }
        },
        Cell::Empty => {
            assert forall|i: int| 0 <= i < nb.ships.len() implies #[trigger] nb.ships[i].placed_on(
                nb.grid,
            ) by {
                let s = b.ships[i];
                assert(s.placed_on(b.grid));
                if s.cells.contains(p) {
                    let a = choose|a: int| 0 <= a < s.cells.len() && s.cells[a] == p;
                    assert(cell_of(b.grid, s.cells[a]) == Cell::Empty);
                }
                assert forall|a: int| 0 <= a < s.cells.len() implies (cell_of(
                    nb.grid,
                    #[trigger] s.cells[a],
                ) == Cell::Ship(s.kind) || cell_of(nb.grid, s.cells[a]) == Cell::Hit) by {
                    assert(on_grid(s.cells[a]));
                    assert(s.cells[a] != p);
                }
                lemma_count_hits_elsewhere(b.grid, s.cells, p, Cell::Miss);
            }
            assert forall|q: Pos|
                on_grid(q) && ((#[trigger] nb.cell(q)) is Ship || nb.cell(q) == Cell::Hit) implies exists|i: int|
                0 <= i < nb.ships.len() && #[trigger] nb.ships[i].cells.contains(q) by {
                assert(q != p);
                assert(b.cell(q) is Ship || b.cell(q) == Cell::Hit);
            }
        },
        _ => {},
    }
}

} // verus!
