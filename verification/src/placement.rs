//! Ship placement phase: a cursor, a rotation, a ghost preview of the ship
//! being placed, and random placement of the remaining ships.

use vstd::prelude::*;

use crate::game::{fleet, kind_name, Board, Cell, Orientation, ShipKind, GRID_SIZE};
use crate::keys::{is_char, key_is, Key};
use crate::model::{
    fits, footprint, lemma_with_ship_extends, on_grid, step_down, step_left,
    step_right, step_up, BoardView, Pos,
};
use crate::random::{gen_below, gen_coin, thread_rng};
use crate::ui::Tint;

verus! {

/// Internal state of the placement screen.
pub struct PlacementState {
    /// Cursor column on the grid (0..9).
    cursor_x: u8,
    /// Cursor row on the grid (0..9).
    cursor_y: u8,
    /// Current orientation for the next ship to be placed.
    orientation: Orientation,
    /// Index into `ShipKind::all()`: which ship we're placing next.
    ship_index: usize,
    /// Status message shown at the bottom (feedback for invalid moves, etc.).
    status: String,
}

/// The placement state as the model sees it.
pub struct PlacementView {
    pub cursor: Pos,
    pub orientation: Orientation,
    pub ship_index: nat,
    pub status: Seq<char>,
}

impl View for PlacementState {
    type V = PlacementView;

    closed spec fn view(&self) -> PlacementView {
        PlacementView {
            cursor: (self.cursor_x, self.cursor_y),
            orientation: self.orientation,
            ship_index: self.ship_index as nat,
            status: self.status@,
        }
    }
}

/// The ship kind being placed, or `None` once all five are placed.
pub open spec fn current_kind(v: PlacementView) -> Option<ShipKind> {
    if v.ship_index < 5 {
        Some(fleet()[v.ship_index as int])
    } else {
        None
    }
}

/// The cells of the ghost preview: the footprint of the current ship at the
/// cursor, or `None` when it does not fit on the grid or all ships are placed.
pub open spec fn ghost(v: PlacementView) -> Option<Seq<Pos>> {
    match current_kind(v) {
        Some(k) => if fits(k, v.cursor.0, v.cursor.1, v.orientation) {
            Some(footprint(k, v.cursor.0, v.cursor.1, v.orientation))
        } else {
            None
        },
        None => None,
    }
}

/// The ghost cannot be placed: it is off the grid or covers a non-empty cell.
pub open spec fn ghost_blocked(b: BoardView, v: PlacementView) -> bool {
    match ghost(v) {
        Some(cells) => !b.is_clear(cells),
        None => true,
    }
}

impl PlacementState {
    /// The cursor stays on the grid and at most five ships are placed.
    #[verifier::type_invariant]
    closed spec fn within_bounds(&self) -> bool {
        &&& (self.cursor_x as int) < GRID_SIZE
        &&& (self.cursor_y as int) < GRID_SIZE
        &&& self.ship_index <= 5
    }

    /// The placement screen at its start: cursor top-left, horizontal, the
    /// Carrier next, no status.
    pub fn new() -> (s: PlacementState)
        ensures
            s@.cursor == (0u8, 0u8),
            s@.orientation == Orientation::Horizontal,
            s@.ship_index == 0,
            s@.status.len() == 0,
    {
        PlacementState {
            cursor_x: 0,
            cursor_y: 0,
            orientation: Orientation::Horizontal,
            ship_index: 0,
            status: String::new(),
        }
    }

    /// The cursor position `(column, row)`.
    pub fn cursor(&self) -> (r: (u8, u8))
        ensures
            r == self@.cursor,
            on_grid(r),
    {
        proof {
            use_type_invariant(self);
        }
        (self.cursor_x, self.cursor_y)
    }

    /// The orientation of the next ship.
    pub fn orientation(&self) -> (r: Orientation)
        ensures
            r == self@.orientation,
    {
        self.orientation
    }

    /// How many ships have been placed so far.
    pub fn ship_index(&self) -> (r: usize)
        ensures
            r == self@.ship_index,
            r <= 5,
    {
        proof {
            use_type_invariant(self);
        }
        self.ship_index
    }

    /// The status message.
    pub fn status(&self) -> (r: &str)
        ensures
            r@ == self@.status,
    {
        self.status.as_str()
    }

    /// Returns the ship kind currently being placed, or `None` if all are done.
    pub fn current_ship(&self) -> (r: Option<ShipKind>)
        ensures
            r == current_kind(self@),
    {
        let all = ShipKind::all();
        if self.ship_index < all.len() {
            Some(all[self.ship_index])
        } else {
            None
        }
    }

    /// Compute the cells that the ghost ship preview would occupy at the
    /// current cursor position and orientation. Returns `None` if any cell
    /// would be out of bounds.
    pub fn ghost_cells(&self) -> (r: Option<Vec<(u8, u8)>>)
        ensures
            match ghost(self@) {
                Some(cells) => r matches Some(v) && v@ == cells,
                None => r is None,
            },
    {
        proof {
            use_type_invariant(self);
        }
        let kind = match self.current_ship() {
            Some(k) => k,
            None => return None,
        };
        let size = kind.size();
        let ghost fp = footprint(kind, self.cursor_x, self.cursor_y, self.orientation);
        let mut cells: Vec<(u8, u8)> = Vec::new();
        let mut i: usize = 0;
        while i < size
            invariant
                i <= size,
                size == kind.size(),
                size <= 5,
                (self.cursor_x as int) < GRID_SIZE,
                (self.cursor_y as int) < GRID_SIZE,
                fp == footprint(kind, self.cursor_x, self.cursor_y, self.orientation),
                cells@ == fp.take(i as int),
            decreases size - i,
        {
            let cell = match self.orientation {
                Orientation::Horizontal => (self.cursor_x + i as u8, self.cursor_y),
                Orientation::Vertical => (self.cursor_x, self.cursor_y + i as u8),
            };
            cells.push(cell);
            assert(cells@ =~= fp.take(i + 1));
            i += 1;
        }
        assert(cells@ =~= fp);
        // Check bounds.
        let mut j: usize = 0;
        while j < cells.len()
            invariant
                j <= cells@.len(),
                cells@ == fp,
                fp == footprint(kind, self.cursor_x, self.cursor_y, self.orientation),
                current_kind(self@) == Some(kind),
                forall|k: int| 0 <= k < j ==> on_grid(#[trigger] fp[k]),
            decreases cells.len() - j,
        {
            let (cx, cy) = cells[j];
            if cx as usize >= GRID_SIZE || cy as usize >= GRID_SIZE {
                assert(!on_grid(fp[j as int]));
                proof {
                    if fits(kind, self.cursor_x, self.cursor_y, self.orientation) {
                        crate::model::lemma_footprint(
                            kind,
                            self.cursor_x,
                            self.cursor_y,
                            self.orientation,
                        );
                    }
                }
                return None;
            }
            j += 1;
        }
        assert(on_grid(fp[size - 1]));
        Some(cells)
    }

    /// Check if the ghost ship overlaps any already-placed ship on the board
    /// (out of bounds counts as invalid too).
    pub fn ghost_overlaps(&self, board: &Board) -> (r: bool)
        ensures
            r == ghost_blocked(board@, self@),
    {
        match self.ghost_cells() {
            Some(cells) => {
                let ghost fp = cells@;
                proof {
                    use_type_invariant(self);
                    let k = current_kind(self@)->0;
                    crate::model::lemma_footprint(k, self.cursor_x, self.cursor_y, self.orientation);
                }
                let mut j: usize = 0;
                while j < cells.len()
                    invariant
                        j <= cells@.len(),
                        cells@ == fp,
                        ghost(self@) == Some(fp),
                        forall|a: int| 0 <= a < fp.len() ==> on_grid(#[trigger] fp[a]),
                        forall|k: int| 0 <= k < j ==> board@.cell(#[trigger] fp[k]) == Cell::Empty,
                    decreases cells.len() - j,
                {
                    let (cx, cy) = cells[j];
                    assert(on_grid(fp[j as int]));
                    if crate::game::read_cell(&board.grid, cx as usize, cy as usize) != Cell::Empty {
                        assert(board@.cell(fp[j as int]) != Cell::Empty);
                        return true;
                    }
                    j += 1;
                }
                false
            },
            None => true,
        }
    }
}


/// What the placement loop does after a key press.
#[derive(Debug, Clone, Copy, PartialEq, Eq, Structural)]
pub enum PlacementStep {
    /// Keep placing.
    Continue,
    /// Place all remaining ships at random (see `auto_place_remaining`).
    AutoPlace,
    /// The player left the placement screen.
    Quit,
}

/// The cursor after a key on the placement screen: the arrows, W, S and D
/// move it (A is auto-place here, so only the arrow moves left).
pub open spec fn placement_move(c: Pos, key: Key) -> Pos {
    if key == Key::Up || is_char(key, 'w', 'W') {
        step_up(c)
    } else if key == Key::Down || is_char(key, 's', 'S') {
        step_down(c)
    } else if key == Key::Left {
        step_left(c)
    } else if key == Key::Right || is_char(key, 'd', 'D') {
        step_right(c)
    } else {
        c
    }
}

/// Enter or Space places the current ship.
pub open spec fn is_place_key(key: Key) -> bool {
    key == Key::Enter || key == Key::Char(' ')
}

/// Why a placement was refused.
pub open spec fn refusal(kind: ShipKind, x: u8, y: u8, o: Orientation) -> Seq<char> {
    if !fits(kind, x, y, o) {
        "Ship placement is out of bounds"@
    } else {
        "Ship overlaps with an existing ship"@
    }
}

/// Handle one key on the placement screen. The status line is cleared first;
/// the arrows/WASD move the cursor, R rotates, Enter or Space places the
/// current ship at the cursor (the cursor then returns to the top-left
/// corner), A asks for random placement of the rest, Esc leaves.
pub fn placement_input(board: &mut Board, state: &mut PlacementState, key: Key) -> (r:
    PlacementStep)
    ensures
        old(board).wf() ==> final(board).wf(),
        r == if is_char(key, 'a', 'A') {
            PlacementStep::AutoPlace
        } else if key == Key::Esc {
            PlacementStep::Quit
        } else {
            PlacementStep::Continue
        },
        !is_place_key(key) ==> *final(board) == *old(board) && final(state)@ == (PlacementView {
            cursor: placement_move(old(state)@.cursor, key),
            orientation: if is_char(key, 'r', 'R') {
                old(state)@.orientation.toggle()
            } else {
                old(state)@.orientation
            },
            ship_index: old(state)@.ship_index,
            status: Seq::empty(),
        }),
        is_place_key(key) ==> match current_kind(old(state)@) {
            None => *final(board) == *old(board) && final(state)@ == (PlacementView {
                status: Seq::empty(),
                ..old(state)@
            }),
            Some(k) => {
                let (x, y) = old(state)@.cursor;
                let o = old(state)@.orientation;
                let fp = footprint(k, x, y, o);
                if fits(k, x, y, o) && old(board)@.is_clear(fp) {
                    &&& final(board)@ == old(board)@.with_ship(k, fp)
                    &&& final(state)@ == (PlacementView {
                        cursor: (0u8, 0u8),
                        orientation: o,
                        ship_index: old(state)@.ship_index + 1,
                        status: kind_name(k) + " placed!"@,
                    })
                } else {
                    &&& *final(board) == *old(board)
                    &&& final(state)@ == (PlacementView {
                        status: "Cannot place: "@ + refusal(k, x, y, o),
                        ..old(state)@
                    })
                }
            },
        },
{
    proof {
        use_type_invariant(&*state);
    }
    // Clear the previous status on each key press.
    state.status = String::new();
    if key == Key::Up || key_is(key, 'w', 'W') {
        if state.cursor_y > 0 {
            state.cursor_y = state.cursor_y - 1;
        }
        PlacementStep::Continue
    } else if key == Key::Down || key_is(key, 's', 'S') {
        if state.cursor_y < (GRID_SIZE as u8 - 1) {
            state.cursor_y = state.cursor_y + 1;
        }
        PlacementStep::Continue
    } else if key == Key::Left {
        if state.cursor_x > 0 {
            state.cursor_x = state.cursor_x - 1;
        }
        PlacementStep::Continue
    } else if key == Key::Right || key_is(key, 'd', 'D') {
        if state.cursor_x < (GRID_SIZE as u8 - 1) {
            state.cursor_x = state.cursor_x + 1;
        }
        PlacementStep::Continue
    } else if key_is(key, 'r', 'R') {
        state.orientation = state.orientation.toggle();
        PlacementStep::Continue
    } else if key == Key::Enter || key == Key::Char(' ') {
        if let Some(kind) = state.current_ship() {
            match board.place_ship(kind, state.cursor_x, state.cursor_y, state.orientation) {
                Ok(()) => {
                    let mut s = String::from_str(kind.name());
                    s.append(" placed!");
                    state.status = s;
                    state.ship_index = state.ship_index + 1;
                    // Reset the cursor to the origin for the next ship.
                    state.cursor_x = 0;
                    state.cursor_y = 0;
                },
                Err(msg) => {
                    let mut s = String::from_str("Cannot place: ");
                    s.append(msg);
                    state.status = s;
                },
            }
        }
        PlacementStep::Continue
    } else if key_is(key, 'a', 'A') {
        PlacementStep::AutoPlace
    } else if key == Key::Esc {
        PlacementStep::Quit
    } else {
        PlacementStep::Continue
    }
}

/// Ships `start..end` of the fleet were added to `before` by placement,
/// giving `after`: the earlier ships and non-empty cells are kept, and each
/// new ship is of the next fleet kind, unhit, on a footprint that fits.
pub open spec fn placed_fleet_range(before: BoardView, after: BoardView, start: nat, end: nat) -> bool {
    &&& start <= end <= 5
    &&& after.extends(before)
    &&& after.ships.len() == before.ships.len() + (end - start)
    &&& forall|k: int|
        before.ships.len() <= k < after.ships.len() ==> {
            &&& (#[trigger] after.ships[k]).kind == fleet()[start + (k - before.ships.len())]
            &&& after.ships[k].hits == 0
            &&& exists|x: u8, y: u8, o: Orientation|
                fits(after.ships[k].kind, x, y, o) && after.ships[k].cells == footprint(
                    after.ships[k].kind,
                    x,
                    y,
                    o,
                )
        }
}

/// A ship of `kind` can go at `(x, y)` with orientation `o`: its footprint
/// lies on the grid and covers only open water.
pub open spec fn spot_free(b: BoardView, kind: ShipKind, x: u8, y: u8, o: Orientation) -> bool {
    fits(kind, x, y, o) && b.is_clear(footprint(kind, x, y, o))
}

/// Somewhere on the board there is room for a ship of `kind`.
pub open spec fn has_room(b: BoardView, kind: ShipKind) -> bool {
    exists|x: u8, y: u8, o: Orientation| spot_free(b, kind, x, y, o)
}

/// Putting the next fleet ship on a free spot extends a placement run by one.
proof fn lemma_place_next(
    start: BoardView,
    before: BoardView,
    first: nat,
    idx: nat,
    kind: ShipKind,
    x: u8,
    y: u8,
    o: Orientation,
)
    requires
        before.wf(),
        idx < 5,
        kind == fleet()[idx as int],
        placed_fleet_range(start, before, first, idx),
        spot_free(before, kind, x, y, o),
    ensures
        placed_fleet_range(start, before.with_ship(kind, footprint(kind, x, y, o)), first, idx + 1),
{
    lemma_with_ship_extends(before, kind, x, y, o, start);
    let nb = before.with_ship(kind, footprint(kind, x, y, o));
    assert forall|k: int| start.ships.len() <= k < nb.ships.len() implies {
        &&& (#[trigger] nb.ships[k]).kind == fleet()[first + (k - start.ships.len())]
        &&& nb.ships[k].hits == 0
        &&& exists|x: u8, y: u8, o: Orientation|
            fits(nb.ships[k].kind, x, y, o) && nb.ships[k].cells == footprint(
                nb.ships[k].kind,
                x,
                y,
                o,
            )
    } by {
        if k < before.ships.len() {
            assert(nb.ships[k] == before.ships[k]);
        } else {
            assert(nb.ships[k].cells == footprint(kind, x, y, o));
        }
    }
}

/// Put a ship of `kind` on the first free spot, scanning horizontal
/// placements row by row and then vertical ones. Gives the spot used, or
/// `None` (board unchanged) when there is no room for it anywhere.
fn place_first_free(board: &mut Board, kind: ShipKind) -> (r: Option<(u8, u8, Orientation)>)
    requires
        old(board).wf(),
    ensures
        final(board).wf(),
        match r {
            Some((x, y, o)) => {
                &&& spot_free(old(board)@, kind, x, y, o)
                &&& final(board)@ == old(board)@.with_ship(kind, footprint(kind, x, y, o))
            },
            None => {
                &&& !has_room(old(board)@, kind)
                &&& *final(board) == *old(board)
            },
        },
{
    let ghost b0 = *board;
    let mut oi: u8 = 0;
    while oi < 2
        invariant
            oi <= 2,
            *board == b0,
            b0 == *old(board),
            b0.wf(),
            forall|x: u8, y: u8, o: Orientation|
                (if o == Orientation::Horizontal { 0u8 } else { 1u8 }) < oi ==> !spot_free(
                    b0@,
                    kind,
                    x,
                    y,
                    o,
                ),
        decreases 2 - oi,
    {
        let o = if oi == 0 {
            Orientation::Horizontal
        } else {
            Orientation::Vertical
        };
        let mut y: u8 = 0;
        while y < GRID_SIZE as u8
            invariant
                oi < 2,
                o == (if oi == 0 { Orientation::Horizontal } else { Orientation::Vertical }),
                y <= GRID_SIZE,
                *board == b0,
                b0 == *old(board),
                b0.wf(),
                forall|x: u8, yy: u8, oo: Orientation|
                    (if oo == Orientation::Horizontal { 0u8 } else { 1u8 }) < oi ==> !spot_free(
                        b0@,
                        kind,
                        x,
                        yy,
                        oo,
                    ),
                forall|x: u8, yy: u8| yy < y ==> !spot_free(b0@, kind, x, yy, o),
            decreases GRID_SIZE - y,
        {
            let mut x: u8 = 0;
            while x < GRID_SIZE as u8
                invariant
                    oi < 2,
                    o == (if oi == 0 { Orientation::Horizontal } else { Orientation::Vertical }),
                    y < GRID_SIZE,
                    x <= GRID_SIZE,
                    *board == b0,
                    b0 == *old(board),
                    b0.wf(),
                    forall|xx: u8, yy: u8, oo: Orientation|
                        (if oo == Orientation::Horizontal { 0u8 } else { 1u8 }) < oi
                            ==> !spot_free(b0@, kind, xx, yy, oo),
                    forall|xx: u8, yy: u8| yy < y ==> !spot_free(b0@, kind, xx, yy, o),
                    forall|xx: u8| xx < x ==> !spot_free(b0@, kind, xx, y, o),
                decreases GRID_SIZE - x,
            {
                if board.place_ship(kind, x, y, o).is_ok() {
                    return Some((x, y, o));
                }
                x = x + 1;
            }
            proof {
                assert forall|xx: u8| !spot_free(b0@, kind, xx, y, o) by {
                    if xx >= GRID_SIZE {
                        assert(!fits(kind, xx, y, o));
                    }
                }
            }
            y = y + 1;
        }
        proof {
            assert forall|xx: u8, yy: u8| !spot_free(b0@, kind, xx, yy, o) by {
                if yy >= GRID_SIZE {
                    assert(!fits(kind, xx, yy, o));
                }
            }
        }
        oi = oi + 1;
    }
    proof {
        assert forall|x: u8, y: u8, o: Orientation| !spot_free(b0@, kind, x, y, o) by {
            match o {
                Orientation::Horizontal => {},
                Orientation::Vertical => {},
            }
        }
    }
    None
}

/// Number of random positions tried for one ship before the spot is taken
/// by a scan of the board instead.
pub const AUTO_PLACE_TRIES: usize = 1000;

/// Randomly place the remaining ships (from the current one onward): for each
/// ship, random positions and orientations are tried until one fits, at most
/// `AUTO_PLACE_TRIES` times, after which the first free spot on the board is
/// taken. Returns `true` once every ship is placed, and `false` only when a
/// ship has no room anywhere on the board; the ships placed so far stay.
pub fn auto_place_remaining(board: &mut Board, state: &mut PlacementState) -> (r: bool)
    requires
        old(board).wf(),
    ensures
        final(board).wf(),
        placed_fleet_range(old(board)@, final(board)@, old(state)@.ship_index, final(state)@.ship_index),
        r == (final(state)@.ship_index == 5),
        !r ==> !has_room(final(board)@, fleet()[final(state)@.ship_index as int]),
        final(state)@.cursor == old(state)@.cursor,
        final(state)@.orientation == old(state)@.orientation,
        final(state)@.status == old(state)@.status,
{
    proof {
        use_type_invariant(&*state);
    }
    let mut rng = thread_rng();
    let all = ShipKind::all();
    let ghost start = board@;
    let ghost first = state.ship_index as nat;
    assert(start.extends(start));
    while state.ship_index < all.len()
        invariant
            all@ == fleet(),
            board.wf(),
            start == old(board)@,
            first == old(state)@.ship_index,
            placed_fleet_range(start, board@, first, state@.ship_index),
            state@.cursor == old(state)@.cursor,
            state@.orientation == old(state)@.orientation,
            state@.status == old(state)@.status,
            state.ship_index <= 5,
        decreases 5 - state.ship_index,
    {
        proof {
            use_type_invariant(&*state);
        }
        let kind = all[state.ship_index];
        let ghost idx0 = state.ship_index;
        let mut placed = false;
        let mut tries: usize = 0;
        while tries < AUTO_PLACE_TRIES && !placed
            invariant
                all@ == fleet(),
                board.wf(),
                idx0 < 5,
                kind == fleet()[idx0 as int],
                state.ship_index == idx0 + if placed {
                    1usize
                } else {
                    0usize
                },
                start == old(board)@,
                first == old(state)@.ship_index,
                placed_fleet_range(start, board@, first, state@.ship_index),
                state@.cursor == old(state)@.cursor,
                state@.orientation == old(state)@.orientation,
                state@.status == old(state)@.status,
                state.ship_index <= 5,
                tries <= AUTO_PLACE_TRIES,
            decreases AUTO_PLACE_TRIES - tries, (if placed { 0int } else { 1int }),
        {
            proof {
                use_type_invariant(&*state);
            }
            let x = gen_below(&mut rng, GRID_SIZE as u8);
            let y = gen_below(&mut rng, GRID_SIZE as u8);
            let orientation = if gen_coin(&mut rng) {
                Orientation::Horizontal
            } else {
                Orientation::Vertical
            };
            let ghost before = board@;
            if board.place_ship(kind, x, y, orientation).is_ok() {
                proof {
                    lemma_place_next(start, before, first, idx0 as nat, kind, x, y, orientation);
                }
                state.ship_index = state.ship_index + 1;
                placed = true;
            }
            tries += 1;
        }
        if !placed {
            let ghost before = board@;
            match place_first_free(board, kind) {
                Some((x, y, o)) => {
                    proof {
                        lemma_place_next(start, before, first, idx0 as nat, kind, x, y, o);
                    }
                    state.ship_index = state.ship_index + 1;
                },
                None => {
                    return false;
                },
            }
        }
    }
    true
}

/// Record on the status line that auto-placement finished.
pub fn mark_auto_placed(state: &mut PlacementState)
    ensures
        final(state)@ == (PlacementView { status: "All ships auto-placed!"@, ..old(state)@ }),
{
    proof {
        use_type_invariant(&*state);
    }
    state.status = String::from_str("All ships auto-placed!");
}

/// Record on the status line that every ship is placed.
pub fn mark_all_placed(state: &mut PlacementState)
    ensures
        final(state)@ == (PlacementView {
            status: "All ships placed! Ready for battle."@,
            ..old(state)@
        }),
{
    proof {
        use_type_invariant(&*state);
    }
    state.status = String::from_str("All ships placed! Ready for battle.");
}


// ---------------------------------------------------------------------------
// What the placement screen shows
// ---------------------------------------------------------------------------

/// How a cell of the placement grid is drawn: the ghost preview in green
/// where it can be placed and red where it cannot, otherwise the board cell.
pub open spec fn placement_style(b: BoardView, v: PlacementView, p: Pos) -> (char, Tint) {
    if ghost(v) matches Some(cells) && cells.contains(p) {
        (
            '\u{2588}',
            if ghost_blocked(b, v) {
                Tint::Red
            } else {
                Tint::Green
            },
        )
    } else {
        match b.cell(p) {
            Cell::Empty => ('\u{b7}', Tint::DarkBlue),
            Cell::Ship(_) => ('\u{25a0}', Tint::White),
            Cell::Hit => ('\u{2715}', Tint::Red),
            Cell::Miss => ('\u{25cb}', Tint::DarkGrey),
        }
    }
}

/// Whether a list of coordinates holds `p`.
fn cells_contain(cells: &Vec<(u8, u8)>, p: (u8, u8)) -> (r: bool)
    ensures
        r == cells@.contains(p),
{
    let mut i: usize = 0;
    while i < cells.len()
        invariant
            i <= cells@.len(),
            forall|k: int| 0 <= k < i ==> cells@[k] != p,
        decreases cells.len() - i,
    {
        if cells[i].0 == p.0 && cells[i].1 == p.1 {
            assert(cells@[i as int] == p);
            return true;
        }
        i += 1;
    }
    false
}

/// The glyph and colour of every cell of the placement grid, row by row.
pub fn placement_grid(board: &Board, state: &PlacementState) -> (r: Vec<Vec<(char, Tint)>>)
    ensures
        r@.len() == GRID_SIZE,
        forall|row: int| 0 <= row < GRID_SIZE ==> (#[trigger] r@[row])@.len() == GRID_SIZE,
        forall|row: int, col: int|
            0 <= row < GRID_SIZE && 0 <= col < GRID_SIZE ==> #[trigger] r@[row]@[col]
                == placement_style(board@, state@, (col as u8, row as u8)),
{
    let ghost_cells = state.ghost_cells();
    let ghost_valid = !state.ghost_overlaps(board);
    let mut r: Vec<Vec<(char, Tint)>> = Vec::new();
    let mut row: usize = 0;
    while row < GRID_SIZE
        invariant
            row <= GRID_SIZE,
            r@.len() == row,
            match ghost(state@) {
                Some(cells) => ghost_cells matches Some(v) && v@ == cells,
                None => ghost_cells is None,
            },
            ghost_valid == !ghost_blocked(board@, state@),
            forall|i: int| 0 <= i < row ==> (#[trigger] r@[i])@.len() == GRID_SIZE,
            forall|i: int, col: int|
                0 <= i < row && 0 <= col < GRID_SIZE ==> #[trigger] r@[i]@[col]
                    == placement_style(board@, state@, (col as u8, i as u8)),
        decreases GRID_SIZE - row,
    {
        let mut line: Vec<(char, Tint)> = Vec::new();
        let mut col: usize = 0;
        while col < GRID_SIZE
            invariant
                row < GRID_SIZE,
                col <= GRID_SIZE,
                line@.len() == col,
                match ghost(state@) {
                    Some(cells) => ghost_cells matches Some(v) && v@ == cells,
                    None => ghost_cells is None,
                },
                ghost_valid == !ghost_blocked(board@, state@),
                forall|c: int|
                    0 <= c < col ==> #[trigger] line@[c] == placement_style(
                        board@,
                        state@,
                        (c as u8, row as u8),
                    ),
            decreases GRID_SIZE - col,
        {
            let p = (col as u8, row as u8);
            let is_ghost = match &ghost_cells {
                Some(cells) => cells_contain(cells, p),
                None => false,
            };
            let style = if is_ghost {
                if ghost_valid {
                    ('\u{2588}', Tint::Green)
                } else {
                    ('\u{2588}', Tint::Red)
                }
            } else {
                match crate::game::read_cell(&board.grid, col, row) {
                    Cell::Empty => ('\u{b7}', Tint::DarkBlue),
                    Cell::Ship(_) => ('\u{25a0}', Tint::White),
                    Cell::Hit => ('\u{2715}', Tint::Red),
                    Cell::Miss => ('\u{25cb}', Tint::DarkGrey),
                }
            };
            line.push(style);
            col += 1;
        }
        r.push(line);
        row += 1;
    }
    r
}

/// How a ship kind appears in the list under the placement grid.
#[derive(Debug, Clone, Copy, PartialEq, Eq, Structural)]
pub enum ListMark {
    /// Already placed (dimmed).
    Placed,
    /// Being placed now (highlighted).
    Current,
    /// Not yet placed.
    Pending,
}

/// The mark of the `i`-th kind of the fleet while ship `ship_index` is placed.
pub fn list_mark(i: usize, ship_index: usize) -> (r: ListMark)
    ensures
        r == if i < ship_index {
            ListMark::Placed
        } else if i == ship_index {
            ListMark::Current
        } else {
            ListMark::Pending
        },
{
    if i < ship_index {
        ListMark::Placed
    } else if i == ship_index {
        ListMark::Current
    } else {
        ListMark::Pending
    }
}

/// The orientation indicator text.
pub fn orientation_label(o: Orientation) -> (r: &'static str)
    ensures
        r@ == match o {
            Orientation::Horizontal => "Horizontal \u{2192}"@,
            Orientation::Vertical => "Vertical \u{2193}"@,
        },
{
    match o {
        Orientation::Horizontal => "Horizontal \u{2192}",
        Orientation::Vertical => "Vertical \u{2193}",
    }
}

} // verus!
