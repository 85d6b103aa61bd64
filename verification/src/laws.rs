//! Properties of the game that span several operations, proved over the
//! board model.

use vstd::prelude::*;

use crate::game::{
    chat_after, fleet, grid_hit_count, total_size, Cell, Orientation, ShipKind, MAX_CHAT_LOG,
};
use crate::tally::{
    hit_set, kinds_of, lemma_cells_total, lemma_hit_count_is_set_size, lemma_ship_set_size, ship_set,
};
use crate::placement::{placed_fleet_range, placement_move};
use crate::ui::{health_of, own_style, tracking_style, ShipHealth};
use crate::game::kind_name;
use crate::keys::Key;
use crate::text::{coord_label, decimal};
use crate::model::ShipView;
use crate::model::{
    cell_of, fits, footprint, lemma_count_hits_bounds, lemma_set_cell, lemma_with_ship_wf,
    on_grid, set_cell, well_shaped, BoardView, Pos,
};

verus! {

/// Toggling the orientation twice gives back the orientation.
pub proof fn law_toggle_twice(o: Orientation)
    ensures
        o.toggle().toggle() == o,
        o.toggle() != o,
{
}

/// The fleet is the five distinct kinds, Carrier to Destroyer, covering 17
/// cells in all.
pub proof fn law_fleet(i: int, j: int)
    ensures
        fleet().len() == 5,
        0 <= i < 5 && 0 <= j < 5 && i != j ==> fleet()[i] != fleet()[j],
        total_size(fleet()) == 17,
{
    reveal_with_fuel(total_size, 6);
    assert(fleet().drop_last() =~= seq![
        ShipKind::Carrier,
        ShipKind::Battleship,
        ShipKind::Cruiser,
        ShipKind::Submarine,
    ]);
    assert(fleet().drop_last().drop_last() =~= seq![
        ShipKind::Carrier,
        ShipKind::Battleship,
        ShipKind::Cruiser,
    ]);
    assert(fleet().drop_last().drop_last().drop_last() =~= seq![
        ShipKind::Carrier,
        ShipKind::Battleship,
    ]);
    assert(fleet().drop_last().drop_last().drop_last().drop_last() =~= seq![ShipKind::Carrier]);
    assert(fleet().drop_last().drop_last().drop_last().drop_last().drop_last() =~= Seq::<
        ShipKind,
    >::empty());
}

/// On a well-formed board a ship is sunk exactly when every one of its cells
/// shows a hit, and its hit counter never exceeds its size.
pub proof fn law_sunk_iff_all_cells_hit(b: BoardView, i: int)
    requires
        b.wf(),
        0 <= i < b.ships.len(),
    ensures
        b.ships[i].hits <= b.ships[i].kind.size(),
        b.ships[i].is_sunk() <==> forall|a: int|
            0 <= a < b.ships[i].cells.len() ==> b.cell(#[trigger] b.ships[i].cells[a]) == Cell::Hit,
{
    assert(b.ships[i].placed_on(b.grid));
    lemma_count_hits_bounds(b.grid, b.ships[i].cells);
}

/// On a well-formed board every ship is sunk exactly when no cell of the
/// grid still shows a ship.
pub proof fn law_all_sunk_iff_no_ship_cells(b: BoardView)
    requires
        b.wf(),
    ensures
        b.all_sunk() <==> forall|p: Pos| on_grid(p) ==> !(#[trigger] b.cell(p) is Ship),
{
    if b.all_sunk() {
        assert forall|p: Pos| on_grid(p) implies !(#[trigger] b.cell(p) is Ship) by {
            if b.cell(p) is Ship {
                let i = choose|i: int| 0 <= i < b.ships.len() && #[trigger] b.ships[i].cells.contains(p);
                let a = choose|a: int| 0 <= a < b.ships[i].cells.len() && b.ships[i].cells[a] == p;
                law_sunk_iff_all_cells_hit(b, i);
                assert(b.ships[i].is_sunk());
                assert(b.cell(b.ships[i].cells[a]) == Cell::Hit);
            }
        }
    }
    if forall|p: Pos| on_grid(p) ==> !(#[trigger] b.cell(p) is Ship) {
        assert forall|i: int| 0 <= i < b.ships.len() implies #[trigger] b.ships[i].is_sunk() by {
            assert(b.ships[i].placed_on(b.grid));
            assert forall|a: int| 0 <= a < b.ships[i].cells.len() implies b.cell(
                #[trigger] b.ships[i].cells[a],
            ) == Cell::Hit by {
                assert(on_grid(b.ships[i].cells[a]));
            }
            law_sunk_iff_all_cells_hit(b, i);
        }
    }
}

/// A shot at a cell that was already shot at changes nothing and is answered
/// as a miss: firing twice at the same cell never counts twice.
pub proof fn law_second_shot_changes_nothing(b: BoardView, p: Pos)
    requires
        b.wf(),
        on_grid(p),
    ensures
        b.fire(p).0.fire(p) == (b.fire(p).0, (false, Option::<ShipKind>::None)),
{
    lemma_set_cell(b.grid, p, Cell::Hit);
    lemma_set_cell(b.grid, p, Cell::Miss);
}

/// A shot at open water or at a cell already shot at reports no hit and no
/// sinking; a shot at a ship cell always reports a hit.
pub proof fn law_hit_iff_ship_cell(b: BoardView, p: Pos)
    requires
        b.wf(),
        on_grid(p),
    ensures
        b.fire(p).1.0 <==> b.cell(p) is Ship,
        b.fire(p).1.1 is Some ==> b.fire(p).1.0,
        b.fire(p).1.1 matches Some(k) ==> b.cell(p) == Cell::Ship(k),
{
}

/// Hitting the last unhit cell of a ship sinks it, and the shot reports the
/// ship's kind; hitting any other ship cell reports no sinking.
pub proof fn law_sinking_shot(b: BoardView, i: int, a: int)
    requires
        b.wf(),
        0 <= i < b.ships.len(),
        0 <= a < b.ships[i].cells.len(),
        b.cell(b.ships[i].cells[a]) is Ship,
    ensures
        b.fire(b.ships[i].cells[a]).1 == (true, if b.ships[i].hits + 1 == b.ships[i].cells.len() {
            Some(b.ships[i].kind)
        } else {
            None
        }),
{
    let s = b.ships[i];
    let p = s.cells[a];
    assert(s.placed_on(b.grid));
    assert(on_grid(p));
    assert(s.cells.contains(p));
    assert(b.cell(p) == Cell::Ship(s.kind));
    let after = b.fire(p).0;
    assert(after.ships[i].cells.contains(p));
    if s.hits + 1 != s.cells.len() {
        assert forall|j: int|
            0 <= j < after.ships.len() && #[trigger] after.ships[j].cells.contains(p) implies !after.ships[j].is_sunk() by {
            if j != i {
                let c = choose|c: int| 0 <= c < b.ships[j].cells.len() && b.ships[j].cells[c] == p;
                assert(b.ships[i].cells[a] != b.ships[j].cells[c]);
            }
        }
    }
}

/// A ship just put on a clear footprint has taken no hits, so the board is
/// not all sunk afterwards.
pub proof fn law_new_ship_afloat(b: BoardView, kind: ShipKind, x: u8, y: u8, o: Orientation)
    requires
        b.wf(),
        fits(kind, x, y, o),
        b.is_clear(footprint(kind, x, y, o)),
    ensures
        b.with_ship(kind, footprint(kind, x, y, o)).wf(),
        !b.with_ship(kind, footprint(kind, x, y, o)).all_sunk(),
{
    lemma_with_ship_wf(b, kind, x, y, o);
    let nb = b.with_ship(kind, footprint(kind, x, y, o));
    assert(!nb.ships[b.ships.len() as int].is_sunk());
}


/// The answer to a shot matches what the target board shows afterwards: the
/// shot cell is `Hit` when a hit is reported and `Miss` when a miss at open
/// water is reported, so the shooter's tracking board mirrors it.
pub proof fn law_answer_matches_target(b: BoardView, p: Pos)
    requires
        b.wf(),
        on_grid(p),
        b.cell(p) is Ship || b.cell(p) == Cell::Empty,
    ensures
        b.fire(p).0.cell(p) == if b.fire(p).1.0 {
            Cell::Hit
        } else {
            Cell::Miss
        },
{
    lemma_set_cell(b.grid, p, Cell::Hit);
    lemma_set_cell(b.grid, p, Cell::Miss);
}

/// A shot never changes any other cell of the target board, and never
/// changes which ships are placed where.
pub proof fn law_shot_is_local(b: BoardView, p: Pos, q: Pos, i: int)
    requires
        b.wf(),
        on_grid(p),
        on_grid(q),
        q != p,
        0 <= i < b.ships.len(),
    ensures
        b.fire(p).0.cell(q) == b.cell(q),
        b.fire(p).0.ships.len() == b.ships.len(),
        b.fire(p).0.ships[i].kind == b.ships[i].kind,
        b.fire(p).0.ships[i].cells == b.ships[i].cells,
{
    lemma_set_cell(b.grid, p, Cell::Hit);
    lemma_set_cell(b.grid, p, Cell::Miss);
}

/// The chat log keeps at most `MAX_CHAT_LOG` entries, ends with the newest
/// message, and keeps the most recent entries in order.
pub proof fn law_chat_log_bounded(log: Seq<(String, String)>, entry: (String, String))
    requires
        log.len() <= MAX_CHAT_LOG,
    ensures
        chat_after(log, entry).len() <= MAX_CHAT_LOG,
        chat_after(log, entry).last() == entry,
        forall|k: int|
            0 <= k < chat_after(log, entry).len() - 1 ==> #[trigger] chat_after(log, entry)[k]
                == log[log.len() - (chat_after(log, entry).len() - 1) + k],
{
}

/// The tracking board never reveals a ship: a cell holding a ship is drawn
/// exactly like open water there, while our own board shows it.
pub proof fn law_tracking_hides_ships(k: ShipKind)
    ensures
        tracking_style(Cell::Ship(k)) == tracking_style(Cell::Empty),
        own_style(Cell::Ship(k)) != own_style(Cell::Empty),
{
}


/// A tracking board mirrors the opponent's board when it shows a hit exactly
/// where the opponent's board does.
pub open spec fn mirrors(tracking: Seq<Seq<Cell>>, b: BoardView) -> bool {
    forall|p: Pos|
        on_grid(p) ==> ((#[trigger] cell_of(tracking, p) == Cell::Hit) <==> b.cell(p) == Cell::Hit)
}

/// At the start of a battle, an untouched tracking board mirrors a board on
/// which nothing has been hit.
pub proof fn law_fresh_boards_mirror(tracking: Seq<Seq<Cell>>, b: BoardView)
    requires
        forall|p: Pos| on_grid(p) ==> #[trigger] cell_of(tracking, p) == Cell::Empty,
        forall|p: Pos| on_grid(p) ==> #[trigger] b.cell(p) != Cell::Hit,
    ensures
        mirrors(tracking, b),
{
    assert forall|p: Pos| on_grid(p) implies ((#[trigger] cell_of(tracking, p) == Cell::Hit)
        <==> b.cell(p) == Cell::Hit) by {
        assert(b.cell(p) != Cell::Hit);
    }
}

/// One exchange of a shot keeps the mirror: the shooter fires only at a cell
/// of its tracking board that is still open, the target resolves the shot,
/// and the shooter records the answer as a hit or a miss.
pub proof fn law_exchange_keeps_mirror(tracking: Seq<Seq<Cell>>, b: BoardView, p: Pos)
    requires
        b.wf(),
        well_shaped(tracking),
        on_grid(p),
        cell_of(tracking, p) == Cell::Empty,
        mirrors(tracking, b),
    ensures
        well_shaped(
            set_cell(
                tracking,
                p,
                if b.fire(p).1.0 {
                    Cell::Hit
                } else {
                    Cell::Miss
                },
            ),
        ),
        mirrors(
            set_cell(
                tracking,
                p,
                if b.fire(p).1.0 {
                    Cell::Hit
                } else {
                    Cell::Miss
                },
            ),
            b.fire(p).0,
        ),
{
    let mark = if b.fire(p).1.0 {
        Cell::Hit
    } else {
        Cell::Miss
    };
    let t2 = set_cell(tracking, p, mark);
    let b2 = b.fire(p).0;
    lemma_set_cell(tracking, p, mark);
    lemma_set_cell(b.grid, p, Cell::Hit);
    lemma_set_cell(b.grid, p, Cell::Miss);
    assert(b.cell(p) != Cell::Hit);
    assert forall|q: Pos| on_grid(q) implies ((#[trigger] cell_of(t2, q) == Cell::Hit) <==> b2.cell(q)
        == Cell::Hit) by {
        if q != p {
            assert(cell_of(t2, q) == cell_of(tracking, q));
            assert(b2.cell(q) == b.cell(q));
        }
    }
}

/// We win exactly when the opponent's fleet is sunk: if our tracking board
/// mirrors the opponent's board and the opponent placed the five ships of
/// the fleet, our tracking board holds the fleet's 17 hits exactly when
/// every ship of the opponent is sunk.
pub proof fn law_victory_iff_fleet_sunk(tracking: Seq<Seq<Cell>>, b: BoardView)
    requires
        b.wf(),
        well_shaped(tracking),
        kinds_of(b.ships) == fleet(),
        mirrors(tracking, b),
    ensures
        (grid_hit_count(tracking) >= total_size(fleet())) <==> b.all_sunk(),
{
    lemma_hit_count_is_set_size(tracking);
    lemma_hit_count_is_set_size(b.grid);
    let hits = hit_set(b.grid);
    let cells = ship_set(b.ships);
    assert(hit_set(tracking) =~= hits);
    assert forall|i: int| 0 <= i < b.ships.len() implies (#[trigger] b.ships[i]).cells.no_duplicates()
        && b.ships[i].cells.len() == b.ships[i].kind.size() by {
        assert(b.ships[i].placed_on(b.grid));
    }
    lemma_ship_set_size(b.ships);
    lemma_cells_total(b.ships);
    assert(cells.len() == total_size(fleet()));
    // Every hit lies on a ship.
    assert forall|p: Pos| hits.contains(p) implies #[trigger] cells.contains(p) by {
        assert(b.cell(p) == Cell::Hit);
        let i = choose|i: int| 0 <= i < b.ships.len() && #[trigger] b.ships[i].cells.contains(p);
    }
    assert(hits.subset_of(cells));
    vstd::set_lib::lemma_len_subset(hits, cells);
    // All ships are sunk exactly when every ship cell is hit.
    if b.all_sunk() {
        assert forall|p: Pos| cells.contains(p) implies #[trigger] hits.contains(p) by {
            let i = choose|i: int| 0 <= i < b.ships.len() && #[trigger] b.ships[i].cells.contains(p);
            let a = choose|a: int| 0 <= a < b.ships[i].cells.len() && b.ships[i].cells[a] == p;
            law_sunk_iff_all_cells_hit(b, i);
            assert(b.ships[i].is_sunk());
            assert(b.cell(b.ships[i].cells[a]) == Cell::Hit);
            assert(b.ships[i].placed_on(b.grid));
            assert(on_grid(b.ships[i].cells[a]));
        }
        assert(hits =~= cells);
    }
    if grid_hit_count(tracking) >= total_size(fleet()) {
        vstd::set_lib::lemma_subset_equality(hits, cells);
        assert forall|i: int| 0 <= i < b.ships.len() implies #[trigger] b.ships[i].is_sunk() by {
            assert forall|a: int| 0 <= a < b.ships[i].cells.len() implies b.cell(
                #[trigger] b.ships[i].cells[a],
            ) == Cell::Hit by {
                assert(b.ships[i].cells.contains(b.ships[i].cells[a]));
                assert(cells.contains(b.ships[i].cells[a]));
            }
            law_sunk_iff_all_cells_hit(b, i);
        }
    }
}


/// Placing the whole fleet on an empty board, as random placement does from
/// the first ship to the last, leaves exactly the five fleet kinds in fleet
/// order, each unhit.
pub proof fn law_full_placement_is_fleet(before: BoardView, after: BoardView)
    requires
        before.ships.len() == 0,
        placed_fleet_range(before, after, 0, 5),
    ensures
        kinds_of(after.ships) == fleet(),
        forall|i: int| 0 <= i < after.ships.len() ==> (#[trigger] after.ships[i]).hits == 0,
{
    assert forall|i: int| 0 <= i < after.ships.len() implies #[trigger] kinds_of(after.ships)[i]
        == fleet()[i] by {
        assert(after.ships[i].kind == fleet()[0 + (i - 0)]);
    }
    assert(kinds_of(after.ships) =~= fleet());
}


/// A cell's label is its column letter, `A` to `J` from the left, followed
/// by its row number counted from 1: one digit for the first nine rows and
/// `10` for the last. The column comes only from `x`, the row only from `y`.
pub proof fn law_cell_label(x: u8, y: u8)
    requires
        x < 10,
        y < 10,
    ensures
        coord_label(x, y)[0] == "ABCDEFGHIJ"@[x as int],
        y < 9 ==> coord_label(x, y) =~= seq!["ABCDEFGHIJ"@[x as int], "123456789"@[y as int]],
        y == 9 ==> coord_label(x, y) =~= seq!["ABCDEFGHIJ"@[x as int]] + "10"@,
{
    reveal_strlit("ABCDEFGHIJ");
    reveal_strlit("123456789");
    reveal_strlit("10");
    reveal_with_fuel(decimal, 3);
    let col = seq![(65 + x) as char];
    assert(coord_label(x, y) == col + decimal((y + 1) as nat));
    if y < 9 {
        assert(decimal((y + 1) as nat) =~= seq![(49 + y) as char]);
    } else {
        assert(decimal(10) =~= seq!['1', '0']);
    }
}

/// Each ship kind is shown under its own name: Carrier, Battleship,
/// Cruiser, Submarine and Destroyer, no two alike.
pub proof fn law_kind_names(a: ShipKind, b: ShipKind)
    ensures
        kind_name(ShipKind::Carrier) == "Carrier"@,
        kind_name(ShipKind::Battleship) == "Battleship"@,
        kind_name(ShipKind::Cruiser) == "Cruiser"@,
        kind_name(ShipKind::Submarine) == "Submarine"@,
        kind_name(ShipKind::Destroyer) == "Destroyer"@,
        kind_name(a) == kind_name(b) ==> a == b,
{
    reveal_strlit("Carrier");
    reveal_strlit("Battleship");
    reveal_strlit("Cruiser");
    reveal_strlit("Submarine");
    reveal_strlit("Destroyer");
    if a != b {
        assert(kind_name(a) != kind_name(b)) by {
            let na = kind_name(a);
            let nb = kind_name(b);
            if na.len() == nb.len() {
                // Equal lengths only for Cruiser/Carrier (7) and Battleship/Submarine/Destroyer (9).
                assert(na[1] != nb[1] || na[0] != nb[0]);
            }
        }
    }
}

/// On the placement screen the arrows and W, S, D move the cursor one cell
/// in their direction (up and down change only the row, left and right only
/// the column), stopping at the edge of the grid; other keys leave it alone.
pub proof fn law_placement_cursor_moves(c: Pos, key: Key)
    requires
        on_grid(c),
    ensures
        (key == Key::Up || key == Key::Char('w') || key == Key::Char('W')) ==> {
            &&& placement_move(c, key).0 == c.0
            &&& placement_move(c, key).1 as int == if c.1 == 0 { 0 } else { c.1 - 1 }
        },
        (key == Key::Down || key == Key::Char('s') || key == Key::Char('S')) ==> {
            &&& placement_move(c, key).0 == c.0
            &&& placement_move(c, key).1 as int == if c.1 == 9 { 9 } else { c.1 + 1 }
        },
        key == Key::Left ==> {
            &&& placement_move(c, key).1 == c.1
            &&& placement_move(c, key).0 as int == if c.0 == 0 { 0 } else { c.0 - 1 }
        },
        (key == Key::Right || key == Key::Char('d') || key == Key::Char('D')) ==> {
            &&& placement_move(c, key).1 == c.1
            &&& placement_move(c, key).0 as int == if c.0 == 9 { 9 } else { c.0 + 1 }
        },
        !(key == Key::Up || key == Key::Down || key == Key::Left || key == Key::Right
            || key == Key::Char('w') || key == Key::Char('W') || key == Key::Char('s')
            || key == Key::Char('S') || key == Key::Char('d') || key == Key::Char('D'))
            ==> placement_move(c, key) == c,
{
}

/// The health of the first ship of a kind, by index.
proof fn lemma_health_of_first(ships: Seq<ShipView>, k: ShipKind, i: int)
    requires
        0 <= i < ships.len(),
        ships[i].kind == k,
        forall|j: int| 0 <= j < i ==> ships[j].kind != k,
    ensures
        health_of(ships, k) == if ships[i].is_sunk() {
            ShipHealth::Sunk
        } else {
            ShipHealth::Afloat((k.size() - ships[i].hits) as usize)
        },
    decreases i,
{
    if i > 0 {
        assert(ships[0].kind != k);
        let rest = ships.drop_first();
        assert forall|j: int| 0 <= j < i - 1 implies rest[j].kind != k by {
            assert(rest[j] == ships[j + 1]);
        }
        lemma_health_of_first(rest, k, i - 1);
    }
}

/// The fleet health line shows, for each kind, the first ship of that kind
/// on a well-formed board: sunk once all its cells are hit, otherwise afloat
/// with the number of its cells not yet hit, which is its size minus its hits
/// (so an unhit ship shows its full size); a kind with no ship is not placed.
pub proof fn law_fleet_health(b: BoardView, k: ShipKind, i: int)
    requires
        b.wf(),
        0 <= i < b.ships.len(),
        b.ships[i].kind == k,
        forall|j: int| 0 <= j < i ==> b.ships[j].kind != k,
    ensures
        b.ships[i].hits <= k.size(),
        b.ships[i].hits == k.size() ==> health_of(b.ships, k) == ShipHealth::Sunk,
        b.ships[i].hits < k.size() ==> health_of(b.ships, k) == ShipHealth::Afloat(
            (b.ships[i].cells.len() - b.ships[i].hits) as usize,
        ),
        b.ships[i].hits < k.size() ==> health_of(b.ships, k) == ShipHealth::Afloat(
            (k.size() - b.ships[i].hits) as usize,
        ),
        b.ships[i].hits == 0 ==> health_of(b.ships, k) == ShipHealth::Afloat(k.size()),
{
    assert(b.ships[i].placed_on(b.grid));
    lemma_count_hits_bounds(b.grid, b.ships[i].cells);
    lemma_health_of_first(b.ships, k, i);
}

/// A kind with no ship on the board shows as not placed.
pub proof fn law_fleet_health_absent(ships: Seq<ShipView>, k: ShipKind)
    requires
        forall|j: int| 0 <= j < ships.len() ==> ships[j].kind != k,
    ensures
        health_of(ships, k) == ShipHealth::NotPlaced,
    decreases ships.len(),
{
    if ships.len() > 0 {
        let rest = ships.drop_first();
        assert forall|j: int| 0 <= j < rest.len() implies rest[j].kind != k by {
            assert(rest[j] == ships[j + 1]);
        }
        law_fleet_health_absent(rest, k);
    }
}

} // verus!
