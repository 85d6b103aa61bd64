//! Counting cells: the hits on a grid and the cells covered by a fleet,
//! as sets of coordinates.

use vstd::prelude::*;

use crate::game::{grid_hit_count, row_hit_count, total_size, Cell, ShipKind, GRID_SIZE};
use crate::model::{cell_of, on_grid, well_shaped, Pos, ShipView};

verus! {

broadcast use vstd::set_lib::group_set_properties;

/// The coordinates of the grid that show a hit.
pub open spec fn hit_set(g: Seq<Seq<Cell>>) -> Set<Pos> {
    Set::new(|p: Pos| on_grid(p) && cell_of(g, p) == Cell::Hit)
}

/// The coordinates occupied by any of the ships.
pub open spec fn ship_set(ships: Seq<ShipView>) -> Set<Pos> {
    Set::new(
        |p: Pos| exists|i: int| 0 <= i < ships.len() && #[trigger] ships[i].cells.contains(p),
    )
}

/// The hits among the first `c` cells of row `r`.
spec fn row_hits(g: Seq<Seq<Cell>>, r: int, c: int) -> Set<Pos> {
    Set::new(|p: Pos| p.1 as int == r && (p.0 as int) < c && cell_of(g, p) == Cell::Hit)
}

/// The hits among the first `r` rows.
spec fn rows_hits(g: Seq<Seq<Cell>>, r: int) -> Set<Pos> {
    Set::new(|p: Pos| on_grid(p) && (p.1 as int) < r && cell_of(g, p) == Cell::Hit)
}

proof fn lemma_row_hits(g: Seq<Seq<Cell>>, r: int, c: int)
    requires
        well_shaped(g),
        0 <= r < GRID_SIZE,
        0 <= c <= GRID_SIZE,
    ensures
        row_hits(g, r, c).finite(),
        row_hits(g, r, c).len() == row_hit_count(g[r].take(c)),
    decreases c,
{
    if c == 0 {
        assert(row_hits(g, r, c) =~= Set::<Pos>::empty());
        assert(g[r].take(0) =~= Seq::<Cell>::empty());
    } else {
        lemma_row_hits(g, r, c - 1);
        let prev = row_hits(g, r, c - 1);
        let q: Pos = ((c - 1) as u8, r as u8);
        assert(g[r].take(c).drop_last() =~= g[r].take(c - 1));
        assert(cell_of(g, q) == g[r][c - 1]);
        if g[r][c - 1] == Cell::Hit {
            assert(row_hits(g, r, c) =~= prev.insert(q));
            assert(!prev.contains(q));
        } else {
            assert(row_hits(g, r, c) =~= prev);
        }
    }
}

proof fn lemma_rows_hits(g: Seq<Seq<Cell>>, r: int)
    requires
        well_shaped(g),
        0 <= r <= GRID_SIZE,
    ensures
        rows_hits(g, r).finite(),
        rows_hits(g, r).len() == grid_hit_count(g.take(r)),
    decreases r,
{
    if r == 0 {
        assert(rows_hits(g, r) =~= Set::<Pos>::empty());
        assert(g.take(0) =~= Seq::<Seq<Cell>>::empty());
    } else {
        lemma_rows_hits(g, r - 1);
        lemma_row_hits(g, r - 1, GRID_SIZE as int);
        let prev = rows_hits(g, r - 1);
        let row = row_hits(g, r - 1, GRID_SIZE as int);
        assert(g.take(r).drop_last() =~= g.take(r - 1));
        assert(g[r - 1].take(GRID_SIZE as int) =~= g[r - 1]);
        assert(rows_hits(g, r) =~= prev + row);
        assert(prev.disjoint(row));
        vstd::set_lib::lemma_set_disjoint_lens(prev, row);
    }
}

/// The number of hits on a grid is the size of its set of hit coordinates.
pub proof fn lemma_hit_count_is_set_size(g: Seq<Seq<Cell>>)
    requires
        well_shaped(g),
    ensures
        hit_set(g).finite(),
        hit_set(g).len() == grid_hit_count(g),
{
    lemma_rows_hits(g, GRID_SIZE as int);
    assert(g.take(GRID_SIZE as int) =~= g);
    assert(hit_set(g) =~= rows_hits(g, GRID_SIZE as int));
}

/// Total length of the ships' coordinate lists.
pub open spec fn cells_total(ships: Seq<ShipView>) -> nat
    decreases ships.len(),
{
    if ships.len() == 0 {
        0
    } else {
        cells_total(ships.drop_last()) + ships.last().cells.len()
    }
}

/// The kinds of a list of ships.
pub open spec fn kinds_of(ships: Seq<ShipView>) -> Seq<ShipKind> {
    ships.map_values(|s: ShipView| s.kind)
}

/// Ships of distinct coordinates that never overlap cover as many
/// coordinates as their lists hold together.
pub proof fn lemma_ship_set_size(ships: Seq<ShipView>)
    requires
        forall|i: int| 0 <= i < ships.len() ==> (#[trigger] ships[i]).cells.no_duplicates(),
        forall|i: int, j: int, a: int, b: int|
            0 <= i < ships.len() && 0 <= j < ships.len() && i != j && 0 <= a
                < ships[i].cells.len() && 0 <= b < ships[j].cells.len() ==> #[trigger] ships[i].cells[a]
                != #[trigger] ships[j].cells[b],
    ensures
        ship_set(ships).finite(),
        ship_set(ships).len() == cells_total(ships),
    decreases ships.len(),
{
    if ships.len() == 0 {
        assert(ship_set(ships) =~= Set::<Pos>::empty());
    } else {
        let rest = ships.drop_last();
        let last = ships.last();
        let n = ships.len() - 1;
        assert forall|i: int| 0 <= i < rest.len() implies (#[trigger] rest[i]).cells.no_duplicates() by {
            assert(rest[i] == ships[i]);
        }
        assert forall|i: int, j: int, a: int, b: int|
            0 <= i < rest.len() && 0 <= j < rest.len() && i != j && 0 <= a < rest[i].cells.len()
                && 0 <= b < rest[j].cells.len() implies #[trigger] rest[i].cells[a]
            != #[trigger] rest[j].cells[b] by {
            assert(rest[i] == ships[i]);
            assert(rest[j] == ships[j]);
            assert(ships[i].cells[a] != ships[j].cells[b]);
        }
        lemma_ship_set_size(rest);
        assert(ships[n] == last);
        assert(last.cells.no_duplicates());
        last.cells.unique_seq_to_set();
        let tail = last.cells.to_set();
        assert forall|p: Pos| #[trigger] ship_set(ships).contains(p) <==> (ship_set(rest) + tail).contains(p) by {
            if ship_set(ships).contains(p) {
                let i = choose|i: int| 0 <= i < ships.len() && #[trigger] ships[i].cells.contains(p);
                if i < n {
                    assert(rest[i] == ships[i]);
                }
            }
            if ship_set(rest).contains(p) {
                let i = choose|i: int| 0 <= i < rest.len() && #[trigger] rest[i].cells.contains(p);
                assert(rest[i] == ships[i]);
                assert(ships[i].cells.contains(p));
            }
            if tail.contains(p) {
                assert(ships[n].cells.contains(p));
            }
        }
        assert(ship_set(ships) =~= ship_set(rest) + tail);
        assert forall|p: Pos| !(#[trigger] ship_set(rest).contains(p) && tail.contains(p)) by {
            if ship_set(rest).contains(p) && tail.contains(p) {
                let i = choose|i: int| 0 <= i < rest.len() && #[trigger] rest[i].cells.contains(p);
                let a = choose|a: int| 0 <= a < rest[i].cells.len() && rest[i].cells[a] == p;
                let b = choose|b: int| 0 <= b < last.cells.len() && last.cells[b] == p;
                assert(rest[i] == ships[i]);
                assert(ships[i].cells[a] != ships[n].cells[b]);
            }
        }
        assert(ship_set(rest).disjoint(tail));
        vstd::set_lib::lemma_set_disjoint_lens(ship_set(rest), tail);
    }
}

/// When every ship's list has its kind's size, the lists hold together the
/// total size of the kinds.
pub proof fn lemma_cells_total(ships: Seq<ShipView>)
    requires
        forall|i: int| 0 <= i < ships.len() ==> (#[trigger] ships[i]).cells.len() == ships[i].kind.size(),
    ensures
        cells_total(ships) == total_size(kinds_of(ships)),
    decreases ships.len(),
{
    if ships.len() > 0 {
        let rest = ships.drop_last();
        assert forall|i: int| 0 <= i < rest.len() implies (#[trigger] rest[i]).cells.len()
            == rest[i].kind.size() by {
            assert(rest[i] == ships[i]);
        }
        lemma_cells_total(rest);
        assert(kinds_of(ships).drop_last() =~= kinds_of(rest));
        assert(ships[ships.len() - 1] == ships.last());
    }
}

} // verus!
