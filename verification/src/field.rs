//! The mathematical model: a rectangular field of cells on a torus, the
//! neighbour count, the B3/S23 rule and the generation step.

use vstd::prelude::*;

verus! {

/// A field is a non-empty list of rows that all have the same positive length.
pub open spec fn is_field(cells: Seq<Seq<bool>>) -> bool {
    &&& cells.len() > 0
    &&& cells[0].len() > 0
    &&& forall|r: int| 0 <= r < cells.len() ==> (#[trigger] cells[r]).len() == cells[0].len()
}

/// Number of rows.
pub open spec fn height_of(cells: Seq<Seq<bool>>) -> int {
    cells.len() as int
}

/// Number of columns (the length of the first row).
pub open spec fn width_of(cells: Seq<Seq<bool>>) -> int {
    cells[0].len() as int
}

/// Whether `(r, c)` names a cell of the field.
pub open spec fn in_bounds(cells: Seq<Seq<bool>>, r: int, c: int) -> bool {
    0 <= r < height_of(cells) && 0 <= c < width_of(cells)
}

/// The coordinate `i` wrapped onto a ring of `n` positions: `-1` is `n - 1`, `n` is `0`.
pub open spec fn wrap(i: int, n: int) -> int {
    i % n
}

/// The cell at `(r, c)` on the torus: both coordinates wrap.
pub open spec fn cell_at(cells: Seq<Seq<bool>>, r: int, c: int) -> bool {
    cells[wrap(r, height_of(cells))][wrap(c, width_of(cells))]
}

/// One for a live cell, zero for a dead one.
pub open spec fn live(alive: bool) -> nat {
    if alive { 1 } else { 0 }
}

/// How many of the eight cells around `(r, c)` on the torus are alive.
pub open spec fn live_neighbors(cells: Seq<Seq<bool>>, r: int, c: int) -> nat {
    live(cell_at(cells, r - 1, c - 1)) + live(cell_at(cells, r - 1, c))
        + live(cell_at(cells, r - 1, c + 1))
        + live(cell_at(cells, r, c - 1)) + live(cell_at(cells, r, c + 1))
        + live(cell_at(cells, r + 1, c - 1)) + live(cell_at(cells, r + 1, c))
        + live(cell_at(cells, r + 1, c + 1))
}

/// The rule B3/S23: a live cell survives with two or three live neighbours,
/// a dead cell is born with exactly three.
pub open spec fn next_state(alive: bool, neighbors: nat) -> bool {
    (alive && (neighbors == 2 || neighbors == 3)) || (!alive && neighbors == 3)
}

/// The next generation: every cell is decided from the current field alone.
pub open spec fn step(cells: Seq<Seq<bool>>) -> Seq<Seq<bool>> {
    Seq::new(
        cells.len(),
        |r: int| Seq::new(
            cells[0].len(),
            |c: int| next_state(cells[r][c], live_neighbors(cells, r, c)),
        ),
    )
}

/// The field after `n` generations.
pub open spec fn evolve(cells: Seq<Seq<bool>>, n: nat) -> Seq<Seq<bool>>
    decreases n,
{
    if n == 0 {
        cells
    } else {
        step(evolve(cells, (n - 1) as nat))
    }
}

/// The field with the cell at `(r, c)` replaced by `alive`.
pub open spec fn with_cell(cells: Seq<Seq<bool>>, r: int, c: int, alive: bool) -> Seq<Seq<bool>> {
    cells.update(r, cells[r].update(c, alive))
}

/// The offsets, relative to the centre cell, of the five cells of the seed pattern.
pub open spec fn in_seed(dr: int, dc: int) -> bool {
    ||| (dr == -1 && dc == -1)
    ||| (dr == -1 && dc == 0)
    ||| (dr == 0 && dc == -2)
    ||| (dr == 0 && dc == -1)
    ||| (dr == 1 && dc == -1)
}

/// The field with the seed pattern laid over it around the centre cell
/// `(height / 2, width / 2)`. Live cells stay alive. Coordinates do not wrap
/// here: a cell is seeded only if its own distance to the centre is an offset
/// of the pattern.
pub open spec fn seeded(cells: Seq<Seq<bool>>) -> Seq<Seq<bool>> {
    Seq::new(
        cells.len(),
        |r: int| Seq::new(
            cells[0].len(),
            |c: int| cells[r][c] || in_seed(r - height_of(cells) / 2, c - width_of(cells) / 2),
        ),
    )
}

/// The field with the cell at `(r, c)` alive if there is such a cell, and the
/// field unchanged if there is none.
pub open spec fn with_live_cell(cells: Seq<Seq<bool>>, r: int, c: int) -> Seq<Seq<bool>> {
    if in_bounds(cells, r, c) {
        with_cell(cells, r, c, true)
    } else {
        cells
    }
}

/// The field of `height` rows and `width` columns with every cell dead.
pub open spec fn dead_field(height: nat, width: nat) -> Seq<Seq<bool>> {
    Seq::new(height, |r: int| Seq::new(width, |c: int| false))
}

} // verus!
