//! The executable grid.

use vstd::prelude::*;
use crate::field::{
    dead_field, height_of, in_bounds, is_field, live_neighbors, next_state, seeded, step,
    width_of, with_cell, with_live_cell,
};
use crate::torus::{lemma_wrap_around, wrap_next, wrap_prev};

verus! {

/// Why a grid cannot be made.
#[derive(Clone, Copy, Debug, PartialEq, Eq)]
pub enum ConfigurationError {
    /// The grid would have no columns.
    ZeroWidth,
    /// The grid would have no rows.
    ZeroHeight,
}

/// A fixed-size toroidal grid of cells; `true` is alive.
pub struct GameOfLife {
    width: usize,
    height: usize,
    cells: Vec<Vec<bool>>,
}

impl View for GameOfLife {
    type V = Seq<Seq<bool>>;

    /// The rows of the grid, top to bottom, each a sequence of cells.
    closed spec fn view(&self) -> Seq<Seq<bool>> {
        Seq::new(self.cells@.len(), |r: int| self.cells@[r]@)
    }
}

/// Writes one cell of a table of rows and leaves the rest as it was.
fn set_cell(cells: &mut Vec<Vec<bool>>, row: usize, col: usize, alive: bool)
    requires
        row < old(cells)@.len(),
        col < old(cells)@[row as int]@.len(),
    ensures
        final(cells)@.len() == old(cells)@.len(),
        final(cells)@[row as int]@ == old(cells)@[row as int]@.update(col as int, alive),
        forall|r: int|
            0 <= r < old(cells)@.len() && r != row ==> #[trigger] final(cells)@[r] == old(
                cells,
            )@[r],
    no_unwind
{
    cells[row][col] = alive;
}

/// The index `base + delta`, if it is an index below `limit`.
fn shifted(base: usize, delta: i8, limit: usize) -> (index: Option<usize>)
    ensures
        match index {
            Some(i) => i == base + delta && i < limit,
            None => !(0 <= base + delta < limit),
        },
{
    if delta >= 0 {
        let forward = delta as usize;
        if base < limit && forward < limit - base {
            Some(base + forward)
        } else {
            None
        }
    } else {
        let back = (-(delta as i16)) as usize;
        if base >= back && base - back < limit {
            Some(base - back)
        } else {
            None
        }
    }
}

impl GameOfLife {
    /// There are `height` rows of `width` cells each, and at least one cell.
    #[verifier::type_invariant]
    spec fn inv(&self) -> bool {
        &&& self.width > 0
        &&& self.height > 0
        &&& self.cells@.len() == self.height
        &&& forall|r: int|
            0 <= r < self.cells@.len() ==> (#[trigger] self.cells@[r])@.len() == self.width
    }

    /// A grid of the given size with every cell dead.
    pub fn new(width: usize, height: usize) -> (grid: Self)
        requires
            width > 0,
            height > 0,
        ensures
            grid@ == dead_field(height as nat, width as nat),
    {
        let mut cells: Vec<Vec<bool>> = Vec::new();
        let mut r: usize = 0;
        while r < height
            invariant
                r <= height,
                cells@.len() == r,
                forall|i: int|
                    0 <= i < r ==> (#[trigger] cells@[i])@ == Seq::new(
                        width as nat,
                        |c: int| false,
                    ),
            decreases height - r,
        {
            let mut row: Vec<bool> = Vec::new();
            let mut c: usize = 0;
            while c < width
                invariant
                    c <= width,
                    row@.len() == c,
                    forall|j: int| 0 <= j < c ==> !(#[trigger] row@[j]),
                decreases width - c,
            {
                row.push(false);
                c += 1;
            }
            assert(row@ =~= Seq::new(width as nat, |c: int| false));
            cells.push(row);
            r += 1;
        }
        let grid = GameOfLife { width, height, cells };
        assert(grid@ =~= dead_field(height as nat, width as nat));
        grid
    }

    /// A grid of the given size with every cell dead, or the reason why
    /// there is no grid of that size.
    pub fn try_new(width: usize, height: usize) -> (result: Result<Self, ConfigurationError>)
        ensures
            match result {
                Ok(grid) => width > 0 && height > 0 && grid@ == dead_field(
                    height as nat,
                    width as nat,
                ),
                Err(ConfigurationError::ZeroWidth) => width == 0,
                Err(ConfigurationError::ZeroHeight) => width > 0 && height == 0,
            },
    {
        if width == 0 {
            Err(ConfigurationError::ZeroWidth)
        } else if height == 0 {
            Err(ConfigurationError::ZeroHeight)
        } else {
            Ok(GameOfLife::new(width, height))
        }
    }

    /// The number of columns.
    pub fn width(&self) -> (w: usize)
        ensures
            w == width_of(self@),
            is_field(self@),
    {
        proof {
            use_type_invariant(self);
        }
        self.width
    }

    /// The number of rows.
    pub fn height(&self) -> (h: usize)
        ensures
            h == height_of(self@),
            is_field(self@),
    {
        proof {
            use_type_invariant(self);
        }
        self.height
    }

    /// Whether the cell at `(row, col)` is alive.
    pub fn is_alive(&self, row: usize, col: usize) -> (alive: bool)
        requires
            in_bounds(self@, row as int, col as int),
        ensures
            alive == self@[row as int][col as int],
    {
        proof {
            use_type_invariant(self);
        }
        self.cells[row][col]
    }

    /// Flips the cell at `(row, col)`; every other cell keeps its state.
    pub fn toggle_state(&mut self, row: usize, col: usize)
        requires
            in_bounds(old(self)@, row as int, col as int),
        ensures
            final(self)@ == with_cell(
                old(self)@,
                row as int,
                col as int,
                !old(self)@[row as int][col as int],
            ),
    {
        proof {
            use_type_invariant(&*self);
        }
        let alive = self.cells[row][col];
        set_cell(&mut self.cells, row, col, !alive);
        assert(self@ =~= with_cell(old(self)@, row as int, col as int, !alive));
    }

    /// How many of the eight cells around `(row, col)` are alive, the grid
    /// wrapping around at its edges.
    pub fn count_neighbors(&self, row: usize, col: usize) -> (count: usize)
        requires
            in_bounds(self@, row as int, col as int),
        ensures
            count == live_neighbors(self@, row as int, col as int),
            count <= 8,
    {
        proof {
            use_type_invariant(self);
            lemma_wrap_around(row as int, self.height as int);
            lemma_wrap_around(col as int, self.width as int);
        }
        let up = wrap_prev(row, self.height);
        let down = wrap_next(row, self.height);
        let left = wrap_prev(col, self.width);
        let right = wrap_next(col, self.width);
        let mut count: usize = 0;
        if self.cells[up][left] {
            count += 1;
        }
        if self.cells[up][col] {
            count += 1;
        }
        if self.cells[up][right] {
            count += 1;
        }
        if self.cells[row][left] {
            count += 1;
        }
        if self.cells[row][right] {
            count += 1;
        }
        if self.cells[down][left] {
            count += 1;
        }
        if self.cells[down][col] {
            count += 1;
        }
        if self.cells[down][right] {
            count += 1;
        }
        count
    }

    /// The state of the cell at `(row, col)` in the next generation.
    pub fn compute_next_states(&self, row: usize, col: usize) -> (alive: bool)
        requires
            in_bounds(self@, row as int, col as int),
        ensures
            alive == next_state(
                self@[row as int][col as int],
                live_neighbors(self@, row as int, col as int),
            ),
            alive == step(self@)[row as int][col as int],
    {
        proof {
            use_type_invariant(self);
        }
        let alive_neighbors = self.count_neighbors(row, col);
        let alive = self.cells[row][col];
        (alive && (alive_neighbors == 2 || alive_neighbors == 3))
            || (!alive && alive_neighbors == 3)
    }

    /// Replaces the grid by its next generation.
    pub fn update(&mut self)
        ensures
            final(self)@ == step(old(self)@),
    {
        proof {
            use_type_invariant(&*self);
        }
        let mut new_cells: Vec<Vec<bool>> = Vec::new();
        let mut row: usize = 0;
        while row < self.height
            invariant
                self.width > 0,
                self.height > 0,
                self.cells@.len() == self.height,
                forall|r: int|
                    0 <= r < self.cells@.len() ==> (#[trigger] self.cells@[r])@.len() == self.width,
                row <= self.height,
                new_cells@.len() == row,
                forall|r: int| 0 <= r < row ==> (#[trigger] new_cells@[r])@ == step(self@)[r],
            decreases self.height - row,
        {
            let mut new_row: Vec<bool> = Vec::new();
            let mut col: usize = 0;
            while col < self.width
                invariant
                    self.width > 0,
                    self.height > 0,
                    self.cells@.len() == self.height,
                    forall|r: int|
                        0 <= r < self.cells@.len() ==> (#[trigger] self.cells@[r])@.len()
                            == self.width,
                    row < self.height,
                    col <= self.width,
                    new_row@.len() == col,
                    forall|c: int|
                        0 <= c < col ==> #[trigger] new_row@[c] == step(self@)[row as int][c],
                decreases self.width - col,
            {
                let alive = self.compute_next_states(row, col);
                new_row.push(alive);
                col += 1;
            }
            assert(new_row@ =~= step(self@)[row as int]);
            new_cells.push(new_row);
            row += 1;
        }
        self.cells = new_cells;
        assert(self@ =~= step(old(self)@));
    }

    /// Makes the cell at the given offset from the centre alive, if the grid
    /// has such a cell.
    fn seed_at(&mut self, dr: i8, dc: i8)
        ensures
            final(self)@ == with_live_cell(
                old(self)@,
                height_of(old(self)@) / 2 + dr,
                width_of(old(self)@) / 2 + dc,
            ),
    {
        proof {
            use_type_invariant(&*self);
        }
        let row = shifted(self.height / 2, dr, self.height);
        let col = shifted(self.width / 2, dc, self.width);
        match (row, col) {
            (Some(row), Some(col)) => {
                set_cell(&mut self.cells, row, col, true);
                assert(self@ =~= with_cell(old(self)@, row as int, col as int, true));
            },
            _ => {},
        }
    }

    /// Lays the seed pattern over the grid: the five cells at the offsets
    /// `(-1, -1)`, `(-1, 0)`, `(0, -2)`, `(0, -1)` and `(1, -1)` from the centre
    /// cell `(height / 2, width / 2)` become alive. Cells that are alive stay
    /// alive: nothing is cleared. An offset that leaves the grid is skipped; it
    /// does not wrap around.
    pub fn starting_position(&mut self)
        ensures
            final(self)@ == seeded(old(self)@),
    {
        proof {
            use_type_invariant(&*self);
        }
        self.seed_at(-1, -1);
        self.seed_at(-1, 0);
        self.seed_at(0, -2);
        self.seed_at(0, -1);
        self.seed_at(1, -1);
        assert(self@ =~~= seeded(old(self)@));
    }

    /// Returns the grid to its first state: every cell dead, then the seed
    /// pattern laid over it.
    pub fn reset(&mut self)
        ensures
            final(self)@ == seeded(
                dead_field(height_of(old(self)@) as nat, width_of(old(self)@) as nat),
            ),
    {
        proof {
            use_type_invariant(&*self);
        }
        let mut fresh = GameOfLife::new(self.width, self.height);
        fresh.starting_position();
        *self = fresh;
    }
}

} // verus!
