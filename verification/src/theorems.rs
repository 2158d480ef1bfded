//! What holds of the model for every field: the fate of single cells, the
//! wrap at the edges, the stillness of a dead field, and the layout of a
//! frame.

use vstd::prelude::*;
use crate::field::{
    cell_at, dead_field, evolve, height_of, in_bounds, in_seed, is_field, live_neighbors, seeded,
    step, width_of,
};
use crate::render::{channel, frame, frame_len, lemma_pixel_index};
use crate::torus::{lemma_wrap_around, lemma_wrap_bound};

verus! {

/// A live cell is alive in the next generation if it has exactly two or
/// three live neighbours, and dead with any other number.
pub proof fn lemma_live_cell_fate(cells: Seq<Seq<bool>>, r: int, c: int)
    requires
        in_bounds(cells, r, c),
        cells[r][c],
    ensures
        step(cells)[r][c] <==> (live_neighbors(cells, r, c) == 2 || live_neighbors(cells, r, c)
            == 3),
{
}

/// A dead cell is alive in the next generation if it has exactly three live
/// neighbours, and stays dead with any other number.
pub proof fn lemma_dead_cell_fate(cells: Seq<Seq<bool>>, r: int, c: int)
    requires
        in_bounds(cells, r, c),
        !cells[r][c],
    ensures
        step(cells)[r][c] <==> live_neighbors(cells, r, c) == 3,
{
}

/// A generation step keeps the shape of the field.
pub proof fn lemma_step_keeps_shape(cells: Seq<Seq<bool>>)
    requires
        is_field(cells),
    ensures
        is_field(step(cells)),
        height_of(step(cells)) == height_of(cells),
        width_of(step(cells)) == width_of(cells),
{
}

/// Any number of generations keeps the shape of the field.
pub proof fn lemma_evolve_keeps_shape(cells: Seq<Seq<bool>>, n: nat)
    requires
        is_field(cells),
    ensures
        is_field(evolve(cells, n)),
        height_of(evolve(cells, n)) == height_of(cells),
        width_of(evolve(cells, n)) == width_of(cells),
    decreases n,
{
    if n > 0 {
        lemma_evolve_keeps_shape(cells, (n - 1) as nat);
        lemma_step_keeps_shape(evolve(cells, (n - 1) as nat));
    }
}

/// Seeding keeps the shape of the field and kills no cell.
pub proof fn lemma_seeded_keeps_shape(cells: Seq<Seq<bool>>)
    requires
        is_field(cells),
    ensures
        is_field(seeded(cells)),
        height_of(seeded(cells)) == height_of(cells),
        width_of(seeded(cells)) == width_of(cells),
        forall|r: int, c: int|
            in_bounds(cells, r, c) && cells[r][c] ==> #[trigger] seeded(cells)[r][c],
{
}

/// Seeding does not wrap: a cell is alive afterwards if it was alive before or
/// if its own distance to the centre cell is an offset of the seed pattern.
/// Such a cell lies within one row of the centre row, and in the centre
/// column or one of the two columns to its left.
pub proof fn lemma_seed_does_not_wrap(cells: Seq<Seq<bool>>, r: int, c: int)
    requires
        is_field(cells),
        in_bounds(cells, r, c),
    ensures
        seeded(cells)[r][c] <==> cells[r][c] || in_seed(
            r - height_of(cells) / 2,
            c - width_of(cells) / 2,
        ),
        in_seed(r - height_of(cells) / 2, c - width_of(cells) / 2) ==> {
            &&& height_of(cells) / 2 - 1 <= r <= height_of(cells) / 2 + 1
            &&& width_of(cells) / 2 - 2 <= c <= width_of(cells) / 2
        },
{
}

/// The grid wraps at its edges: the cell at `(0, 0)` is the lower neighbour of
/// the last cell of the first column, the right neighbour of the last cell of
/// the first row, and the lower right neighbour of the last cell of the grid.
/// If it is alive, each of the three counts it.
pub proof fn lemma_corner_wraps(cells: Seq<Seq<bool>>)
    requires
        is_field(cells),
    ensures
        cell_at(cells, (height_of(cells) - 1) + 1, 0) == cells[0][0],
        cell_at(cells, 0, (width_of(cells) - 1) + 1) == cells[0][0],
        cell_at(cells, (height_of(cells) - 1) + 1, (width_of(cells) - 1) + 1) == cells[0][0],
        cells[0][0] ==> live_neighbors(cells, height_of(cells) - 1, 0) >= 1,
        cells[0][0] ==> live_neighbors(cells, 0, width_of(cells) - 1) >= 1,
        cells[0][0] ==> live_neighbors(cells, height_of(cells) - 1, width_of(cells) - 1) >= 1,
{
    lemma_wrap_around(height_of(cells) - 1, height_of(cells));
    lemma_wrap_around(width_of(cells) - 1, width_of(cells));
    lemma_wrap_around(0, height_of(cells));
    lemma_wrap_around(0, width_of(cells));
}

/// No cell of an all-dead field has a live neighbour.
proof fn lemma_dead_field_has_no_neighbors(height: nat, width: nat, r: int, c: int)
    requires
        0 <= r < height,
        0 <= c < width,
    ensures
        live_neighbors(dead_field(height, width), r, c) == 0,
{
    lemma_wrap_bound(r - 1, height as int);
    lemma_wrap_bound(r, height as int);
    lemma_wrap_bound(r + 1, height as int);
    lemma_wrap_bound(c - 1, width as int);
    lemma_wrap_bound(c, width as int);
    lemma_wrap_bound(c + 1, width as int);
}

/// An all-dead field stays all-dead, however many generations pass.
pub proof fn lemma_dead_stays_dead(height: nat, width: nat, n: nat)
    ensures
        evolve(dead_field(height, width), n) == dead_field(height, width),
    decreases n,
{
    let dead = dead_field(height, width);
    if n > 0 {
        lemma_dead_stays_dead(height, width, (n - 1) as nat);
        assert forall|r: int, c: int| 0 <= r < height && 0 <= c < width implies !(
        #[trigger] step(dead)[r][c]) by {
            lemma_dead_field_has_no_neighbors(height, width, r, c);
        }
        assert(step(dead) =~~= dead);
    }
}

/// The pixel of the cell at `(r, c)` starts at byte `4 * (r * width + c)` of
/// the frame. Its four bytes are 0, 0, 0, 255 if the cell is alive, and 255,
/// 255, 255, 255 if it is dead.
pub proof fn lemma_frame_pixel(cells: Seq<Seq<bool>>, r: int, c: int)
    requires
        is_field(cells),
        in_bounds(cells, r, c),
    ensures
        0 <= 4 * (r * width_of(cells) + c),
        4 * (r * width_of(cells) + c) + 4 <= frame_len(cells) == frame(cells).len(),
        forall|k: int|
            0 <= k < 4 ==> #[trigger] frame(cells)[4 * (r * width_of(cells) + c) + k] == channel(
                cells[r][c],
                k,
            ),
        frame(cells)[4 * (r * width_of(cells) + c)] == (if cells[r][c] { 0u8 } else { 255u8 }),
        frame(cells)[4 * (r * width_of(cells) + c) + 3] == 255u8,
{
    lemma_pixel_index(r, c, height_of(cells), width_of(cells));
}

} // verus!
