//! Two classic patterns on the torus: the block, which stands still, and the
//! glider, which travels.

use vstd::prelude::*;
use vstd::arithmetic::div_mod::lemma_fundamental_div_mod_converse;
use crate::field::{cell_at, evolve, height_of, in_bounds, is_field, step, width_of, wrap};
use crate::torus::lemma_wrap_around;

verus! {

/// Whether the live cells of the field are exactly the two by two block whose
/// upper left cell is `(top, left)`; the block may reach over an edge.
pub open spec fn is_block(cells: Seq<Seq<bool>>, top: int, left: int) -> bool {
    &&& is_field(cells)
    &&& in_bounds(cells, top, left)
    &&& forall|r: int, c: int|
        in_bounds(cells, r, c) ==> (#[trigger] cells[r][c] <==> (r == top || r == wrap(
            top + 1,
            height_of(cells),
        )) && (c == left || c == wrap(left + 1, width_of(cells))))
}

/// A two by two block is a still life: on a grid of at least three rows and
/// three columns it is its own next generation.
pub proof fn lemma_block_is_still(cells: Seq<Seq<bool>>, top: int, left: int)
    requires
        is_block(cells, top, left),
        height_of(cells) >= 3,
        width_of(cells) >= 3,
    ensures
        step(cells) == cells,
{
    let h = height_of(cells);
    let w = width_of(cells);
    lemma_wrap_around(top, h);
    lemma_wrap_around(left, w);
    assert forall|r: int, c: int| in_bounds(cells, r, c) implies #[trigger] step(cells)[r][c]
        == cells[r][c] by {
        lemma_wrap_around(r, h);
        lemma_wrap_around(c, w);
    }
    assert(step(cells) =~~= cells);
}

/// How far `i` lies behind `origin` on a ring of `n` positions, going forward
/// from `origin`.
pub open spec fn offset(i: int, origin: int, n: int) -> int {
    wrap(i - origin, n)
}

/// The offset between two positions of the ring, written without a remainder.
pub proof fn lemma_offset(i: int, origin: int, n: int)
    requires
        0 <= i < n,
        0 <= origin < n,
    ensures
        offset(i, origin, n) == if i >= origin { i - origin } else { i - origin + n },
{
    if i >= origin {
        lemma_fundamental_div_mod_converse(i - origin, n, 0, i - origin);
    } else {
        lemma_fundamental_div_mod_converse(i - origin, n, -1, i - origin + n);
    }
}

/// The glider in the first of its four phases, by row and column inside its
/// box:
///
/// ```text
/// . X .
/// . . X
/// X X X
/// ```
pub open spec fn glider(a: int, b: int) -> bool {
    ||| (a == 0 && b == 1)
    ||| (a == 1 && b == 2)
    ||| (a == 2 && b == 0)
    ||| (a == 2 && b == 1)
    ||| (a == 2 && b == 2)
}

/// The glider one generation later.
pub open spec fn glider_second(a: int, b: int) -> bool {
    ||| (a == 1 && b == 0)
    ||| (a == 1 && b == 2)
    ||| (a == 2 && b == 1)
    ||| (a == 2 && b == 2)
    ||| (a == 3 && b == 1)
}

/// The glider two generations later.
pub open spec fn glider_third(a: int, b: int) -> bool {
    ||| (a == 1 && b == 2)
    ||| (a == 2 && b == 0)
    ||| (a == 2 && b == 2)
    ||| (a == 3 && b == 1)
    ||| (a == 3 && b == 2)
}

/// The glider three generations later.
pub open spec fn glider_fourth(a: int, b: int) -> bool {
    ||| (a == 1 && b == 1)
    ||| (a == 2 && b == 2)
    ||| (a == 2 && b == 3)
    ||| (a == 3 && b == 1)
    ||| (a == 3 && b == 2)
}

/// Whether the live cells of the field are exactly those of `shape`, laid out
/// from the cell `(top, left)` downwards and to the right, over the edges if
/// need be.
pub open spec fn shows(
    cells: Seq<Seq<bool>>,
    top: int,
    left: int,
    shape: spec_fn(int, int) -> bool,
) -> bool {
    &&& is_field(cells)
    &&& in_bounds(cells, top, left)
    &&& forall|r: int, c: int|
        in_bounds(cells, r, c) ==> (#[trigger] cells[r][c] <==> shape(
            offset(r, top, height_of(cells)),
            offset(c, left, width_of(cells)),
        ))
}

/// The field moved by `down` rows and `right` columns around the torus.
pub open spec fn moved(cells: Seq<Seq<bool>>, down: int, right: int) -> Seq<Seq<bool>> {
    Seq::new(
        cells.len(),
        |r: int| Seq::new(cells[0].len(), |c: int| cell_at(cells, r - down, c - right)),
    )
}

/// What the rule needs to know about the surroundings of one cell: the rows
/// and columns next to it, and how far each lies from the corner of the box.
proof fn lemma_surroundings(cells: Seq<Seq<bool>>, top: int, left: int, r: int, c: int)
    requires
        is_field(cells),
        in_bounds(cells, top, left),
        in_bounds(cells, r, c),
    ensures
        wrap(r, height_of(cells)) == r,
        wrap(r - 1, height_of(cells)) == if r == 0 { height_of(cells) - 1 } else { r - 1 },
        wrap(r + 1, height_of(cells)) == if r == height_of(cells) - 1 { 0 } else { r + 1 },
        wrap(c, width_of(cells)) == c,
        wrap(c - 1, width_of(cells)) == if c == 0 { width_of(cells) - 1 } else { c - 1 },
        wrap(c + 1, width_of(cells)) == if c == width_of(cells) - 1 { 0 } else { c + 1 },
        forall|i: int|
            0 <= i < height_of(cells) ==> #[trigger] offset(i, top, height_of(cells)) == if i
                >= top { i - top } else { i - top + height_of(cells) },
        forall|j: int|
            0 <= j < width_of(cells) ==> #[trigger] offset(j, left, width_of(cells)) == if j
                >= left { j - left } else { j - left + width_of(cells) },
{
    lemma_wrap_around(r, height_of(cells));
    lemma_wrap_around(c, width_of(cells));
    assert forall|i: int| 0 <= i < height_of(cells) implies #[trigger] offset(
        i,
        top,
        height_of(cells),
    ) == if i >= top { i - top } else { i - top + height_of(cells) } by {
        lemma_offset(i, top, height_of(cells));
    }
    assert forall|j: int| 0 <= j < width_of(cells) implies #[trigger] offset(
        j,
        left,
        width_of(cells),
    ) == if j >= left { j - left } else { j - left + width_of(cells) } by {
        lemma_offset(j, left, width_of(cells));
    }
}

/// The first phase of the glider turns into the second.
proof fn lemma_glider_first_step(cells: Seq<Seq<bool>>, top: int, left: int)
    requires
        shows(cells, top, left, |a: int, b: int| glider(a, b)),
        height_of(cells) >= 5,
        width_of(cells) >= 5,
    ensures
        shows(step(cells), top, left, |a: int, b: int| glider_second(a, b)),
{
    assert forall|r: int, c: int| in_bounds(cells, r, c) implies (#[trigger] step(cells)[r][c]
        <==> glider_second(offset(r, top, height_of(cells)), offset(c, left, width_of(cells)))) by {
        lemma_surroundings(cells, top, left, r, c);
    }
}

/// The second phase of the glider turns into the third.
proof fn lemma_glider_second_step(cells: Seq<Seq<bool>>, top: int, left: int)
    requires
        shows(cells, top, left, |a: int, b: int| glider_second(a, b)),
        height_of(cells) >= 5,
        width_of(cells) >= 5,
    ensures
        shows(step(cells), top, left, |a: int, b: int| glider_third(a, b)),
{
    assert forall|r: int, c: int| in_bounds(cells, r, c) implies (#[trigger] step(cells)[r][c]
        <==> glider_third(offset(r, top, height_of(cells)), offset(c, left, width_of(cells)))) by {
        lemma_surroundings(cells, top, left, r, c);
    }
}

/// The third phase of the glider turns into the fourth.
proof fn lemma_glider_third_step(cells: Seq<Seq<bool>>, top: int, left: int)
    requires
        shows(cells, top, left, |a: int, b: int| glider_third(a, b)),
        height_of(cells) >= 5,
        width_of(cells) >= 5,
    ensures
        shows(step(cells), top, left, |a: int, b: int| glider_fourth(a, b)),
{
    assert forall|r: int, c: int| in_bounds(cells, r, c) implies (#[trigger] step(cells)[r][c]
        <==> glider_fourth(offset(r, top, height_of(cells)), offset(c, left, width_of(cells)))) by {
        lemma_surroundings(cells, top, left, r, c);
    }
}

/// The fourth phase of the glider turns into the first, one row further down
/// and one column further right.
proof fn lemma_glider_fourth_step(cells: Seq<Seq<bool>>, top: int, left: int)
    requires
        shows(cells, top, left, |a: int, b: int| glider_fourth(a, b)),
        height_of(cells) >= 5,
        width_of(cells) >= 5,
    ensures
        shows(
            step(cells),
            wrap(top + 1, height_of(cells)),
            wrap(left + 1, width_of(cells)),
            |a: int, b: int| glider(a, b),
        ),
{
    let h = height_of(cells);
    let w = width_of(cells);
    let below = wrap(top + 1, h);
    let beside = wrap(left + 1, w);
    lemma_wrap_around(top, h);
    lemma_wrap_around(left, w);
    assert forall|r: int, c: int| in_bounds(cells, r, c) implies (#[trigger] step(cells)[r][c]
        <==> glider(offset(r, below, h), offset(c, beside, w))) by {
        lemma_surroundings(cells, top, left, r, c);
        lemma_offset(r, below, h);
        lemma_offset(c, beside, w);
    }
}

/// A glider travels: on a grid of at least five rows and five columns, four
/// generations later the field shows the same glider one row further down and
/// one column further right, around the edges if need be, and nothing else.
pub proof fn lemma_glider_travels(cells: Seq<Seq<bool>>, top: int, left: int)
    requires
        shows(cells, top, left, |a: int, b: int| glider(a, b)),
        height_of(cells) >= 5,
        width_of(cells) >= 5,
    ensures
        shows(
            evolve(cells, 4),
            wrap(top + 1, height_of(cells)),
            wrap(left + 1, width_of(cells)),
            |a: int, b: int| glider(a, b),
        ),
        evolve(cells, 4) == moved(cells, 1, 1),
{
    let h = height_of(cells);
    let w = width_of(cells);
    let second = step(cells);
    let third = step(second);
    let fourth = step(third);
    let fifth = step(fourth);
    lemma_glider_first_step(cells, top, left);
    lemma_glider_second_step(second, top, left);
    lemma_glider_third_step(third, top, left);
    lemma_glider_fourth_step(fourth, top, left);
    assert(evolve(cells, 4) == fifth) by {
        assert(evolve(cells, 0) == cells);
        assert(evolve(cells, 1) == second);
        assert(evolve(cells, 2) == third);
        assert(evolve(cells, 3) == fourth);
    }
    let below = wrap(top + 1, h);
    let beside = wrap(left + 1, w);
    lemma_wrap_around(top, h);
    lemma_wrap_around(left, w);
    assert forall|r: int, c: int| in_bounds(cells, r, c) implies #[trigger] fifth[r][c] == moved(
        cells,
        1,
        1,
    )[r][c] by {
        lemma_surroundings(cells, top, left, r, c);
        lemma_offset(r, below, h);
        lemma_offset(c, beside, w);
    }
    assert(fifth =~~= moved(cells, 1, 1));
}

} // verus!
