//! Read-only projections of a grid for display: a frame of RGBA pixels and a
//! text of glyphs.

use vstd::prelude::*;
use vstd::arithmetic::div_mod::lemma_fundamental_div_mod_converse;
use crate::field::{evolve, height_of, is_field, width_of};
use crate::grid::GameOfLife;

verus! {

/// Bytes per pixel: red, green, blue, alpha.
pub const BYTES_PER_PIXEL: usize = 4;

/// Channel `k` of the colour of a cell: a live cell is opaque black, a dead
/// cell opaque white.
pub open spec fn channel(alive: bool, k: int) -> u8 {
    if k == 3 {
        0xFFu8
    } else if alive {
        0x00u8
    } else {
        0xFFu8
    }
}

/// The number of bytes in the frame of a field: four for every cell.
pub open spec fn frame_len(cells: Seq<Seq<bool>>) -> int {
    4 * (height_of(cells) * width_of(cells))
}

/// Byte `i` of the frame. Pixels are laid out row by row without padding, so
/// byte `i` belongs to pixel `i / 4`, which shows the cell in row
/// `(i / 4) / width` and column `(i / 4) % width`.
pub open spec fn frame_byte(cells: Seq<Seq<bool>>, i: int) -> u8 {
    let pixel = i / 4;
    channel(cells[pixel / width_of(cells)][pixel % width_of(cells)], i % 4)
}

/// The frame of a field.
pub open spec fn frame(cells: Seq<Seq<bool>>) -> Seq<u8> {
    Seq::new(frame_len(cells) as nat, |i: int| frame_byte(cells, i))
}

/// The two characters that show a cell: a filled square for a live cell, a
/// hollow square for a dead one, each followed by the text-style selector.
pub open spec fn glyph(alive: bool) -> Seq<char> {
    if alive {
        seq!['\u{25FC}', '\u{FE0E}']
    } else {
        seq!['\u{25FB}', '\u{FE0E}']
    }
}

/// The glyphs of a row of cells, left to right.
pub open spec fn glyph_line(row: Seq<bool>) -> Seq<char>
    decreases row.len(),
{
    if row.len() == 0 {
        Seq::empty()
    } else {
        glyph_line(row.drop_last()) + glyph(row.last())
    }
}

/// The text of a field: one line of glyphs per row, each ended by a newline.
pub open spec fn glyph_text(cells: Seq<Seq<bool>>) -> Seq<char>
    decreases cells.len(),
{
    if cells.len() == 0 {
        Seq::empty()
    } else {
        glyph_text(cells.drop_last()) + glyph_line(cells.last()) + seq!['\n']
    }
}

/// The pixel of the cell at `(row, col)` is number `row * width + col`.
pub proof fn lemma_pixel_index(row: int, col: int, height: int, width: int)
    requires
        0 <= row < height,
        0 <= col < width,
    ensures
        0 <= row * width + col < height * width,
        (row * width + col) / width == row,
        (row * width + col) % width == col,
{
    assert(0 <= row * width && row * width + width <= height * width) by (nonlinear_arith)
        requires
            0 <= row < height,
            0 < width,
    ;
    lemma_fundamental_div_mod_converse(row * width + col, width, row, col);
}

impl GameOfLife {
    /// Writes the frame of the grid into the first bytes of `screen`; bytes
    /// beyond the frame keep their value.
    pub fn draw(&self, screen: &mut [u8])
        requires
            old(screen)@.len() >= frame_len(self@),
        ensures
            final(screen)@ == frame(self@) + old(screen)@.skip(frame_len(self@)),
    {
        let width = self.width();
        let height = self.height();
        let ghost cells = self@;
        let ghost before = screen@;
        let size = screen.len();
        let mut row: usize = 0;
        while row < height
            invariant
                cells == self@,
                is_field(cells),
                width == width_of(cells),
                height == height_of(cells),
                row <= height,
                screen@.len() == before.len(),
                size == before.len(),
                4 * (height * width) <= size,
                forall|i: int| 0 <= i < 4 * (row * width) ==> screen@[i] == frame_byte(cells, i),
                forall|i: int| 4 * (row * width) <= i < before.len() ==> screen@[i] == before[i],
            decreases height - row,
        {
            let mut col: usize = 0;
            while col < width
                invariant
                    cells == self@,
                    is_field(cells),
                    width == width_of(cells),
                    height == height_of(cells),
                    row < height,
                    col <= width,
                    screen@.len() == before.len(),
                    size == before.len(),
                    4 * (height * width) <= size,
                    forall|i: int|
                        0 <= i < 4 * (row * width + col) ==> screen@[i] == frame_byte(cells, i),
                    forall|i: int|
                        4 * (row * width + col) <= i < before.len() ==> screen@[i] == before[i],
                decreases width - col,
            {
                proof {
                    lemma_pixel_index(row as int, col as int, height as int, width as int);
                }
                let index = (row * width + col) * BYTES_PER_PIXEL;
                let shade: u8 = if self.is_alive(row, col) {
                    0x00
                } else {
                    0xFF
                };
                screen[index] = shade;
                screen[index + 1] = shade;
                screen[index + 2] = shade;
                screen[index + 3] = 0xFF;
                col += 1;
            }
            proof {
                assert((row + 1) * width == row * width + width) by (nonlinear_arith);
            }
            row += 1;
        }
        assert(screen@ =~= frame(cells) + before.skip(frame_len(cells)));
    }

    /// The grid as text for a terminal: one line per row, two characters per
    /// cell.
    pub fn draw_terminal(&self) -> (text: String)
        ensures
            text@ == glyph_text(self@),
    {
        let width = self.width();
        let height = self.height();
        let ghost cells = self@;
        let mut text = String::new();
        let mut row: usize = 0;
        assert(cells.take(0) =~= Seq::<Seq<bool>>::empty());
        while row < height
            invariant
                cells == self@,
                is_field(cells),
                width == width_of(cells),
                height == height_of(cells),
                row <= height,
                text@ == glyph_text(cells.take(row as int)),
            decreases height - row,
        {
            let ghost head = text@;
            let mut col: usize = 0;
            assert(cells[row as int].take(0) =~= Seq::<bool>::empty());
            while col < width
                invariant
                    cells == self@,
                    is_field(cells),
                    width == width_of(cells),
                    height == height_of(cells),
                    row < height,
                    col <= width,
                    text@ == head + glyph_line(cells[row as int].take(col as int)),
                decreases width - col,
            {
                let ghost done = cells[row as int].take(col as int);
                let ghost more = cells[row as int].take(col + 1);
                proof {
                    reveal_strlit("\u{25FC}\u{FE0E}");
                    reveal_strlit("\u{25FB}\u{FE0E}");
                    assert(more.drop_last() =~= done);
                    assert(more.last() == cells[row as int][col as int]);
                }
                if self.is_alive(row, col) {
                    text.append("\u{25FC}\u{FE0E}");
                    assert("\u{25FC}\u{FE0E}"@ =~= glyph(true));
                } else {
                    text.append("\u{25FB}\u{FE0E}");
                    assert("\u{25FB}\u{FE0E}"@ =~= glyph(false));
                }
                assert(text@ =~= head + glyph_line(more));
                col += 1;
            }
            proof {
                reveal_strlit("\n");
                assert("\n"@ =~= seq!['\n']);
                assert(cells[row as int].take(width as int) =~= cells[row as int]);
                assert(cells.take(row + 1).drop_last() =~= cells.take(row as int));
                assert(cells.take(row + 1).last() == cells[row as int]);
            }
            text.append("\n");
            row += 1;
        }
        assert(cells.take(height as int) =~= cells);
        text
    }

    /// Runs the grid through `steps` generations and returns the text of every
    /// state it passes through, the one it starts in first.
    pub fn simulate(&mut self, steps: usize) -> (frames: Vec<String>)
        ensures
            final(self)@ == evolve(old(self)@, steps as nat),
            frames@.len() == steps + 1,
            forall|i: int|
                0 <= i <= steps ==> (#[trigger] frames@[i])@ == glyph_text(
                    evolve(old(self)@, i as nat),
                ),
    {
        let ghost start = self@;
        let mut frames: Vec<String> = Vec::new();
        frames.push(self.draw_terminal());
        let mut done: usize = 0;
        while done < steps
            invariant
                done <= steps,
                self@ == evolve(start, done as nat),
                frames@.len() == done + 1,
                forall|i: int|
                    0 <= i <= done ==> (#[trigger] frames@[i])@ == glyph_text(
                        evolve(start, i as nat),
                    ),
            decreases steps - done,
        {
            self.update();
            frames.push(self.draw_terminal());
            done += 1;
        }
        frames
    }
}

} // verus!
