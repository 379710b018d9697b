//! The frame buffer: one complete snapshot of the display grid.

use vstd::prelude::*;
use crate::NUM_COLS;
use crate::NUM_ROWS;

verus! {

/// Glyph stored in a cell that displays nothing.
pub const EMPTY_GLYPH: char = ' ';

/// One rendered screen: a `NUM_COLS` x `NUM_ROWS` grid of glyphs, stored
/// row by row in a single vector. A fresh frame is composed every
/// simulation tick and handed whole to the renderer.
pub struct Frame {
    pub cells: Vec<char>,
}

impl View for Frame {
    type V = Seq<char>;

    open spec fn view(&self) -> Seq<char> {
        self.cells@
    }
}

impl Frame {
    /// The grid holds exactly one glyph per cell of the fixed
    /// `NUM_COLS` x `NUM_ROWS` play field; dimensions never change.
    pub open spec fn wf(self) -> bool {
        self@.len() == NUM_ROWS * NUM_COLS
    }

    /// Glyph at column `x`, row `y`.
    pub open spec fn at(self, x: int, y: int) -> char {
        self@[y * NUM_COLS + x]
    }

    pub fn get(&self, x: usize, y: usize) -> (c: char)
        requires
            self.wf(),
            x < NUM_COLS,
            y < NUM_ROWS,
        ensures
            c == self.at(x as int, y as int),
    {
        self.cells[y * NUM_COLS + x]
    }

    /// Writes glyph `c` into the cell at column `x`, row `y`; every other
    /// cell keeps its glyph.
    pub fn set(&mut self, x: usize, y: usize, c: char)
        requires
            old(self).wf(),
            x < NUM_COLS,
            y < NUM_ROWS,
        ensures
            final(self).wf(),
            final(self)@ == old(self)@.update(y * NUM_COLS + x, c),
    {
        self.cells[y * NUM_COLS + x] = c;
    }
}

/// The grid with glyph `c` written at column `x`, row `y` and every
/// other cell untouched.
pub open spec fn put_glyph(f: Seq<char>, x: int, y: int, c: char) -> Seq<char> {
    f.update(y * NUM_COLS + x, c)
}

/// An all-empty grid of the fixed dimensions.
pub open spec fn empty_grid() -> Seq<char> {
    Seq::new((NUM_ROWS * NUM_COLS) as nat, |i: int| EMPTY_GLYPH)
}

/// Returns an all-empty grid of the fixed dimensions.
pub fn new_frame() -> (f: Frame)
    ensures
        f.wf(),
        f@ == empty_grid(),
{
    let mut cells: Vec<char> = Vec::new();
    let mut i: usize = 0;
    while i < NUM_ROWS * NUM_COLS
        invariant
            i <= NUM_ROWS * NUM_COLS,
            cells@.len() == i,
            forall|j: int| 0 <= j < i ==> cells@[j] == EMPTY_GLYPH,
        decreases NUM_ROWS * NUM_COLS - i,
    {
        cells.push(EMPTY_GLYPH);
        i = i + 1;
    }
    let f = Frame { cells };
    proof {
        assert(f@ =~= empty_grid());
    }
    f
}

} // verus!
