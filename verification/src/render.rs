//! The renderer's pure half: diffing two frames into the exact list of
//! cell writes the display device must receive. Emitting those writes is
//! terminal I/O and lives outside the library.

use vstd::prelude::*;
use crate::NUM_COLS;
use crate::NUM_ROWS;
use crate::frame::Frame;

verus! {

/// One cell write the display device must perform: move the cursor to
/// column `x`, row `y`, and print `glyph`.
#[derive(Clone, Copy, PartialEq, Eq, Structural, Debug)]
pub struct CellWrite {
    pub x: usize,
    pub y: usize,
    pub glyph: char,
}

/// The write that repaints the cell of row-major index `k` with the
/// current frame's glyph.
pub open spec fn write_for(curr: Seq<char>, k: int) -> CellWrite {
    CellWrite {
        x: (k % (NUM_COLS as int)) as usize,
        y: (k / (NUM_COLS as int)) as usize,
        glyph: curr[k],
    }
}

/// True iff a render pass must write the cell of row-major index `k`:
/// when the render is forced, or the cell's glyph changed from the
/// previous frame. Any other cell is skipped entirely.
pub open spec fn must_write(prev: Seq<char>, curr: Seq<char>, force: bool, k: int) -> bool {
    force || curr[k] != prev[k]
}

/// The writes for the first `n` cells in row-major order.
pub open spec fn plan_upto(prev: Seq<char>, curr: Seq<char>, force: bool, n: int) -> Seq<CellWrite>
    decreases n,
{
    if n <= 0 {
        Seq::<CellWrite>::empty()
    } else if must_write(prev, curr, force, n - 1) {
        plan_upto(prev, curr, force, n - 1).push(write_for(curr, n - 1))
    } else {
        plan_upto(prev, curr, force, n - 1)
    }
}

/// The whole render plan for one frame pair: every cell is visited once,
/// in row-major order, and contributes one write iff `must_write` holds
/// of it.
pub open spec fn render_plan_v(prev: Seq<char>, curr: Seq<char>, force: bool) -> Seq<CellWrite> {
    plan_upto(prev, curr, force, NUM_ROWS * NUM_COLS)
}

/// Diffs `curr` against `prev`: returns, in row-major order, exactly the
/// cells a render pass must write — every cell when `force` is set (the
/// first paint, or after an external resize), otherwise only the cells
/// whose glyph changed.
pub fn render_plan(prev: &Frame, curr: &Frame, force: bool) -> (plan: Vec<CellWrite>)
    requires
        prev.wf(),
        curr.wf(),
    ensures
        plan@ == render_plan_v(prev@, curr@, force),
{
    let mut plan: Vec<CellWrite> = Vec::new();
    let mut k: usize = 0;
    while k < NUM_ROWS * NUM_COLS
        invariant
            prev.wf(),
            curr.wf(),
            k <= NUM_ROWS * NUM_COLS,
            plan@ == plan_upto(prev@, curr@, force, k as int),
        decreases NUM_ROWS * NUM_COLS - k,
    {
        let c = curr.cells[k];
        if force || c != prev.cells[k] {
            plan.push(CellWrite { x: k % NUM_COLS, y: k / NUM_COLS, glyph: c });
        }
        k = k + 1;
        proof {
            assert(plan@ =~= plan_upto(prev@, curr@, force, k as int));
        }
    }
    plan
}

} // verus!
