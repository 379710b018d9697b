use invaders::frame::new_frame;
use invaders::frame::EMPTY_GLYPH;
use invaders::render::render_plan;
use invaders::render::CellWrite;
use invaders::NUM_COLS;
use invaders::NUM_ROWS;

#[test]
fn fresh_frame_is_all_empty() {
    let f = new_frame();
    assert_eq!(f.cells.len(), NUM_ROWS * NUM_COLS);
    assert!(f.cells.iter().all(|c| *c == EMPTY_GLYPH));
    assert_eq!(f.get(3, 4), EMPTY_GLYPH);
}

#[test]
fn single_changed_cell_writes_exactly_one() {
    let prev = new_frame();
    let mut curr = new_frame();
    curr.set(3, 4, 'A');
    let plan = render_plan(&prev, &curr, false);
    assert_eq!(plan.len(), 1);
    assert_eq!(plan[0], CellWrite { x: 3, y: 4, glyph: 'A' });
}

#[test]
fn forced_render_writes_every_cell() {
    let prev = new_frame();
    let curr = new_frame();
    let plan = render_plan(&prev, &curr, true);
    assert_eq!(plan.len(), NUM_ROWS * NUM_COLS);
    assert_eq!(plan[0], CellWrite { x: 0, y: 0, glyph: EMPTY_GLYPH });
    assert_eq!(plan[NUM_COLS], CellWrite { x: 0, y: 1, glyph: EMPTY_GLYPH });
}

#[test]
fn identical_frames_write_nothing() {
    let mut prev = new_frame();
    let mut curr = new_frame();
    prev.set(7, 2, '+');
    curr.set(7, 2, '+');
    let plan = render_plan(&prev, &curr, false);
    assert_eq!(plan.len(), 0);
}

#[test]
fn cell_reverting_to_empty_is_rewritten() {
    let mut prev = new_frame();
    let curr = new_frame();
    prev.set(5, 5, '|');
    let plan = render_plan(&prev, &curr, false);
    assert_eq!(plan.len(), 1);
    assert_eq!(plan[0], CellWrite { x: 5, y: 5, glyph: EMPTY_GLYPH });
}
