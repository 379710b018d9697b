//! The player entity: a ship on the bottom row that moves horizontally,
//! fires a single projectile upward, and advances that projectile by
//! frame-rate-independent, exact integer motion.

use vstd::prelude::*;
use crate::NUM_COLS;
use crate::NUM_ROWS;
use crate::frame::Frame;

verus! {

/// The row the player occupies: the bottom row of the play field.
pub const PLAYER_ROW: usize = NUM_ROWS - 1;

pub const PLAYER_GLYPH: char = 'A';

pub const SHOT_GLYPH: char = '|';

/// Sub-cell units per cell: rows of moving entities are measured in
/// thousandths of a cell so that motion laws are exact integer arithmetic.
pub const SUBCELL: u64 = 1000;

/// Upward projectile speed in cells per second. Because one cell is
/// `SUBCELL` units and one second is 1000 ms, a projectile travels exactly
/// `SHOT_CELLS_PER_SEC` sub-cell units per millisecond.
pub const SHOT_CELLS_PER_SEC: u64 = 20;

/// Row, in sub-cell units, at which a projectile spawns: one row above
/// the player's row (`(PLAYER_ROW - 1) * SUBCELL`).
pub const SHOT_START_MU: u64 = 18 * 1000;

/// A projectile in flight: `x` is its column, `row_mu` its row in
/// sub-cell units, decreasing as the projectile moves up.
#[derive(Clone, Copy, PartialEq, Eq, Structural, Debug)]
pub struct Projectile {
    pub x: usize,
    pub row_mu: u64,
}

impl Projectile {
    pub open spec fn wf(self) -> bool {
        self.x < NUM_COLS && self.row_mu <= SHOT_START_MU
    }

    /// The whole cell row in which the projectile is drawn and collides:
    /// its sub-cell row floored to a cell.
    pub open spec fn cell_row(self) -> int {
        self.row_mu as int / SUBCELL as int
    }
}

/// Mathematical model of the player: column and in-flight projectiles.
#[verifier::ext_equal]
pub ghost struct PlayerV {
    pub x: int,
    pub shots: Seq<Projectile>,
}

impl PlayerV {
    /// The column is on the play field and at most one projectile is in
    /// flight, itself on the play field.
    pub open spec fn wf(self) -> bool {
        &&& 0 <= self.x < NUM_COLS
        &&& self.shots.len() <= 1
        &&& forall|i: int| 0 <= i < self.shots.len() ==> (#[trigger] self.shots[i]).wf()
    }
}

/// One step left: the column falls by one, clamped at the left bound.
pub open spec fn move_left_v(p: PlayerV) -> PlayerV {
    PlayerV { x: if p.x > 0 { p.x - 1 } else { p.x }, ..p }
}

/// One step right: the column rises by one, clamped at the right bound.
pub open spec fn move_right_v(p: PlayerV) -> PlayerV {
    PlayerV { x: if p.x < NUM_COLS - 1 { p.x + 1 } else { p.x }, ..p }
}

/// A shot is accepted exactly when no projectile is in flight.
pub open spec fn shoot_fires(p: PlayerV) -> bool {
    p.shots.len() == 0
}

/// The projectile a shot spawns: the player's column, one row above the
/// player, about to move upward.
pub open spec fn new_shot(x: int) -> Projectile {
    Projectile { x: x as usize, row_mu: SHOT_START_MU }
}

/// Effect of `shoot`: spawns the projectile when none is in flight,
/// otherwise changes nothing.
pub open spec fn shoot_v(p: PlayerV) -> PlayerV {
    if shoot_fires(p) {
        PlayerV { shots: seq![new_shot(p.x)], ..p }
    } else {
        p
    }
}

/// Where one projectile stands after `delta_ms` milliseconds: its row
/// moves up by exactly `SHOT_CELLS_PER_SEC * delta_ms` sub-cell units,
/// and the projectile is removed when that move would take the row
/// below zero (above the top of the frame).
pub open spec fn shot_step(s: Projectile, delta_ms: u64) -> Option<Projectile> {
    if SHOT_CELLS_PER_SEC * delta_ms > s.row_mu {
        None
    } else {
        Some(Projectile { x: s.x, row_mu: (s.row_mu - SHOT_CELLS_PER_SEC * delta_ms) as u64 })
    }
}

/// `shot_step` applied to every in-flight projectile, dropping the
/// removed ones and keeping the order of the rest.
pub open spec fn shots_step(shots: Seq<Projectile>, delta_ms: u64) -> Seq<Projectile>
    decreases shots.len(),
{
    if shots.len() == 0 {
        shots
    } else {
        (match shot_step(shots[0], delta_ms) {
            Some(s) => seq![s],
            None => Seq::<Projectile>::empty(),
        }) + shots_step(shots.drop_first(), delta_ms)
    }
}

/// Effect of `Player::update`: the column is untouched and every
/// projectile advances by `shot_step`.
pub open spec fn player_update_v(p: PlayerV, delta_ms: u64) -> PlayerV {
    PlayerV { shots: shots_step(p.shots, delta_ms), ..p }
}

/// The frame after the player is drawn: first the player glyph at the
/// player's cell, then each projectile's glyph at its cell.
pub open spec fn draw_shots_v(f: Seq<char>, shots: Seq<Projectile>) -> Seq<char>
    decreases shots.len(),
{
    if shots.len() == 0 {
        f
    } else {
        draw_shots_v(
            crate::frame::put_glyph(f, shots[0].x as int, shots[0].cell_row(), SHOT_GLYPH),
            shots.drop_first(),
        )
    }
}

/// Effect of `Player::draw` on a frame's grid.
pub open spec fn player_draw_v(p: PlayerV, f: Seq<char>) -> Seq<char> {
    draw_shots_v(crate::frame::put_glyph(f, p.x, PLAYER_ROW as int, PLAYER_GLYPH), p.shots)
}

/// Commands of the player's horizontal movement.
pub enum MoveCmd {
    GoLeft,
    GoRight,
}

/// A whole sequence of movement commands applied in order.
pub open spec fn apply_moves(p: PlayerV, cmds: Seq<MoveCmd>) -> PlayerV
    decreases cmds.len(),
{
    if cmds.len() == 0 {
        p
    } else {
        let p1 = match cmds[0] {
            MoveCmd::GoLeft => move_left_v(p),
            MoveCmd::GoRight => move_right_v(p),
        };
        apply_moves(p1, cmds.drop_first())
    }
}

/// Law: whatever sequence of left/right moves is applied, the player's
/// column stays within `[0, NUM_COLS - 1]` — the bounds clamp, they never
/// fail. Moves touch nothing but the column.
pub proof fn lemma_moves_stay_in_bounds(p: PlayerV, cmds: Seq<MoveCmd>)
    requires
        0 <= p.x < NUM_COLS,
    ensures
        0 <= apply_moves(p, cmds).x < NUM_COLS,
        apply_moves(p, cmds).shots == p.shots,
    decreases cmds.len(),
{
    if cmds.len() > 0 {
        let p1 = match cmds[0] {
            MoveCmd::GoLeft => move_left_v(p),
            MoveCmd::GoRight => move_right_v(p),
        };
        lemma_moves_stay_in_bounds(p1, cmds.drop_first());
    }
}

/// Law: `shoot` succeeds at most once until the in-flight projectile is
/// removed — right after a successful shot a second shot is rejected,
/// and a rejected shot spawns nothing and changes nothing.
pub proof fn lemma_shoot_at_most_once(p: PlayerV)
    requires
        p.wf(),
    ensures
        shoot_fires(p) ==> !shoot_fires(shoot_v(p)),
        !shoot_fires(p) ==> shoot_v(p) == p,
{
}

/// The player entity as executed: its model is `PlayerV`.
pub struct Player {
    pub x: usize,
    pub shots: Vec<Projectile>,
}

impl View for Player {
    type V = PlayerV;

    open spec fn view(&self) -> PlayerV {
        PlayerV { x: self.x as int, shots: self.shots@ }
    }
}

impl Player {
    pub open spec fn wf(self) -> bool {
        self@.wf()
    }

    /// A new player: centered column, nothing in flight.
    pub fn new() -> (p: Player)
        ensures
            p.wf(),
            p@.x == NUM_COLS / 2,
            p@.shots == Seq::<Projectile>::empty(),
    {
        Player { x: NUM_COLS / 2, shots: Vec::new() }
    }

    /// Moves one column to the left, clamped at the left bound.
    pub fn move_left(&mut self)
        requires
            old(self).wf(),
        ensures
            final(self).wf(),
            final(self)@ == move_left_v(old(self)@),
    {
        if self.x > 0 {
            self.x = self.x - 1;
        }
    }

    /// Moves one column to the right, clamped at the right bound.
    pub fn move_right(&mut self)
        requires
            old(self).wf(),
        ensures
            final(self).wf(),
            final(self)@ == move_right_v(old(self)@),
    {
        if self.x < NUM_COLS - 1 {
            self.x = self.x + 1;
        }
    }

    /// Fires if no projectile is in flight: spawns one at the player's
    /// column one row above the player. Returns true exactly when a
    /// projectile was spawned (the cue for the firing sound); a shot
    /// while one is in flight is rejected and returns false.
    pub fn shoot(&mut self) -> (fired: bool)
        requires
            old(self).wf(),
        ensures
            final(self).wf(),
            fired == shoot_fires(old(self)@),
            final(self)@ == shoot_v(old(self)@),
    {
        if self.shots.len() == 0 {
            self.shots.push(Projectile { x: self.x, row_mu: SHOT_START_MU });
            assert(self@.shots =~= seq![new_shot(old(self)@.x)]);
            true
        } else {
            false
        }
    }

    /// Advances the in-flight projectile upward by exactly
    /// `SHOT_CELLS_PER_SEC * delta_ms` sub-cell units and removes it when
    /// its row would pass above the top of the frame.
    pub fn update(&mut self, delta_ms: u64)
        requires
            old(self).wf(),
        ensures
            final(self).wf(),
            final(self)@ == player_update_v(old(self)@, delta_ms),
    {
        if self.shots.len() > 0 {
            let s = self.shots[0];
            proof {
                assert(old(self)@.shots[0].wf());
                assert(old(self)@.shots.drop_first().len() == 0);
                assert(shots_step(old(self)@.shots.drop_first(), delta_ms)
                    =~= Seq::<Projectile>::empty());
            }
            if delta_ms >= SUBCELL {
                // a whole second of travel would clear the entire frame:
                // SHOT_CELLS_PER_SEC * delta_ms >= 20000 > SHOT_START_MU
                let _ = self.shots.remove(0);
            } else {
                let travelled = SHOT_CELLS_PER_SEC * delta_ms;
                if travelled > s.row_mu {
                    let _ = self.shots.remove(0);
                } else {
                    self.shots[0] = Projectile { x: s.x, row_mu: s.row_mu - travelled };
                }
            }
            assert(self@.shots =~= shots_step(old(self)@.shots, delta_ms));
        }
    }

    /// Writes the player glyph at the player's cell and the projectile
    /// glyph at the projectile's cell.
    pub fn draw(&self, frame: &mut Frame)
        requires
            self.wf(),
            old(frame).wf(),
        ensures
            final(frame).wf(),
            final(frame)@ == player_draw_v(self@, old(frame)@),
    {
        frame.set(self.x, PLAYER_ROW, PLAYER_GLYPH);
        let ghost after_player = frame@;
        if self.shots.len() > 0 {
            let s = self.shots[0];
            proof {
                assert(self@.shots[0].wf());
                assert(self@.shots.drop_first().len() == 0);
            }
            let row = (s.row_mu / SUBCELL) as usize;
            frame.set(s.x, row, SHOT_GLYPH);
            proof {
                let shots = self@.shots;
                assert(row as int == s.cell_row());
                assert(frame@ == crate::frame::put_glyph(
                    after_player, shots[0].x as int, shots[0].cell_row(), SHOT_GLYPH));
                assert(draw_shots_v(after_player, shots) == draw_shots_v(frame@, shots.drop_first()));
                assert(draw_shots_v(frame@, shots.drop_first()) == frame@);
            }
        } else {
            proof {
                assert(draw_shots_v(after_player, self@.shots) == after_player);
            }
        }
    }
}

} // verus!
