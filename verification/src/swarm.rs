//! The invader swarm: a set of live invader cells that marches side to
//! side in synchronized discrete steps, descends one row when it meets a
//! horizontal bound, and speeds up as it shrinks.

use vstd::prelude::*;
use crate::NUM_COLS;
use crate::NUM_ROWS;
use crate::frame::Frame;
use crate::frame::put_glyph;
use crate::player::PLAYER_ROW;

verus! {

pub const INVADER_GLYPH: char = '+';

/// Number of invaders the opening formation holds.
pub const MAX_INVADERS: usize = 72;

/// Shortest step interval, approached as the swarm shrinks.
pub const BASE_INTERVAL_MS: u64 = 250;

/// What each live invader adds to the step interval: the swarm speeds up
/// with every kill.
pub const MS_PER_INVADER: u64 = 25;

/// Horizontal direction the swarm is marching in.
#[derive(Clone, Copy, PartialEq, Eq, Structural, Debug)]
pub enum Dir {
    Left,
    Right,
}

/// One live invader, at a whole-cell position. Dead invaders are
/// removed from the army, never flagged.
#[derive(Clone, Copy, PartialEq, Eq, Structural, Debug)]
pub struct Invader {
    pub x: usize,
    pub y: usize,
}

/// Mathematical model of the swarm: the live invaders, the direction of
/// march, and the accumulated movement timer in milliseconds.
#[verifier::ext_equal]
pub ghost struct SwarmV {
    pub army: Seq<Invader>,
    pub dir: Dir,
    pub timer_ms: int,
}

/// Every invader stands on the play field, and the army never outgrows
/// the opening formation.
pub open spec fn army_wf(army: Seq<Invader>) -> bool {
    &&& army.len() <= MAX_INVADERS
    &&& forall|i: int|
        0 <= i < army.len() ==> (#[trigger] army[i]).x < NUM_COLS && army[i].y < NUM_ROWS
}

/// True iff some invader's row has reached or passed the player's row.
pub open spec fn reached_bottom_a(army: Seq<Invader>) -> bool {
    exists|i: int| 0 <= i < army.len() && (#[trigger] army[i]).y >= PLAYER_ROW
}

impl SwarmV {
    pub open spec fn wf(self) -> bool {
        army_wf(self.army) && self.timer_ms >= 0
    }

    /// True iff no invader is left alive.
    pub open spec fn all_killed(self) -> bool {
        self.army.len() == 0
    }

    pub open spec fn reached_bottom(self) -> bool {
        reached_bottom_a(self.army)
    }
}

/// Step interval as a function of the live-invader count.
pub open spec fn interval_ms(count: nat) -> int {
    BASE_INTERVAL_MS + MS_PER_INVADER * count
}

/// Law: the step interval falls as the swarm shrinks — a strictly
/// smaller live count gives a strictly shorter interval, an equal count
/// the same interval, and it never drops below `BASE_INTERVAL_MS`.
pub proof fn lemma_interval_monotone(n1: nat, n2: nat)
    requires
        n1 <= n2,
    ensures
        interval_ms(n1) <= interval_ms(n2),
        n1 < n2 ==> interval_ms(n1) < interval_ms(n2),
        BASE_INTERVAL_MS <= interval_ms(n1),
{
}

/// The column at which the march along `dir` runs out of field.
pub open spec fn edge_bound(dir: Dir) -> int {
    match dir {
        Dir::Left => 0,
        Dir::Right => NUM_COLS - 1,
    }
}

/// True iff the next horizontal shift would push some invader past a
/// horizontal bound.
pub open spec fn at_edge(army: Seq<Invader>, dir: Dir) -> bool {
    exists|i: int| 0 <= i < army.len() && (#[trigger] army[i]).x == edge_bound(dir)
}

/// Every invader shifted one column along the direction of march.
pub open spec fn shifted(army: Seq<Invader>, dir: Dir) -> Seq<Invader> {
    match dir {
        Dir::Left => army.map(|i: int, v: Invader| Invader { x: (v.x - 1) as usize, y: v.y }),
        Dir::Right => army.map(|i: int, v: Invader| Invader { x: (v.x + 1) as usize, y: v.y }),
    }
}

/// Every invader shifted one row down.
pub open spec fn descended(army: Seq<Invader>) -> Seq<Invader> {
    army.map(|i: int, v: Invader| Invader { x: v.x, y: (v.y + 1) as usize })
}

pub open spec fn flip(dir: Dir) -> Dir {
    match dir {
        Dir::Left => Dir::Right,
        Dir::Right => Dir::Left,
    }
}

/// One discrete swarm step: march one column onward — unless the march
/// would leave the field, in which case the whole swarm reverses
/// direction and steps one row down instead, with no horizontal shift.
pub open spec fn swarm_step_v(s: SwarmV) -> SwarmV {
    if at_edge(s.army, s.dir) {
        SwarmV { army: descended(s.army), dir: flip(s.dir), ..s }
    } else {
        SwarmV { army: shifted(s.army, s.dir), ..s }
    }
}

/// True iff accumulating `delta_ms` crosses the current step interval.
pub open spec fn swarm_stepped(s: SwarmV, delta_ms: u64) -> bool {
    s.timer_ms + delta_ms >= interval_ms(s.army.len())
}

/// Effect of `Invaders::update`: the elapsed time joins the movement
/// timer; when the timer crosses the current interval, the timer keeps
/// the fractional carry-over `accumulated - interval` (it is not reset
/// to zero) and one discrete step is applied.
pub open spec fn swarm_update_v(s: SwarmV, delta_ms: u64) -> SwarmV {
    if swarm_stepped(s, delta_ms) {
        swarm_step_v(
            SwarmV { timer_ms: s.timer_ms + delta_ms - interval_ms(s.army.len()), ..s },
        )
    } else {
        SwarmV { timer_ms: s.timer_ms + delta_ms, ..s }
    }
}

/// Law: movement never creates or destroys an invader — an update leaves
/// the live count exactly as it was; only the collision resolver shrinks
/// the army.
pub proof fn lemma_update_preserves_count(s: SwarmV, delta_ms: u64)
    ensures
        swarm_update_v(s, delta_ms).army.len() == s.army.len(),
{
}

/// The opening formation: a rectangular grid in the upper portion of the
/// field, one invader every other column and every other row.
pub open spec fn initial_army() -> Seq<Invader> {
    Seq::new(
        MAX_INVADERS as nat,
        |k: int| Invader { x: (2 + 2 * (k / 4)) as usize, y: (2 + 2 * (k % 4)) as usize },
    )
}

/// The frame after the swarm is drawn: each live invader's glyph at its
/// cell, in army order.
pub open spec fn draw_army_v(f: Seq<char>, army: Seq<Invader>) -> Seq<char>
    decreases army.len(),
{
    if army.len() == 0 {
        f
    } else {
        draw_army_v(
            put_glyph(f, army[0].x as int, army[0].y as int, INVADER_GLYPH),
            army.drop_first(),
        )
    }
}

/// The invader swarm as executed: its model is `SwarmV`.
pub struct Invaders {
    pub army: Vec<Invader>,
    pub dir: Dir,
    pub timer_ms: u64,
}

impl View for Invaders {
    type V = SwarmV;

    open spec fn view(&self) -> SwarmV {
        SwarmV { army: self.army@, dir: self.dir, timer_ms: self.timer_ms as int }
    }
}

fn interval_for(count: usize) -> (r: u64)
    requires
        count <= MAX_INVADERS,
    ensures
        r == interval_ms(count as nat),
{
    BASE_INTERVAL_MS + MS_PER_INVADER * (count as u64)
}

/// Shifts every invader one column along `dir` in place.
fn shift_army(army: &mut Vec<Invader>, dir: Dir)
    requires
        army_wf(old(army)@),
        !at_edge(old(army)@, dir),
    ensures
        final(army)@ == shifted(old(army)@, dir),
{
    let mut i: usize = 0;
    while i < army.len()
        invariant
            army_wf(old(army)@),
            !at_edge(old(army)@, dir),
            army@.len() == old(army)@.len(),
            i <= army@.len(),
            forall|j: int| 0 <= j < i ==> army@[j] == shifted(old(army)@, dir)[j],
            forall|j: int| i <= j < army@.len() ==> army@[j] == old(army)@[j],
        decreases army@.len() - i,
    {
        let v = army[i];
        proof {
            assert(old(army)@[i as int].x != edge_bound(dir));
        }
        let nx = match dir {
            Dir::Left => v.x - 1,
            Dir::Right => v.x + 1,
        };
        army[i] = Invader { x: nx, y: v.y };
        i = i + 1;
    }
    proof {
        assert(army@ =~= shifted(old(army)@, dir));
    }
}

/// Shifts every invader one row down in place.
fn descend_army(army: &mut Vec<Invader>)
    requires
        army_wf(old(army)@),
        !reached_bottom_a(old(army)@),
    ensures
        final(army)@ == descended(old(army)@),
{
    let mut i: usize = 0;
    while i < army.len()
        invariant
            army_wf(old(army)@),
            !reached_bottom_a(old(army)@),
            army@.len() == old(army)@.len(),
            i <= army@.len(),
            forall|j: int| 0 <= j < i ==> army@[j] == descended(old(army)@)[j],
            forall|j: int| i <= j < army@.len() ==> army@[j] == old(army)@[j],
        decreases army@.len() - i,
    {
        let v = army[i];
        proof {
            assert(old(army)@[i as int].y < PLAYER_ROW);
        }
        army[i] = Invader { x: v.x, y: v.y + 1 };
        i = i + 1;
    }
    proof {
        assert(army@ =~= descended(old(army)@));
    }
}

impl Invaders {
    /// Populates the opening formation, marching right, timer at zero.
    pub fn new() -> (inv: Invaders)
        ensures
            inv@.wf(),
            !inv@.reached_bottom(),
            !inv@.all_killed(),
            inv@.army == initial_army(),
            inv@.dir == Dir::Right,
            inv@.timer_ms == 0,
    {
        let mut army: Vec<Invader> = Vec::new();
        let mut k: usize = 0;
        while k < MAX_INVADERS
            invariant
                k <= MAX_INVADERS,
                army@.len() == k,
                forall|j: int| 0 <= j < k ==> army@[j] == initial_army()[j],
            decreases MAX_INVADERS - k,
        {
            let x = 2 + 2 * (k / 4);
            let y = 2 + 2 * (k % 4);
            army.push(Invader { x, y });
            k = k + 1;
        }
        proof {
            assert(army@ =~= initial_army());
        }
        let inv = Invaders { army, dir: Dir::Right, timer_ms: 0 };
        proof {
            assert forall|i: int| 0 <= i < inv@.army.len() implies (#[trigger] inv@.army[i]).x
                < NUM_COLS && inv@.army[i].y < PLAYER_ROW by {
                assert(inv@.army[i] == initial_army()[i]);
            }
        }
        inv
    }

    /// True iff the live set is empty: the session is won.
    pub fn all_killed(&self) -> (r: bool)
        ensures
            r == self@.all_killed(),
    {
        self.army.len() == 0
    }

    /// True iff some invader has reached or passed the player's row: the
    /// session is lost.
    pub fn reached_bottom(&self) -> (r: bool)
        ensures
            r == self@.reached_bottom(),
    {
        let mut i: usize = 0;
        while i < self.army.len()
            invariant
                i <= self.army@.len(),
                forall|j: int| 0 <= j < i ==> (#[trigger] self.army@[j]).y < PLAYER_ROW,
            decreases self.army@.len() - i,
        {
            if self.army[i].y >= PLAYER_ROW {
                return true;
            }
            i = i + 1;
        }
        false
    }

    fn at_edge_now(&self) -> (edge: bool)
        ensures
            edge == at_edge(self@.army, self@.dir),
    {
        let bound: usize = match self.dir {
            Dir::Left => 0,
            Dir::Right => NUM_COLS - 1,
        };
        let mut i: usize = 0;
        while i < self.army.len()
            invariant
                bound == edge_bound(self@.dir),
                i <= self.army@.len(),
                forall|j: int| 0 <= j < i ==> (#[trigger] self.army@[j]).x != edge_bound(self@.dir),
            decreases self.army@.len() - i,
        {
            if self.army[i].x == bound {
                return true;
            }
            i = i + 1;
        }
        false
    }

    /// Accumulates `delta_ms` into the movement timer. When the timer
    /// crosses the current interval, the carry-over is kept and one
    /// discrete step is applied: march one column onward, or reverse and
    /// descend one row at a horizontal bound. Returns true exactly when
    /// a step was applied (the cue for the movement sound).
    ///
    /// The session stops updating the swarm once it has reached the
    /// player's row, so an update never pushes an invader off the field.
    pub fn update(&mut self, delta_ms: u64) -> (moved: bool)
        requires
            old(self)@.wf(),
            !old(self)@.reached_bottom(),
            old(self).timer_ms + delta_ms <= u64::MAX,
        ensures
            final(self)@.wf(),
            moved == swarm_stepped(old(self)@, delta_ms),
            final(self)@ == swarm_update_v(old(self)@, delta_ms),
    {
        self.timer_ms = self.timer_ms + delta_ms;
        let interval = interval_for(self.army.len());
        if self.timer_ms >= interval {
            self.timer_ms = self.timer_ms - interval;
            if self.at_edge_now() {
                self.dir = match self.dir {
                    Dir::Left => Dir::Right,
                    Dir::Right => Dir::Left,
                };
                proof {
                    assert(at_edge(old(self)@.army, old(self)@.dir));
                }
                descend_army(&mut self.army);
            } else {
                shift_army(&mut self.army, self.dir);
            }
            proof {
                assert(self@ =~= swarm_update_v(old(self)@, delta_ms));
                assert forall|i: int| 0 <= i < self@.army.len() implies (#[trigger] self@.army[
                    i
                ]).x < NUM_COLS && self@.army[i].y < NUM_ROWS by {
                    assert(old(self)@.army[i].x < NUM_COLS && old(self)@.army[i].y < NUM_ROWS);
                }
            }
            true
        } else {
            proof {
                assert(self@ =~= swarm_update_v(old(self)@, delta_ms));
            }
            false
        }
    }

    /// Writes each live invader's glyph at its cell.
    pub fn draw(&self, frame: &mut Frame)
        requires
            self@.wf(),
            old(frame).wf(),
        ensures
            final(frame).wf(),
            final(frame)@ == draw_army_v(old(frame)@, self@.army),
    {
        proof {
            assert(self@.army.skip(0) =~= self@.army);
        }
        let mut i: usize = 0;
        while i < self.army.len()
            invariant
                self@.wf(),
                i <= self.army@.len(),
                frame.wf(),
                draw_army_v(frame@, self@.army.skip(i as int)) == draw_army_v(
                    old(frame)@,
                    self@.army,
                ),
            decreases self.army@.len() - i,
        {
            let v = self.army[i];
            let ghost pre = frame@;
            frame.set(v.x, v.y, INVADER_GLYPH);
            proof {
                let rest = self@.army.skip(i as int);
                assert(rest[0] == self@.army[i as int]);
                assert(rest.drop_first() =~= self@.army.skip(i as int + 1));
                assert(draw_army_v(pre, rest) == draw_army_v(frame@, rest.drop_first()));
            }
            i = i + 1;
        }
        proof {
            assert(self@.army.skip(self.army@.len() as int) =~= Seq::<Invader>::empty());
            assert(draw_army_v(frame@, Seq::<Invader>::empty()) == frame@);
        }
    }
}

} // verus!
