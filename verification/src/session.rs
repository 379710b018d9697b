//! The game loop orchestrator's decision core: one simulation tick as a
//! pure state transition. The surrounding program polls the keyboard,
//! measures elapsed time, hands both in here, then performs the returned
//! cues (sounds, frame handoff) and stops once the state is terminal.

use vstd::prelude::*;
use crate::frame::Frame;
use crate::frame::empty_grid;
use crate::frame::new_frame;
use crate::player::Player;
use crate::player::PlayerV;
use crate::player::move_left_v;
use crate::player::move_right_v;
use crate::player::player_draw_v;
use crate::player::player_update_v;
use crate::player::shoot_fires;
use crate::player::shoot_v;
use crate::swarm::Invaders;
use crate::swarm::SwarmV;
use crate::swarm::draw_army_v;
use crate::swarm::swarm_stepped;
use crate::swarm::swarm_update_v;
use crate::collision::detect_hits;
use crate::collision::detect_hits_v;

verus! {

/// A decoded key event, in the order the keyboard produced it.
#[derive(Clone, Copy, PartialEq, Eq, Structural, Debug)]
pub enum InputEvent {
    Left,
    Right,
    Fire,
    Quit,
}

/// The session state machine: `Playing` is initial; `Won` and `Lost`
/// are terminal — once either is reached, no further tick runs.
#[derive(Clone, Copy, PartialEq, Eq, Structural, Debug)]
pub enum SessionState {
    Playing,
    Won,
    Lost,
}

/// Mathematical model of the whole session.
#[verifier::ext_equal]
pub ghost struct SessionV {
    pub player: PlayerV,
    pub swarm: SwarmV,
    pub state: SessionState,
}

impl SessionV {
    /// Both entities are well formed, and while the session is still
    /// being played the swarm has not reached the player's row.
    pub open spec fn wf(self) -> bool {
        &&& self.player.wf()
        &&& self.swarm.wf()
        &&& self.state == SessionState::Playing ==> !self.swarm.reached_bottom()
    }
}

/// What draining one batch of input events leaves behind.
#[verifier::ext_equal]
pub ghost struct EventsOutcomeV {
    pub player: PlayerV,
    pub pew: bool,
    pub quit: bool,
}

/// Folds an earlier firing cue into an outcome.
pub open spec fn combine_pew(fired: bool, e: EventsOutcomeV) -> EventsOutcomeV {
    EventsOutcomeV { pew: fired || e.pew, ..e }
}

/// The events applied to the player in order, stopping at the first
/// quit: left/right move the ship, fire attempts a shot (recording
/// whether one was spawned), and quit ends the drain at once — events
/// after it are never applied.
pub open spec fn apply_events_v(p: PlayerV, evs: Seq<InputEvent>) -> EventsOutcomeV
    decreases evs.len(),
{
    if evs.len() == 0 {
        EventsOutcomeV { player: p, pew: false, quit: false }
    } else {
        match evs[0] {
            InputEvent::Quit => EventsOutcomeV { player: p, pew: false, quit: true },
            InputEvent::Left => apply_events_v(move_left_v(p), evs.drop_first()),
            InputEvent::Right => apply_events_v(move_right_v(p), evs.drop_first()),
            InputEvent::Fire => combine_pew(
                shoot_fires(p),
                apply_events_v(shoot_v(p), evs.drop_first()),
            ),
        }
    }
}

/// A batch holding a quit always ends the drain with `quit` set.
pub proof fn lemma_apply_events_quit(p: PlayerV, evs: Seq<InputEvent>)
    requires
        evs.contains(InputEvent::Quit),
    ensures
        apply_events_v(p, evs).quit,
    decreases evs.len(),
{
    let k = choose|k: int| 0 <= k < evs.len() && evs[k] == InputEvent::Quit;
    if evs[0] != InputEvent::Quit {
        assert(evs.drop_first()[k - 1] == evs[k]);
        assert(evs.drop_first().contains(InputEvent::Quit));
        match evs[0] {
            InputEvent::Quit => {},
            InputEvent::Left => lemma_apply_events_quit(move_left_v(p), evs.drop_first()),
            InputEvent::Right => lemma_apply_events_quit(move_right_v(p), evs.drop_first()),
            InputEvent::Fire => lemma_apply_events_quit(shoot_v(p), evs.drop_first()),
        }
    }
}

/// The frame one tick composes: the player drawn first, then the swarm,
/// into a fresh all-empty grid — so an invader's glyph wins an overlap.
pub open spec fn compose_frame_v(p: PlayerV, s: SwarmV) -> Seq<char> {
    draw_army_v(player_draw_v(p, empty_grid()), s.army)
}

/// Everything one tick decides.
#[verifier::ext_equal]
pub ghost struct StepV {
    pub session: SessionV,
    pub pew: bool,
    pub moved: bool,
    pub explode: bool,
    pub frame: Option<Seq<char>>,
}

/// One tick of the session, `Playing` at entry: drain the events
/// (a quit ends the session as `Lost` at once, with no update and no
/// frame); otherwise update the player, then the swarm, resolve
/// collisions, compose the frame, and end the session `Won` when no
/// invader is left, else `Lost` when the swarm has reached the player's
/// row.
pub open spec fn step_v(sv: SessionV, evs: Seq<InputEvent>, delta_ms: u64) -> StepV {
    let eo = apply_events_v(sv.player, evs);
    if eo.quit {
        StepV {
            session: SessionV { player: eo.player, swarm: sv.swarm, state: SessionState::Lost },
            pew: eo.pew,
            moved: false,
            explode: false,
            frame: None,
        }
    } else {
        let p1 = player_update_v(eo.player, delta_ms);
        let moved = swarm_stepped(sv.swarm, delta_ms);
        let s1 = swarm_update_v(sv.swarm, delta_ms);
        let (p2, s2, explode) = detect_hits_v(p1, s1);
        let state = if s2.all_killed() {
            SessionState::Won
        } else if s2.reached_bottom() {
            SessionState::Lost
        } else {
            SessionState::Playing
        };
        StepV {
            session: SessionV { player: p2, swarm: s2, state },
            pew: eo.pew,
            moved,
            explode,
            frame: Some(compose_frame_v(p2, s2)),
        }
    }
}

/// Law: a quit key ends the session immediately, whatever the player
/// and swarm state — the session is `Lost`, no update runs after the
/// quit is seen (the swarm is untouched, no move or explosion cue
/// fires), and no frame is composed.
pub proof fn lemma_quit_is_immediate(sv: SessionV, evs: Seq<InputEvent>, delta_ms: u64)
    requires
        evs.contains(InputEvent::Quit),
    ensures
        ({
            let r = step_v(sv, evs, delta_ms);
            &&& r.session.state == SessionState::Lost
            &&& r.session.swarm == sv.swarm
            &&& r.frame is None
            &&& !r.moved
            &&& !r.explode
        }),
{
    lemma_apply_events_quit(sv.player, evs);
}

/// What one executed tick hands back to the surrounding program: which
/// sound cues fired and, unless the tick was cut short by a quit, the
/// freshly composed frame.
pub struct StepOutcome {
    pub pew: bool,
    pub moved: bool,
    pub explode: bool,
    pub frame: Option<Frame>,
}

/// The session as executed: its model is `SessionV`.
pub struct Session {
    pub player: Player,
    pub invaders: Invaders,
    pub state: SessionState,
}

impl View for Session {
    type V = SessionV;

    open spec fn view(&self) -> SessionV {
        SessionV { player: self.player@, swarm: self.invaders@, state: self.state }
    }
}

impl Session {
    /// A fresh session: new player, opening swarm formation, `Playing`.
    pub fn new() -> (s: Session)
        ensures
            s@.wf(),
            s@.state == SessionState::Playing,
            s@.player == (PlayerV {
                x: crate::NUM_COLS as int / 2,
                shots: Seq::<crate::player::Projectile>::empty(),
            }),
            s@.swarm == (SwarmV {
                army: crate::swarm::initial_army(),
                dir: crate::swarm::Dir::Right,
                timer_ms: 0,
            }),
    {
        Session { player: Player::new(), invaders: Invaders::new(), state: SessionState::Playing }
    }

    /// Runs one tick: applies `events` in order, then — unless a quit
    /// ended the tick — the timed updates, collision resolution, and the
    /// frame composition, exactly as `step_v` states.
    pub fn step(&mut self, events: &Vec<InputEvent>, delta_ms: u64) -> (out: StepOutcome)
        requires
            old(self)@.wf(),
            old(self)@.state == SessionState::Playing,
            old(self).invaders.timer_ms + delta_ms <= u64::MAX,
        ensures
            final(self)@.wf(),
            ({
                let r = step_v(old(self)@, events@, delta_ms);
                &&& final(self)@ == r.session
                &&& out.pew == r.pew
                &&& out.moved == r.moved
                &&& out.explode == r.explode
                &&& (out.frame is Some <==> r.frame is Some)
                &&& (out.frame matches Some(f) ==> f@ == r.frame.unwrap() && f.wf())
            }),
    {
        let ghost evs = events@;
        let ghost target = apply_events_v(old(self)@.player, evs);
        let mut pew = false;
        let mut i: usize = 0;
        proof {
            assert(evs.skip(0) =~= evs);
        }
        while i < events.len()
            invariant
                old(self)@.wf(),
                self.player.wf(),
                evs == events@,
                i <= evs.len(),
                self.invaders == old(self).invaders,
                self.state == old(self).state,
                target == apply_events_v(old(self)@.player, evs),
                combine_pew(pew, apply_events_v(self.player@, evs.skip(i as int))) == target,
            decreases evs.len() - i,
        {
            proof {
                let rest = evs.skip(i as int);
                assert(rest[0] == evs[i as int]);
                assert(rest.drop_first() =~= evs.skip(i as int + 1));
            }
            let ev = events[i];
            match ev {
                InputEvent::Left => self.player.move_left(),
                InputEvent::Right => self.player.move_right(),
                InputEvent::Fire => {
                    let fired = self.player.shoot();
                    pew = pew || fired;
                },
                InputEvent::Quit => {
                    self.state = SessionState::Lost;
                    return StepOutcome { pew, moved: false, explode: false, frame: None };
                },
            }
            i = i + 1;
        }
        proof {
            assert(evs.skip(evs.len() as int) =~= Seq::<InputEvent>::empty());
            assert(!target.quit && target.player == self.player@ && target.pew == pew);
        }
        self.player.update(delta_ms);
        let moved = self.invaders.update(delta_ms);
        let explode = detect_hits(&mut self.player, &mut self.invaders);
        let mut fr = new_frame();
        self.player.draw(&mut fr);
        self.invaders.draw(&mut fr);
        if self.invaders.all_killed() {
            self.state = SessionState::Won;
        } else if self.invaders.reached_bottom() {
            self.state = SessionState::Lost;
        }
        StepOutcome { pew, moved, explode, frame: Some(fr) }
    }
}

} // verus!
