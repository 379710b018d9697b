use invaders::player::Player;
use invaders::player::PLAYER_GLYPH;
use invaders::session::InputEvent;
use invaders::session::Session;
use invaders::session::SessionState;
use invaders::swarm::Dir;
use invaders::swarm::Invader;
use invaders::swarm::Invaders;
use invaders::swarm::INVADER_GLYPH;
use invaders::NUM_COLS;

#[test]
fn untouched_swarm_eventually_loses() {
    let mut session = Session::new();
    let no_events: Vec<InputEvent> = vec![];
    let mut ticks: u32 = 0;
    while session.state == SessionState::Playing {
        session.step(&no_events, 3000);
        ticks += 1;
        assert!(ticks < 10_000, "the swarm never reached the bottom");
    }
    assert_eq!(session.state, SessionState::Lost);
    assert!(session.invaders.reached_bottom());
}

#[test]
fn shooting_down_every_invader_wins() {
    let mut session = Session {
        player: Player { x: 10, shots: vec![] },
        invaders: Invaders {
            army: vec![Invader { x: 10, y: 17 }],
            dir: Dir::Right,
            timer_ms: 0,
        },
        state: SessionState::Playing,
    };
    let out = session.step(&vec![InputEvent::Fire], 0);
    assert!(out.pew);
    assert!(!out.explode);
    assert_eq!(session.state, SessionState::Playing);
    // 50 ms moves the projectile one cell up, onto the invader's row
    let out = session.step(&vec![], 50);
    assert!(out.explode);
    assert_eq!(session.state, SessionState::Won);
    assert!(session.invaders.all_killed());
}

#[test]
fn quit_loses_immediately_with_no_further_updates() {
    let mut session = Session::new();
    let events = vec![InputEvent::Left, InputEvent::Quit, InputEvent::Right];
    let out = session.step(&events, 5000);
    assert_eq!(session.state, SessionState::Lost);
    // the event before the quit was applied; the one after was not
    assert_eq!(session.player.x, NUM_COLS / 2 - 1);
    // no update ran: the swarm is untouched and no frame was composed
    assert_eq!(session.invaders.timer_ms, 0);
    assert_eq!(session.invaders.army.len(), 72);
    assert!(out.frame.is_none());
    assert!(!out.moved);
    assert!(!out.explode);
    assert!(!out.pew);
}

#[test]
fn tick_composes_player_then_swarm_frame() {
    let mut session = Session::new();
    let out = session.step(&vec![], 0);
    let frame = out.frame.expect("a tick without a quit composes a frame");
    assert_eq!(frame.get(NUM_COLS / 2, 19), PLAYER_GLYPH);
    assert_eq!(frame.get(2, 2), INVADER_GLYPH);
    assert_eq!(session.state, SessionState::Playing);
}

#[test]
fn fire_cue_reported_once_per_spawn() {
    let mut session = Session::new();
    let out = session.step(&vec![InputEvent::Fire, InputEvent::Fire], 0);
    assert!(out.pew);
    assert_eq!(session.player.shots.len(), 1);
    let out = session.step(&vec![InputEvent::Fire], 1);
    assert!(!out.pew);
    assert_eq!(session.player.shots.len(), 1);
}

#[test]
fn swarm_move_cue_fires_on_step_ticks_only() {
    let mut session = Session::new();
    let out = session.step(&vec![], 2000);
    assert!(!out.moved);
    let out = session.step(&vec![], 100);
    assert!(out.moved);
    assert_eq!(session.invaders.timer_ms, 50);
}
