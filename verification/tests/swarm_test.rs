use invaders::swarm::Dir;
use invaders::swarm::Invader;
use invaders::swarm::Invaders;
use invaders::NUM_COLS;

#[test]
fn opening_formation() {
    let inv = Invaders::new();
    assert_eq!(inv.army.len(), 72);
    assert_eq!(inv.dir, Dir::Right);
    assert_eq!(inv.timer_ms, 0);
    assert_eq!(inv.army[0], Invader { x: 2, y: 2 });
    assert_eq!(inv.army[3], Invader { x: 2, y: 8 });
    assert_eq!(inv.army[71], Invader { x: 36, y: 8 });
    assert!(!inv.all_killed());
    assert!(!inv.reached_bottom());
}

#[test]
fn timer_below_interval_moves_nothing() {
    let mut inv = Invaders::new();
    // the opening interval is 250 + 25 * 72 = 2050 ms
    assert!(!inv.update(2000));
    assert_eq!(inv.timer_ms, 2000);
    assert_eq!(inv.army[0], Invader { x: 2, y: 2 });
}

#[test]
fn crossing_interval_steps_once_and_keeps_carry() {
    let mut inv = Invaders::new();
    assert!(!inv.update(2000));
    assert!(inv.update(100));
    // the accumulator keeps 2100 - 2050, it is not reset to zero
    assert_eq!(inv.timer_ms, 50);
    // one step right was applied to every invader
    assert_eq!(inv.army[0], Invader { x: 3, y: 2 });
    assert_eq!(inv.army[71], Invader { x: 37, y: 8 });
    assert_eq!(inv.dir, Dir::Right);
}

#[test]
fn fewer_invaders_means_shorter_interval() {
    // one live invader: the interval is 250 + 25 = 275 ms
    let mut small = Invaders { army: vec![Invader { x: 10, y: 5 }], dir: Dir::Right, timer_ms: 0 };
    assert!(!small.update(274));
    assert!(small.update(1));
    // the full formation has not stepped yet after the same 275 ms
    let mut full = Invaders::new();
    assert!(!full.update(274));
    assert!(!full.update(1));
}

#[test]
fn edge_reverses_and_descends_without_horizontal_shift() {
    let mut inv = Invaders {
        army: vec![Invader { x: NUM_COLS - 1, y: 4 }, Invader { x: 30, y: 4 }],
        dir: Dir::Right,
        timer_ms: 0,
    };
    // interval for two invaders is 300 ms
    assert!(inv.update(300));
    assert_eq!(inv.dir, Dir::Left);
    assert_eq!(inv.army[0], Invader { x: NUM_COLS - 1, y: 5 });
    assert_eq!(inv.army[1], Invader { x: 30, y: 5 });
    // away from the edge again: the march resumes, now leftward
    assert!(inv.update(300));
    assert_eq!(inv.army[0], Invader { x: NUM_COLS - 2, y: 5 });
    assert_eq!(inv.army[1], Invader { x: 29, y: 5 });
}

#[test]
fn left_edge_also_reverses() {
    let mut inv = Invaders { army: vec![Invader { x: 0, y: 3 }], dir: Dir::Left, timer_ms: 0 };
    assert!(inv.update(275));
    assert_eq!(inv.dir, Dir::Right);
    assert_eq!(inv.army[0], Invader { x: 0, y: 4 });
}

#[test]
fn bottom_and_kill_reports() {
    let empty = Invaders { army: vec![], dir: Dir::Right, timer_ms: 0 };
    assert!(empty.all_killed());
    assert!(!empty.reached_bottom());
    let low = Invaders { army: vec![Invader { x: 5, y: 19 }], dir: Dir::Right, timer_ms: 0 };
    assert!(!low.all_killed());
    assert!(low.reached_bottom());
    let high = Invaders { army: vec![Invader { x: 5, y: 18 }], dir: Dir::Right, timer_ms: 0 };
    assert!(!high.reached_bottom());
}
