use invaders::player::Player;
use invaders::player::Projectile;
use invaders::NUM_COLS;

#[test]
fn new_player_is_centered_and_unarmed() {
    let p = Player::new();
    assert_eq!(p.x, NUM_COLS / 2);
    assert_eq!(p.shots.len(), 0);
}

#[test]
fn moves_clamp_at_bounds() {
    let mut p = Player::new();
    for _ in 0..100 {
        p.move_left();
    }
    assert_eq!(p.x, 0);
    p.move_left();
    assert_eq!(p.x, 0);
    for _ in 0..100 {
        p.move_right();
    }
    assert_eq!(p.x, NUM_COLS - 1);
    p.move_right();
    assert_eq!(p.x, NUM_COLS - 1);
}

#[test]
fn moves_never_touch_projectiles() {
    let mut p = Player::new();
    assert!(p.shoot());
    p.move_left();
    p.move_right();
    assert_eq!(p.shots.len(), 1);
    assert_eq!(p.shots[0].x, NUM_COLS / 2);
}

#[test]
fn shoot_true_at_most_once_until_removed() {
    let mut p = Player::new();
    assert!(p.shoot());
    assert_eq!(p.shots.len(), 1);
    // a second shot before the first projectile is removed is rejected
    assert!(!p.shoot());
    assert_eq!(p.shots.len(), 1);
    // drive the projectile off the top; then shooting fires again
    p.update(999);
    assert_eq!(p.shots.len(), 0);
    assert!(p.shoot());
}

#[test]
fn shot_spawns_one_row_above_player() {
    let mut p = Player::new();
    p.move_left();
    assert!(p.shoot());
    assert_eq!(p.shots[0], Projectile { x: NUM_COLS / 2 - 1, row_mu: 18_000 });
}

#[test]
fn update_moves_row_by_exactly_speed_times_delta() {
    let mut p = Player::new();
    assert!(p.shoot());
    // 20 cells/s for 50 ms is exactly one cell: 1000 sub-cell units
    p.update(50);
    assert_eq!(p.shots[0].row_mu, 17_000);
    // zero elapsed time moves nothing
    p.update(0);
    assert_eq!(p.shots[0].row_mu, 17_000);
    p.update(7);
    assert_eq!(p.shots[0].row_mu, 17_000 - 20 * 7);
}

#[test]
fn projectile_removed_only_when_row_would_pass_top() {
    let mut p = Player::new();
    assert!(p.shoot());
    // 18000 units at 20 units/ms: 900 ms lands exactly on row zero
    p.update(900);
    assert_eq!(p.shots.len(), 1);
    assert_eq!(p.shots[0].row_mu, 0);
    // any further motion would pass the top: removed on that same call
    p.update(1);
    assert_eq!(p.shots.len(), 0);
}

#[test]
fn one_big_delta_removes_projectile() {
    let mut p = Player::new();
    assert!(p.shoot());
    p.update(100_000);
    assert_eq!(p.shots.len(), 0);
}
