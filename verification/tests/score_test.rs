use invaders::score::ScoreBoard;

#[test]
fn hits_raise_score_and_high_score_follows() {
    let mut board = ScoreBoard::new();
    board.record_hit();
    board.record_hit();
    assert_eq!(board.score, 2);
    assert_eq!(board.high_score, 2);
}

#[test]
fn reset_keeps_the_high_score() {
    let mut board = ScoreBoard::new();
    board.record_hit();
    board.record_hit();
    board.record_hit();
    board.reset_score();
    assert_eq!(board.score, 0);
    assert_eq!(board.high_score, 3);
    // a new run only beats the high score once it passes it
    board.record_hit();
    assert_eq!(board.high_score, 3);
}

#[test]
fn default_board_is_zeroed() {
    let board = <ScoreBoard as Default>::default();
    assert_eq!(board.score, 0);
    assert_eq!(board.high_score, 0);
}
