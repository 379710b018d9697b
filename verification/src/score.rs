//! Score bookkeeping for the engine-driven prototype shooter: a running
//! score that rises with every obstacle the player's sprite sweeps up,
//! a high score that follows it, and a reset that spares the high score.
//! The engine work around it (sprites, sounds, float translations) is
//! not part of the library.

use vstd::prelude::*;

verus! {

pub struct ScoreBoard {
    pub score: u32,
    pub high_score: u32,
}

impl ScoreBoard {
    /// The high score is never behind the running score.
    pub open spec fn wf(self) -> bool {
        self.score <= self.high_score
    }

    pub fn new() -> (s: ScoreBoard)
        ensures
            s.wf(),
            s.score == 0,
            s.high_score == 0,
    {
        ScoreBoard { score: 0, high_score: 0 }
    }

    /// One collision scored: the score rises by one, and the high score
    /// follows as soon as it is beaten.
    pub fn record_hit(&mut self)
        requires
            old(self).wf(),
            old(self).score < u32::MAX,
        ensures
            final(self).wf(),
            final(self).score == old(self).score + 1,
            final(self).high_score == if old(self).score + 1 > old(self).high_score {
                old(self).score + 1
            } else {
                old(self).high_score as int
            },
    {
        self.score = self.score + 1;
        if self.score > self.high_score {
            self.high_score = self.score;
        }
    }

    /// Starts a fresh run: the score returns to zero, the high score
    /// stands.
    pub fn reset_score(&mut self)
        requires
            old(self).wf(),
        ensures
            final(self).wf(),
            final(self).score == 0,
            final(self).high_score == old(self).high_score,
    {
        self.score = 0;
    }
}

impl Default for ScoreBoard {
    /// The opening board: both counters at zero.
    fn default() -> (s: ScoreBoard)
        ensures
            s.wf(),
            s.score == 0,
            s.high_score == 0,
    {
        ScoreBoard { score: 0, high_score: 0 }
    }
}

} // verus!
