//! The heads-up display: the score and the lives as last shown to the player.

use vstd::prelude::*;

verus! {

/// What the display currently shows.
#[derive(Clone, Copy, Debug, PartialEq, Eq, Structural)]
pub struct Hud {
    pub score: u32,
    pub lives: i8,
}

impl Hud {
    /// A display that shows the given score and lives.
    pub fn new(score: u32, lives: i8) -> (hud: Hud)
        ensures
            hud == (Hud { score, lives }),
    {
        Hud { score, lives }
    }

    /// Shows `score`. Showing the score that is already displayed changes
    /// nothing.
    pub fn set_score_label(&mut self, score: u32)
        ensures
            *final(self) == (Hud { score, ..*old(self) }),
            old(self).score == score ==> *final(self) == *old(self),
    {
        self.score = score;
    }

    /// Shows `lives`. Showing the number that is already displayed changes
    /// nothing.
    pub fn set_lives_label(&mut self, lives: i8)
        ensures
            *final(self) == (Hud { lives, ..*old(self) }),
            old(self).lives == lives ==> *final(self) == *old(self),
    {
        self.lives = lives;
    }
}

} // verus!
