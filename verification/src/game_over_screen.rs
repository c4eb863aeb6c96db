//! The screen shown when the game has ended.

use vstd::prelude::*;

verus! {

/// The final score, and whether the player has asked to play again.
#[derive(Clone, Copy, Debug, PartialEq, Eq, Structural)]
pub struct GameOverScreen {
    pub score: u32,
    pub retry_requested: bool,
}

impl GameOverScreen {
    /// A screen that shows `score` and on which nothing was pressed yet.
    pub open spec fn spec_new(score: u32) -> GameOverScreen {
        GameOverScreen { score, retry_requested: false }
    }

    /// Creates a screen that shows `score`.
    pub fn new(score: u32) -> (screen: GameOverScreen)
        ensures
            screen == GameOverScreen::spec_new(score),
    {
        GameOverScreen { score, retry_requested: false }
    }

    /// Shows `score`.
    pub fn set_score(&mut self, score: u32)
        ensures
            *final(self) == (GameOverScreen { score, ..*old(self) }),
    {
        self.score = score;
    }

    /// Records that the retry button was pressed. The host answers a
    /// requested retry by loading the world afresh.
    pub fn on_retry_button_pressed(&mut self)
        ensures
            *final(self) == (GameOverScreen { retry_requested: true, ..*old(self) }),
    {
        self.retry_requested = true;
    }
}

} // verus!
