//! Requests that the simulation addresses to its host.

use vstd::prelude::*;

verus! {

/// A sound effect the host is asked to play.
#[derive(Clone, Copy, Debug, PartialEq, Eq, Structural)]
pub enum Sound {
    /// A rocket destroyed an enemy.
    EnemyHit,
    /// An enemy reached the ship.
    PlayerDamage,
    /// The ship fired a rocket.
    PlayerShoot,
}

/// The display modes of the host's window.
#[derive(Clone, Copy, Debug, PartialEq, Eq, Structural)]
pub enum WindowMode {
    Windowed,
    Minimized,
    Maximized,
    Fullscreen,
    ExclusiveFullscreen,
}

impl WindowMode {
    /// The mode that a fullscreen toggle leads to: out of fullscreen into a
    /// window, and from every other mode into fullscreen.
    pub open spec fn spec_toggled(self) -> WindowMode {
        if self is Fullscreen {
            WindowMode::Windowed
        } else {
            WindowMode::Fullscreen
        }
    }

    /// Computes the mode that a fullscreen toggle leads to.
    pub fn toggled(self) -> (mode: WindowMode)
        ensures
            mode == self.spec_toggled(),
    {
        match self {
            WindowMode::Fullscreen => WindowMode::Windowed,
            _ => WindowMode::Fullscreen,
        }
    }
}

} // verus!
