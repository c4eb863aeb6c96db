//! The logical actions a host reports once per frame.

use vstd::prelude::*;

verus! {

/// Which of the four movement actions are held.
#[derive(Clone, Copy, Debug, PartialEq, Eq, Structural)]
pub struct InputDirections {
    pub right: bool,
    pub left: bool,
    pub up: bool,
    pub down: bool,
}

impl InputDirections {
    /// Records the state of the actions `move_right`, `move_left`, `move_up`
    /// and `move_down`, in this order.
    pub fn new(right: bool, left: bool, up: bool, down: bool) -> (d: InputDirections)
        ensures
            d == (InputDirections { right, left, up, down }),
    {
        InputDirections { right, left, up, down }
    }

    /// No movement action held.
    pub fn none() -> (d: InputDirections)
        ensures
            d == (InputDirections { right: false, left: false, up: false, down: false }),
    {
        InputDirections { right: false, left: false, up: false, down: false }
    }

    /// Whether at least one movement action is held.
    pub open spec fn spec_any(self) -> bool {
        self.right || self.left || self.up || self.down
    }

    /// Tests whether at least one movement action is held.
    pub fn any(&self) -> (b: bool)
        ensures
            b == self.spec_any(),
    {
        self.right || self.left || self.up || self.down
    }
}

/// Everything the simulation reads from the input devices in one frame.
/// `fullscreen_toggle` is an edge: true only in the frame in which the action
/// was released.
#[derive(Clone, Copy, Debug, PartialEq, Eq, Structural)]
pub struct InputSnapshot {
    pub directions: InputDirections,
    pub shoot: bool,
    pub fullscreen_toggle: bool,
}

impl InputSnapshot {
    /// A snapshot of the given action states.
    pub fn new(directions: InputDirections, shoot: bool, fullscreen_toggle: bool) -> (s:
        InputSnapshot)
        ensures
            s == (InputSnapshot { directions, shoot, fullscreen_toggle }),
    {
        InputSnapshot { directions, shoot, fullscreen_toggle }
    }

    /// The snapshot of a frame in which nothing is pressed.
    pub fn idle() -> (s: InputSnapshot)
        ensures
            s == (InputSnapshot {
                directions: InputDirections { right: false, left: false, up: false, down: false },
                shoot: false,
                fullscreen_toggle: false,
            }),
    {
        InputSnapshot { directions: InputDirections::none(), shoot: false, fullscreen_toggle: false }
    }
}

} // verus!
