//! The kinds of thing that can touch one another.

use vstd::prelude::*;
use crate::enemy::Enemy;
use crate::player::Player;
use crate::rocket::Rocket;

verus! {

/// A participant in an overlap, tagged with its kind.
#[derive(Clone, Copy, Debug, PartialEq, Eq)]
pub enum Entity {
    Player(Player),
    Enemy(Enemy),
    Rocket(Rocket),
}

} // verus!
