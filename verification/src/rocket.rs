//! The projectile the ship fires.

use vstd::prelude::*;
use crate::enemy::Enemy;
use crate::enemy::EnemySignal;
use crate::entity::Entity;
use crate::vector::Vector2;
use crate::vector::overlapping;

verus! {

/// Default speed of a rocket, in units per second.
pub const ROCKET_SPEED: u32 = 1_000_000;

/// A rocket. It flies to the right at `speed` for as long as it lives;
/// `removed` is set once it has left the screen or destroyed an enemy.
#[derive(Clone, Copy, Debug, PartialEq, Eq, Structural)]
pub struct Rocket {
    pub position: Vector2,
    pub speed: u32,
    pub removed: bool,
}

impl Rocket {
    /// A live rocket at `position` with the default speed.
    pub open spec fn spec_new(position: Vector2) -> Rocket {
        Rocket { position, speed: ROCKET_SPEED, removed: false }
    }

    /// Creates a live rocket at `position` with the default speed.
    pub fn new(position: Vector2) -> (r: Rocket)
        ensures
            r == Rocket::spec_new(position),
    {
        Rocket { position, speed: ROCKET_SPEED, removed: false }
    }

    /// The rocket's velocity: `speed` to the right, nothing vertically.
    pub open spec fn spec_velocity(self) -> Vector2 {
        Vector2 { x: self.speed as i64, y: 0 }
    }

    /// Computes the rocket's velocity.
    pub fn velocity(&self) -> (v: Vector2)
        ensures
            v == self.spec_velocity(),
    {
        Vector2 { x: self.speed as i64, y: 0 }
    }

    /// The rocket one frame of `delta_us` microseconds later.
    pub open spec fn spec_step(self, delta_us: u32) -> Rocket {
        Rocket { position: self.position.spec_advanced(self.spec_velocity(), delta_us), ..self }
    }

    /// Moves the rocket for one frame.
    pub fn step(&mut self, delta_us: u32)
        ensures
            *final(self) == old(self).spec_step(delta_us),
    {
        self.position = self.position.advanced(self.velocity(), delta_us);
    }

    /// The rocket marked for removal.
    pub open spec fn spec_removed(self) -> Rocket {
        Rocket { removed: true, ..self }
    }

    /// Marks the rocket for removal because it has left the screen.
    pub fn on_screen_exited(&mut self)
        ensures
            *final(self) == old(self).spec_removed(),
    {
        self.removed = true;
    }

    /// Whether the rocket is in play and beyond the right edge of a viewport
    /// of this size.
    pub open spec fn spec_off_screen(self, viewport: Vector2) -> bool {
        !self.removed && self.position.x > viewport.x
    }

    /// Tests whether the rocket is in play and beyond the right edge of the
    /// viewport.
    pub fn off_screen(&self, viewport: Vector2) -> (b: bool)
        ensures
            b == self.spec_off_screen(viewport),
    {
        !self.removed && self.position.x > viewport.x
    }

    /// Whether the rocket destroys `enemy` on contact: both must still be in
    /// play.
    pub open spec fn spec_destroys(self, enemy: Enemy) -> bool {
        !self.removed && !enemy.removed
    }

    /// Whether the rocket is in play, `enemy` is in play, and the two are
    /// within `radius` of each other.
    pub open spec fn spec_reaches(self, enemy: Enemy, radius: u32) -> bool {
        self.spec_destroys(enemy) && overlapping(self.position, enemy.position, radius)
    }

    /// Tests whether the rocket and `enemy` are both in play and within
    /// `radius` of each other.
    pub fn reaches(&self, enemy: &Enemy, radius: u32) -> (b: bool)
        ensures
            b == self.spec_reaches(*enemy, radius),
    {
        !self.removed && !enemy.removed && self.position.overlaps(enemy.position, radius)
    }

    /// Rocket, enemy and signal after the two touched.
    pub open spec fn spec_strike(self, enemy: Enemy) -> (Rocket, Enemy, Option<EnemySignal>) {
        if self.spec_destroys(enemy) {
            (self.spec_removed(), enemy.spec_removed(), Some(EnemySignal::Died))
        } else {
            (self, enemy, None)
        }
    }

    /// Resolves contact with an enemy. If both are still in play, both are
    /// marked for removal and the enemy signals its death; a rocket or an
    /// enemy that is already marked takes part in nothing.
    pub fn strike(&mut self, enemy: &mut Enemy) -> (signal: Option<EnemySignal>)
        ensures
            (*final(self), *final(enemy), signal) == old(self).spec_strike(*old(enemy)),
    {
        if !self.removed && !enemy.removed {
            self.removed = true;
            Some(enemy.die())
        } else {
            None
        }
    }

    /// Rocket, entity and signal after the rocket touched `entity`.
    pub open spec fn spec_on_area_entered(self, entity: Entity) -> (
        Rocket,
        Entity,
        Option<EnemySignal>,
    ) {
        match entity {
            Entity::Enemy(enemy) => (
                self.spec_strike(enemy).0,
                Entity::Enemy(self.spec_strike(enemy).1),
                self.spec_strike(enemy).2,
            ),
            _ => (self, entity, None),
        }
    }

    /// Resolves contact with any entity: an enemy is struck, anything else is
    /// ignored.
    pub fn on_area_entered(&mut self, entity: &mut Entity) -> (signal: Option<EnemySignal>)
        ensures
            (*final(self), *final(entity), signal) == old(self).spec_on_area_entered(*old(entity)),
    {
        match entity {
            Entity::Enemy(enemy) => self.strike(enemy),
            _ => None,
        }
    }
}

} // verus!
