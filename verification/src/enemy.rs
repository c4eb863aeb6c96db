//! The hostile ships that cross the screen from right to left.

use vstd::prelude::*;
use crate::entity::Entity;
use crate::vector::Vector2;
use crate::vector::overlapping;

verus! {

/// Default speed of an enemy, in units per second.
pub const ENEMY_SPEED: u32 = 700_000;

/// What an enemy tells the game when it leaves play.
#[derive(Clone, Copy, Debug, PartialEq, Eq, Structural)]
pub enum EnemySignal {
    /// The enemy reached the ship.
    Attack,
    /// A rocket destroyed the enemy.
    Died,
}

/// An enemy. It flies to the left at `speed` for as long as it lives;
/// `removed` is set once it has been destroyed, has reached the ship or has
/// entered the deathzone.
#[derive(Clone, Copy, Debug, PartialEq, Eq, Structural)]
pub struct Enemy {
    pub position: Vector2,
    pub speed: u32,
    pub removed: bool,
}

impl Enemy {
    /// A live enemy at `position` with the default speed.
    pub open spec fn spec_new(position: Vector2) -> Enemy {
        Enemy { position, speed: ENEMY_SPEED, removed: false }
    }

    /// Creates a live enemy at `position` with the default speed.
    pub fn new(position: Vector2) -> (e: Enemy)
        ensures
            e == Enemy::spec_new(position),
    {
        Enemy { position, speed: ENEMY_SPEED, removed: false }
    }

    /// The enemy's velocity: `speed` to the left, nothing vertically.
    pub open spec fn spec_velocity(self) -> Vector2 {
        Vector2 { x: (-(self.speed as int)) as i64, y: 0 }
    }

    /// Computes the enemy's velocity.
    pub fn velocity(&self) -> (v: Vector2)
        ensures
            v == self.spec_velocity(),
    {
        Vector2 { x: -(self.speed as i64), y: 0 }
    }

    /// The enemy one frame of `delta_us` microseconds later.
    pub open spec fn spec_step(self, delta_us: u32) -> Enemy {
        Enemy { position: self.position.spec_advanced(self.spec_velocity(), delta_us), ..self }
    }

    /// Moves the enemy for one frame.
    pub fn step(&mut self, delta_us: u32)
        ensures
            *final(self) == old(self).spec_step(delta_us),
    {
        self.position = self.position.advanced(self.velocity(), delta_us);
    }

    /// The enemy marked for removal.
    pub open spec fn spec_removed(self) -> Enemy {
        Enemy { removed: true, ..self }
    }

    /// Marks the enemy for removal and reports its death.
    pub fn die(&mut self) -> (signal: EnemySignal)
        ensures
            *final(self) == old(self).spec_removed(),
            signal == EnemySignal::Died,
    {
        self.removed = true;
        EnemySignal::Died
    }

    /// Marks the enemy for removal without telling anyone.
    pub fn free(&mut self)
        ensures
            *final(self) == old(self).spec_removed(),
    {
        self.removed = true;
    }

    /// Whether the enemy is in play and within `radius` of `target`.
    pub open spec fn spec_touches(self, target: Vector2, radius: u32) -> bool {
        !self.removed && overlapping(self.position, target, radius)
    }

    /// Tests whether the enemy is in play and within `radius` of `target`.
    pub fn touches(&self, target: Vector2, radius: u32) -> (b: bool)
        ensures
            b == self.spec_touches(target, radius),
    {
        !self.removed && self.position.overlaps(target, radius)
    }

    /// Whether the enemy is in play and at or beyond the deathzone boundary.
    pub open spec fn spec_in_deathzone(self, boundary_x: i64) -> bool {
        !self.removed && self.position.x <= boundary_x
    }

    /// Tests whether the enemy is in play and at or beyond the deathzone
    /// boundary.
    pub fn in_deathzone(&self, boundary_x: i64) -> (b: bool)
        ensures
            b == self.spec_in_deathzone(boundary_x),
    {
        !self.removed && self.position.x <= boundary_x
    }

    /// Whether contact with `body` is an attack: the enemy is in play and the
    /// body is the ship.
    pub open spec fn spec_attacks(self, body: Entity) -> bool {
        !self.removed && body is Player
    }

    /// Enemy and signal after the enemy ran into `body`.
    pub open spec fn spec_on_body_entered(self, body: Entity) -> (Enemy, Option<EnemySignal>) {
        if self.spec_attacks(body) {
            (self.spec_removed(), Some(EnemySignal::Attack))
        } else {
            (self, None)
        }
    }

    /// Resolves contact with a solid body. Running into the ship removes the
    /// enemy and counts as an attack; any other body is ignored, and so is
    /// everything once the enemy is marked for removal.
    pub fn on_body_entered(&mut self, body: &Entity) -> (signal: Option<EnemySignal>)
        ensures
            (*final(self), signal) == old(self).spec_on_body_entered(*body),
    {
        if self.removed {
            return None;
        }
        match body {
            Entity::Player(_) => {
                self.removed = true;
                Some(EnemySignal::Attack)
            },
            _ => None,
        }
    }
}

} // verus!
