//! The player's ship: movement from input, confinement to the viewport and
//! the cooldown that paces its shots.

use vstd::prelude::*;
use crate::host::Sound;
use crate::input::InputDirections;
use crate::input::InputSnapshot;
use crate::rocket::Rocket;
use crate::vector::Vector2;

verus! {

/// Default speed of the ship along each axis, in units per second.
pub const PLAYER_SPEED: u32 = 600_000;

/// Default pause between two shots, in microseconds.
pub const TIME_BETWEEN_SHOTS_US: u32 = 150_000;

/// Half the width of the ship's sprite.
pub const SPRITE_OFFSET_X: i64 = 36_000;

/// Half the height of the ship's sprite.
pub const SPRITE_OFFSET_Y: i64 = 54_000;

/// How far in front of the ship a rocket appears.
pub const ROCKET_OFFSET_X: i64 = 70_000;

/// The ship. `next_shot_time` is the earliest clock reading, in milliseconds,
/// at which the next rocket may leave; `removed` is set once the ship has
/// been destroyed and waits to be taken out of the world.
#[derive(Clone, Copy, Debug, PartialEq, Eq, Structural)]
pub struct Player {
    pub position: Vector2,
    pub velocity: Vector2,
    pub speed: u32,
    pub time_between_shots_us: u32,
    pub next_shot_time: u64,
    pub sprite_offset: Vector2,
    pub removed: bool,
}

/// What leaves the ship when it fires: the rocket, and the sound that the
/// host is asked to play for it.
#[derive(Clone, Copy, Debug, PartialEq, Eq, Structural)]
pub struct Shot {
    pub rocket: Rocket,
    pub sound: Sound,
}

impl Player {
    /// A resting ship at `position` with the default speed, cooldown and
    /// sprite size, ready to shoot at once.
    pub open spec fn spec_new(position: Vector2) -> Player {
        Player {
            position,
            velocity: Vector2 { x: 0, y: 0 },
            speed: PLAYER_SPEED,
            time_between_shots_us: TIME_BETWEEN_SHOTS_US,
            next_shot_time: 0,
            sprite_offset: Vector2 { x: SPRITE_OFFSET_X, y: SPRITE_OFFSET_Y },
            removed: false,
        }
    }

    /// Creates a resting ship at `position` with the default settings.
    pub fn new(position: Vector2) -> (p: Player)
        ensures
            p == Player::spec_new(position),
    {
        Player {
            position,
            velocity: Vector2 { x: 0, y: 0 },
            speed: PLAYER_SPEED,
            time_between_shots_us: TIME_BETWEEN_SHOTS_US,
            next_shot_time: 0,
            sprite_offset: Vector2 { x: SPRITE_OFFSET_X, y: SPRITE_OFFSET_Y },
            removed: false,
        }
    }

    /// The pause between two shots in whole milliseconds, rounded down.
    pub open spec fn spec_cooldown_ms(self) -> u64 {
        (self.time_between_shots_us / 1000) as u64
    }

    /// Computes the pause between two shots in whole milliseconds.
    pub fn cooldown_ms(&self) -> (ms: u64)
        ensures
            ms == self.spec_cooldown_ms(),
    {
        (self.time_between_shots_us / 1000) as u64
    }

    /// The shot that the ship would fire from where it is now: a rocket in
    /// front of it, with the shoot sound.
    pub open spec fn spec_shoot(self) -> Shot {
        Shot {
            rocket: Rocket::spec_new(self.position.spec_plus(Vector2 { x: ROCKET_OFFSET_X, y: 0 })),
            sound: Sound::PlayerShoot,
        }
    }

    /// Creates a rocket in front of the ship and asks for the shoot sound.
    pub fn shoot(&self) -> (shot: Shot)
        ensures
            shot == self.spec_shoot(),
    {
        Shot {
            rocket: Rocket::new(self.position.plus(Vector2 { x: ROCKET_OFFSET_X, y: 0 })),
            sound: Sound::PlayerShoot,
        }
    }

    /// Whether a rocket leaves at `now_ms`: the shoot action is held and the
    /// cooldown has run out.
    pub open spec fn spec_fires(self, input: InputSnapshot, now_ms: u64) -> bool {
        input.shoot && self.next_shot_time <= now_ms
    }

    /// The ship after a shot at `now_ms`: the next one is due a cooldown
    /// later, or at the end of time where the clock cannot count that far.
    pub open spec fn spec_reloaded(self, now_ms: u64) -> Player {
        Player {
            next_shot_time: if now_ms + self.spec_cooldown_ms() > u64::MAX {
                u64::MAX
            } else {
                (now_ms + self.spec_cooldown_ms()) as u64
            },
            ..self
        }
    }

    /// The ship after it was offered the chance to shoot at `now_ms`, and the
    /// shot that left, if one did.
    pub open spec fn spec_maybe_shoot(self, input: InputSnapshot, now_ms: u64) -> (
        Player,
        Option<Shot>,
    ) {
        if self.spec_fires(input, now_ms) {
            (self.spec_reloaded(now_ms), Some(self.spec_shoot()))
        } else {
            (self, None)
        }
    }

    /// Fires if the shoot action is held and the cooldown has run out, and
    /// starts the next cooldown. Nothing else about the ship changes, and
    /// the time of the next shot never moves back.
    pub fn maybe_shoot(&mut self, input: &InputSnapshot, now_ms: u64) -> (shot: Option<Shot>)
        ensures
            (*final(self), shot) == old(self).spec_maybe_shoot(*input, now_ms),
            shot is Some <==> old(self).spec_fires(*input, now_ms),
            final(self).next_shot_time >= old(self).next_shot_time,
    {
        if input.shoot && self.next_shot_time <= now_ms {
            let shot: Shot = self.shoot();
            self.next_shot_time = now_ms.saturating_add(self.cooldown_ms());
            Some(shot)
        } else {
            None
        }
    }

    /// The velocity that the held directions ask for: full speed along an
    /// axis on which exactly one direction is held, rest otherwise. Diagonal
    /// motion is not scaled down.
    pub open spec fn spec_velocity_for(self, d: InputDirections) -> Vector2 {
        Vector2 {
            x: if d.right && !d.left {
                self.speed as i64
            } else if d.left && !d.right {
                (-(self.speed as int)) as i64
            } else {
                0
            },
            y: if d.up && !d.down {
                (-(self.speed as int)) as i64
            } else if d.down && !d.up {
                self.speed as i64
            } else {
                0
            },
        }
    }

    /// Computes the velocity that the held directions ask for.
    pub fn velocity_for(&self, d: &InputDirections) -> (v: Vector2)
        ensures
            v == self.spec_velocity_for(*d),
    {
        let s: i64 = self.speed as i64;
        let mut x: i64 = 0;
        let mut y: i64 = 0;
        if d.right && d.left {
            x = 0;
        } else if d.right {
            x = s;
        } else if d.left {
            x = -s;
        }
        if d.up && d.down {
            y = 0;
        } else if d.up {
            y = -s;
        } else if d.down {
            y = s;
        }
        Vector2 { x, y }
    }

    /// The ship after one frame of free movement.
    pub open spec fn spec_move_player(self, d: InputDirections, delta_us: u32) -> Player {
        Player {
            velocity: self.spec_velocity_for(d),
            position: self.position.spec_advanced(self.spec_velocity_for(d), delta_us),
            ..self
        }
    }

    /// Sets the velocity from the held directions and moves the ship along it
    /// for `delta_us` microseconds.
    pub fn move_player(&mut self, d: &InputDirections, delta_us: u32)
        ensures
            *final(self) == old(self).spec_move_player(*d, delta_us),
    {
        let v: Vector2 = self.velocity_for(d);
        self.velocity = v;
        self.position = self.position.advanced(v, delta_us);
    }

    /// The ship pushed back into the part of the viewport in which its whole
    /// sprite is visible.
    pub open spec fn spec_prevent_out_of_bounds(self, viewport: Vector2) -> Player {
        Player {
            position: self.position.spec_clamp(
                self.sprite_offset,
                viewport.spec_minus(self.sprite_offset),
            ),
            ..self
        }
    }

    /// Whether a viewport of this size has room for the sprite.
    pub open spec fn spec_fits(self, viewport: Vector2) -> bool {
        &&& self.sprite_offset.x <= viewport.x - self.sprite_offset.x
        &&& self.sprite_offset.y <= viewport.y - self.sprite_offset.y
    }

    /// Whether the whole sprite lies inside a viewport of this size.
    pub open spec fn spec_in_bounds(self, viewport: Vector2) -> bool {
        &&& self.sprite_offset.x <= self.position.x <= viewport.x - self.sprite_offset.x
        &&& self.sprite_offset.y <= self.position.y <= viewport.y - self.sprite_offset.y
    }

    /// A ship that was pushed back into a viewport with room for it lies
    /// wholly inside.
    pub proof fn lemma_clamped_in_bounds(self, viewport: Vector2)
        requires
            self.spec_fits(viewport),
        ensures
            self.spec_prevent_out_of_bounds(viewport).spec_in_bounds(viewport),
    {
    }

    /// Pushes the ship back into the viewport.
    pub fn prevent_out_of_bounds(&mut self, viewport: Vector2)
        ensures
            *final(self) == old(self).spec_prevent_out_of_bounds(viewport),
            old(self).spec_fits(viewport) ==> final(self).spec_in_bounds(viewport),
    {
        let max: Vector2 = viewport.minus(self.sprite_offset);
        self.position = self.position.clamp(self.sprite_offset, max);
    }

    /// The ship after one frame of movement inside the viewport.
    pub open spec fn spec_update_motion(
        self,
        input: InputSnapshot,
        delta_us: u32,
        viewport: Vector2,
    ) -> Player {
        self.spec_move_player(input.directions, delta_us).spec_prevent_out_of_bounds(viewport)
    }

    /// Moves the ship for one frame as the input asks and keeps it inside the
    /// viewport. In a viewport that has room for the sprite the ship ends the
    /// frame wholly inside it, whatever the input was.
    pub fn update_motion(&mut self, input: &InputSnapshot, delta_us: u32, viewport: Vector2)
        ensures
            *final(self) == old(self).spec_update_motion(*input, delta_us, viewport),
            old(self).spec_fits(viewport) ==> final(self).spec_in_bounds(viewport),
    {
        self.move_player(&input.directions, delta_us);
        self.prevent_out_of_bounds(viewport);
    }

    /// Marks the ship as destroyed; the world takes it out at the end of the
    /// frame.
    pub fn die(&mut self)
        ensures
            *final(self) == (Player { removed: true, ..*old(self) }),
    {
        self.removed = true;
    }
}

} // verus!
