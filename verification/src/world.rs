//! The world: everything that is in play, and the frame that moves it.

use vstd::prelude::*;
use crate::clock::Clock;
use crate::enemy::Enemy;
use crate::enemy_spawner::EnemySpawner;
use crate::enemy_spawner::EnemySpawnerView;
use crate::frame::consistent;
use crate::frame::lemma_tick_account;
use crate::frame::lemma_tick_enemies;
use crate::frame::lemma_tick_frame;
use crate::frame::lemma_tick_player;
use crate::frame::lemma_tick_rockets;
use crate::frame::spec_tick;
use crate::frame::TickInput;
use crate::frame::TickOutcome;
use crate::frame::WorldView;
use crate::game::Game;
use crate::game::GAME_OVER_DELAY_MS;
use crate::game::START_LIVES;
use crate::game_over_screen::GameOverScreen;
use crate::host::Sound;
use crate::overlap::lives_after_attacks;
use crate::overlap::remove_marked_enemies;
use crate::overlap::remove_marked_rockets;
use crate::overlap::resolve_attacks;
use crate::overlap::resolve_deathzone;
use crate::overlap::resolve_rocket_hits;
use crate::overlap::resolve_screen_exits;
use crate::overlap::score_after_kills;
use crate::overlap::step_all_enemies;
use crate::overlap::step_all_rockets;
use crate::player::Player;
use crate::rocket::Rocket;
use crate::vector::Vector2;

verus! {

/// Default left boundary at and beyond which enemies vanish.
pub const DEATHZONE_X: i64 = -100_000;

/// Default distance on each axis within which two entities overlap.
pub const COLLISION_RADIUS: u32 = 40_000;

/// What one frame asks of the host and tells it.
#[derive(Clone, Copy, Debug, PartialEq, Eq)]
pub struct TickReport {
    /// The window is to change between fullscreen and windowed.
    pub toggle_fullscreen: bool,
    /// The ship fired a rocket.
    pub rocket_fired: bool,
    /// The spawner emitted an enemy.
    pub enemy_spawned: bool,
    /// Number of enemies that rockets destroyed.
    pub enemies_died: usize,
    /// Number of enemies that reached the ship.
    pub attacks: usize,
    /// The game-over screen, in the one frame in which it appears.
    pub game_over_screen: Option<GameOverScreen>,
}

impl View for TickReport {
    type V = TickOutcome;

    open spec fn view(&self) -> TickOutcome {
        TickOutcome {
            toggle_fullscreen: self.toggle_fullscreen,
            rocket_fired: self.rocket_fired,
            enemy_spawned: self.enemy_spawned,
            enemies_died: self.enemies_died as nat,
            attacks: self.attacks as nat,
            game_over_screen: self.game_over_screen,
        }
    }
}

impl TickReport {
    /// How often the frame asks for `sound`: the shoot sound for a fired
    /// rocket, the hit sound for each destroyed enemy and the damage sound
    /// for each attack.
    pub open spec fn spec_sound_count(self, sound: Sound) -> nat {
        match sound {
            Sound::PlayerShoot => if self.rocket_fired {
                1
            } else {
                0
            },
            Sound::EnemyHit => self.enemies_died as nat,
            Sound::PlayerDamage => self.attacks as nat,
        }
    }

    /// Tells how often the host is to play `sound` for this frame.
    pub fn sound_count(&self, sound: Sound) -> (count: usize)
        ensures
            count == self.spec_sound_count(sound),
    {
        match sound {
            Sound::PlayerShoot => if self.rocket_fired {
                1
            } else {
                0
            },
            Sound::EnemyHit => self.enemies_died,
            Sound::PlayerDamage => self.attacks,
        }
    }
}

/// Everything that is in play. The ship is absent once it has been
/// destroyed; rockets and enemies are kept in the order in which they
/// entered the world, which is the order in which overlaps are resolved.
#[derive(Debug, PartialEq, Eq)]
pub struct World {
    pub player: Option<Player>,
    pub rockets: Vec<Rocket>,
    pub enemies: Vec<Enemy>,
    pub spawner: EnemySpawner,
    pub game: Game,
    pub clock: Clock,
    /// Size of the viewport.
    pub viewport: Vector2,
    /// Enemies at or to the left of this coordinate vanish.
    pub deathzone_x: i64,
    /// Two entities overlap when they are this close on both axes.
    pub collision_radius: u32,
}

impl View for World {
    type V = WorldView;

    open spec fn view(&self) -> WorldView {
        WorldView {
            player: self.player,
            rockets: self.rockets@,
            enemies: self.enemies@,
            spawner: self.spawner@,
            game: self.game,
            clock: self.clock,
            viewport: self.viewport,
            deathzone_x: self.deathzone_x,
            collision_radius: self.collision_radius,
        }
    }
}



impl World {
    /// A world at the start of a game: a ship at `player_position`, no
    /// rockets, no enemies, an enabled spawner with the given spawn points,
    /// a fresh account, the clock at zero and the default deathzone and
    /// collision radius.
    pub fn new(viewport: Vector2, player_position: Vector2, spawn_positions: Vec<Vector2>) -> (world:
        World)
        ensures
            world@ == (WorldView {
                player: Some(Player::spec_new(player_position)),
                rockets: Seq::<Rocket>::empty(),
                enemies: Seq::<Enemy>::empty(),
                spawner: EnemySpawnerView { enabled: true, spawn_positions: spawn_positions@ },
                game: Game::spec_with(START_LIVES, GAME_OVER_DELAY_MS),
                clock: Clock { now_ms: 0, delta_us: 0 },
                viewport,
                deathzone_x: DEATHZONE_X,
                collision_radius: COLLISION_RADIUS,
            }),
            consistent(world@),
    {
        World {
            player: Some(Player::new(player_position)),
            rockets: Vec::new(),
            enemies: Vec::new(),
            spawner: EnemySpawner::new(spawn_positions),
            game: Game::new(),
            clock: Clock::new(),
            viewport,
            deathzone_x: DEATHZONE_X,
            collision_radius: COLLISION_RADIUS,
        }
    }

    /// What can be observed of the world from outside: score, lives, number
    /// of rockets and number of enemies.
    pub fn observe(&self) -> (seen: (u32, i8, usize, usize))
        ensures
            seen.0 == self.game.score,
            seen.1 == self.game.lives,
            seen.2 == self.rockets@.len(),
            seen.3 == self.enemies@.len(),
    {
        (self.game.score, self.game.lives, self.rockets.len(), self.enemies.len())
    }

    /// Takes an enemy into the world, behind those already there.
    pub fn on_enemy_spawned(&mut self, enemy: Enemy)
        ensures
            final(self)@ == (WorldView { enemies: old(self)@.enemies.push(enemy), ..old(self)@ }),
    {
        self.enemies.push(enemy);
    }

    /// Runs one frame and reports what the host is to do about it.
    ///
    /// The frame is [`spec_tick`]. In particular the score grows by a
    /// hundred points for each destroyed enemy and never falls, the lives
    /// fall by one for each attack and never grow, a ship that is left lies
    /// wholly inside a viewport that has room for it, and each destroyed
    /// enemy has taken a rocket out of the world.
    pub fn tick(&mut self, t: &TickInput) -> (report: TickReport)
        ensures
            (final(self)@, report@) == spec_tick(old(self)@, *t),
            final(self).game.score == score_after_kills(
                old(self).game.score,
                report.enemies_died as nat,
            ),
            final(self).game.lives == lives_after_attacks(
                old(self).game.lives,
                report.attacks as nat,
            ),
            final(self).game.score >= old(self).game.score,
            final(self).game.lives <= old(self).game.lives,
            final(self).player matches Some(ship) ==> (old(self).player matches Some(before)
                && (before.spec_fits(old(self).viewport) ==> ship.spec_in_bounds(
                old(self).viewport,
            ))),
            final(self).rockets@.len() + report.enemies_died <= old(self).rockets@.len() + (
            if report.rocket_fired {
                1nat
            } else {
                0nat
            }),
            final(self).enemies@.len() <= old(self).enemies@.len() + (if report.enemy_spawned {
                1nat
            } else {
                0nat
            }),
            final(self).clock.now_ms >= old(self).clock.now_ms,
            consistent(old(self)@) ==> consistent(final(self)@),
    {
        proof {
            lemma_tick_enemies(old(self)@, *t);
            lemma_tick_frame(old(self)@, *t);
            lemma_tick_account(old(self)@, *t);
            lemma_tick_player(old(self)@, *t);
            lemma_tick_rockets(old(self)@, *t);
        }
        self.clock.advance(t.ticks_ms, t.delta_us);
        let now: u64 = self.clock.now_ms();

        let mut rocket_fired: bool = false;
        let mut player: Option<Player> = None;
        match self.player {
            Some(p) => {
                let mut ship: Player = p;
                match ship.maybe_shoot(&t.input, now) {
                    Some(shot) => {
                        self.rockets.push(shot.rocket);
                        rocket_fired = true;
                    },
                    None => {},
                }
                ship.update_motion(&t.input, t.delta_us, self.viewport);
                player = Some(ship);
            },
            None => {},
        }
        step_all_rockets(&mut self.rockets, t.delta_us);
        step_all_enemies(&mut self.enemies, t.delta_us);

        let mut enemy_spawned: bool = false;
        match t.spawn_draw {
            Some(draw) => {
                match self.spawner.on_timer_timeout(draw) {
                    Some(enemy) => {
                        self.on_enemy_spawned(enemy);
                        enemy_spawned = true;
                    },
                    None => {},
                }
            },
            None => {},
        }

        let enemies_died: usize = resolve_rocket_hits(
            &mut self.rockets,
            &mut self.enemies,
            &mut self.game,
            self.collision_radius,
        );

        let mut attacks: usize = 0;
        match player {
            Some(p) => {
                if !p.removed {
                    let mut ship: Player = p;
                    attacks =
                    resolve_attacks(
                        &mut self.enemies,
                        &mut ship,
                        &mut self.game,
                        self.collision_radius,
                        now,
                    );
                    player = Some(ship);
                }
            },
            None => {},
        }

        resolve_deathzone(&mut self.enemies, &self.game, self.deathzone_x);
        resolve_screen_exits(&mut self.rockets, self.viewport);

        remove_marked_rockets(&mut self.rockets);
        remove_marked_enemies(&mut self.enemies);
        self.player = match player {
            Some(p) => if p.removed {
                None
            } else {
                Some(p)
            },
            None => None,
        };

        let game_over_screen: Option<GameOverScreen> = self.game.process(now);

        TickReport {
            toggle_fullscreen: t.input.fullscreen_toggle,
            rocket_fired,
            enemy_spawned,
            enemies_died,
            attacks,
            game_over_screen,
        }
    }
}

} // verus!
