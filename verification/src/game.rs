//! Score, lives and the delayed end of the game.

use vstd::prelude::*;
use crate::entity::Entity;
use crate::game_over_screen::GameOverScreen;
use crate::host::Sound;
use crate::hud::Hud;
use crate::player::Player;

verus! {

/// Lives at the start of a game.
pub const START_LIVES: i8 = 3;

/// Default time between the loss of the last life and the game-over screen,
/// in milliseconds.
pub const GAME_OVER_DELAY_MS: u32 = 1200;

/// Points for one destroyed enemy.
pub const KILL_SCORE: u32 = 100;

/// The game's account. `game_over_deadline` holds the clock reading at which
/// the game-over screen is due while the end of the game is pending, and
/// `game_over_shown` is set once the screen has been handed out. `hud` is the
/// display that the account keeps up to date.
#[derive(Clone, Copy, Debug, PartialEq, Eq)]
pub struct Game {
    pub score: u32,
    pub lives: i8,
    pub game_over_delay: u32,
    pub game_over_deadline: Option<u64>,
    pub game_over_shown: bool,
    pub hud: Hud,
}

impl Game {
    /// The account of a game that starts with `lives` lives and ends
    /// `game_over_delay` milliseconds after the last one is lost.
    pub open spec fn spec_with(lives: i8, game_over_delay: u32) -> Game {
        Game {
            score: 0,
            lives,
            game_over_delay,
            game_over_deadline: None,
            game_over_shown: false,
            hud: Hud { score: 0, lives },
        }
    }

    /// Opens the account of a game with the default lives and delay.
    pub fn new() -> (game: Game)
        ensures
            game == Game::spec_with(START_LIVES, GAME_OVER_DELAY_MS),
    {
        Game::with(START_LIVES, GAME_OVER_DELAY_MS)
    }

    /// Opens the account of a game with the given lives and delay, and shows
    /// both on the display.
    pub fn with(lives: i8, game_over_delay: u32) -> (game: Game)
        ensures
            game == Game::spec_with(lives, game_over_delay),
            game.spec_hud_current(),
    {
        Game {
            score: 0,
            lives,
            game_over_delay,
            game_over_deadline: None,
            game_over_shown: false,
            hud: Hud::new(0, lives),
        }
    }

    /// Whether the display shows the score and the lives of the account.
    pub open spec fn spec_hud_current(self) -> bool {
        self.hud == (Hud { score: self.score, lives: self.lives })
    }

    /// Whether the end of the game has been started: the screen is pending
    /// or has been shown.
    pub open spec fn spec_game_over_started(self) -> bool {
        self.game_over_deadline is Some || self.game_over_shown
    }

    /// Tests whether the end of the game has been started.
    pub fn game_over_started(&self) -> (b: bool)
        ensures
            b == self.spec_game_over_started(),
    {
        self.game_over_deadline.is_some() || self.game_over_shown
    }

    /// The score after one more kill; it stops growing at the top of its
    /// range.
    pub open spec fn spec_score_after_kill(score: u32) -> u32 {
        if score + KILL_SCORE > u32::MAX {
            u32::MAX
        } else {
            (score + KILL_SCORE) as u32
        }
    }

    /// The account after a rocket destroyed an enemy.
    pub open spec fn spec_on_enemy_died(self) -> Game {
        Game {
            score: Game::spec_score_after_kill(self.score),
            hud: Hud { score: Game::spec_score_after_kill(self.score), ..self.hud },
            ..self
        }
    }

    /// Books a destroyed enemy: the score grows by [`KILL_SCORE`], the
    /// display follows, and the host is asked for the hit sound.
    pub fn on_enemy_died(&mut self) -> (sound: Sound)
        ensures
            *final(self) == old(self).spec_on_enemy_died(),
            old(self).score + KILL_SCORE <= u32::MAX ==> final(self).score == old(self).score
                + KILL_SCORE,
            final(self).hud.score == final(self).score,
            final(self).score >= old(self).score,
            final(self).lives == old(self).lives,
            sound == Sound::EnemyHit,
    {
        self.score = self.score.saturating_add(KILL_SCORE);
        self.hud.set_score_label(self.score);
        Sound::EnemyHit
    }

    /// The deadline for a game-over screen that is started at `now_ms`.
    pub open spec fn spec_deadline(self, now_ms: u64) -> u64 {
        if now_ms + self.game_over_delay > u64::MAX {
            u64::MAX
        } else {
            (now_ms + self.game_over_delay) as u64
        }
    }

    /// Account and ship after the end of the game was asked for at `now_ms`.
    pub open spec fn spec_game_over(self, player: Player, now_ms: u64) -> (Game, Player) {
        if self.spec_game_over_started() {
            (self, player)
        } else {
            (
                Game { game_over_deadline: Some(self.spec_deadline(now_ms)), ..self },
                Player { removed: true, ..player },
            )
        }
    }

    /// Starts the end of the game: the ship is destroyed and the game-over
    /// screen becomes due `game_over_delay` milliseconds after `now_ms`. Once
    /// the end has been started, asking again changes nothing.
    pub fn game_over(&mut self, player: &mut Player, now_ms: u64)
        ensures
            (*final(self), *final(player)) == old(self).spec_game_over(*old(player), now_ms),
            final(self).spec_game_over_started(),
    {
        if !self.game_over_started() {
            player.die();
            self.start_game_over_timer(now_ms);
        }
    }

    /// Makes the game-over screen due `game_over_delay` milliseconds after
    /// `now_ms`.
    pub fn start_game_over_timer(&mut self, now_ms: u64)
        ensures
            *final(self) == (Game {
                game_over_deadline: Some(old(self).spec_deadline(now_ms)),
                ..*old(self)
            }),
    {
        self.game_over_deadline = Some(now_ms.saturating_add(self.game_over_delay as u64));
    }

    /// The lives after one more attack; the count stops falling at the bottom
    /// of its range.
    pub open spec fn spec_lives_after_attack(lives: i8) -> i8 {
        if lives > i8::MIN {
            (lives - 1) as i8
        } else {
            lives
        }
    }

    /// Account and ship after an enemy reached the ship at `now_ms`.
    pub open spec fn spec_on_enemy_attack(self, player: Player, now_ms: u64) -> (Game, Player) {
        let hit = Game {
            lives: Game::spec_lives_after_attack(self.lives),
            hud: Hud { lives: Game::spec_lives_after_attack(self.lives), ..self.hud },
            ..self
        };
        if hit.lives <= 0 {
            hit.spec_game_over(player, now_ms)
        } else {
            (hit, player)
        }
    }

    /// Books an attack: one life is lost, the display follows, the host is
    /// asked for the damage sound, and with no life left the end of the game
    /// is started.
    pub fn on_enemy_attack(&mut self, player: &mut Player, now_ms: u64) -> (sound: Sound)
        ensures
            (*final(self), *final(player)) == old(self).spec_on_enemy_attack(*old(player), now_ms),
            old(self).lives > i8::MIN ==> final(self).lives == old(self).lives - 1,
            final(self).hud.lives == final(self).lives,
            final(self).lives <= old(self).lives,
            final(self).score == old(self).score,
            final(self).lives <= 0 ==> final(self).spec_game_over_started(),
            sound == Sound::PlayerDamage,
    {
        if self.lives > i8::MIN {
            self.lives = self.lives - 1;
        }
        self.hud.set_lives_label(self.lives);
        if self.lives <= 0 {
            self.game_over(player, now_ms);
        }
        Sound::PlayerDamage
    }

    /// The entity after it entered the deathzone: an enemy is marked for
    /// removal, anything else stays as it is.
    pub open spec fn spec_on_deathzone_entered(entity: Entity) -> Entity {
        match entity {
            Entity::Enemy(enemy) => Entity::Enemy(enemy.spec_removed()),
            _ => entity,
        }
    }

    /// Takes an enemy that entered the deathzone out of play without score
    /// and without an attack. Other entities pass through untouched.
    pub fn on_deathzone_entered(&self, entity: &mut Entity)
        ensures
            *final(entity) == Game::spec_on_deathzone_entered(*old(entity)),
    {
        match entity {
            Entity::Enemy(enemy) => {
                enemy.free();
            },
            _ => {},
        }
    }

    /// Whether the game-over screen is due at `now_ms`.
    pub open spec fn spec_screen_due(self, now_ms: u64) -> bool {
        self.game_over_deadline matches Some(deadline) && now_ms >= deadline
    }

    /// The game-over screen for the current score.
    pub fn display_game_over_screen(&self) -> (screen: GameOverScreen)
        ensures
            screen == GameOverScreen::spec_new(self.score),
    {
        let mut screen: GameOverScreen = GameOverScreen::new(0);
        screen.set_score(self.score);
        screen
    }

    /// The account after the deadline was looked at `now_ms`, and the screen
    /// that became due, if one did.
    pub open spec fn spec_process(self, now_ms: u64) -> (Game, Option<GameOverScreen>) {
        if self.spec_screen_due(now_ms) {
            (
                Game { game_over_deadline: None, game_over_shown: true, ..self },
                Some(GameOverScreen::spec_new(self.score)),
            )
        } else {
            (self, None)
        }
    }

    /// Looks at the deadline. When the game-over screen is pending and its
    /// time has come, the screen is handed out with the score of this moment
    /// and the deadline is cleared; the host attaches the screen to its user
    /// interface. A screen is handed out at most once per started end.
    pub fn process(&mut self, now_ms: u64) -> (screen: Option<GameOverScreen>)
        ensures
            (*final(self), screen) == old(self).spec_process(now_ms),
            screen is Some <==> old(self).spec_screen_due(now_ms),
    {
        match self.game_over_deadline {
            Some(deadline) => {
                if now_ms >= deadline {
                    self.game_over_deadline = None;
                    self.game_over_shown = true;
                    Some(self.display_game_over_screen())
                } else {
                    None
                }
            },
            None => None,
        }
    }
}

} // verus!
