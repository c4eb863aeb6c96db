//! One frame of the simulation as a function: from the world and what the
//! host reports to the world a frame later and what the host is told.

use vstd::prelude::*;
use crate::clock::Clock;
use crate::enemy::Enemy;
use crate::enemy_spawner::spawned;
use crate::enemy_spawner::EnemySpawnerView;
use crate::game::Game;
use crate::game_over_screen::GameOverScreen;
use crate::hud::Hud;
use crate::input::InputSnapshot;
use crate::overlap::after_attacks;
use crate::overlap::after_kills;
use crate::overlap::attack_count;
use crate::overlap::enemy_in_play;
use crate::overlap::enter_deathzone;
use crate::overlap::leave_screen;
use crate::overlap::lemma_after_attacks;
use crate::overlap::lemma_after_kills;
use crate::overlap::lemma_leave_screen;
use crate::overlap::lemma_resolve_hits;
use crate::overlap::lemma_step_rockets;
use crate::overlap::live_enemies;
use crate::overlap::live_rockets;
use crate::overlap::lives_after_attacks;
use crate::overlap::resolve_hits;
use crate::overlap::rocket_in_play;
use crate::overlap::score_after_kills;
use crate::overlap::step_enemies;
use crate::overlap::step_rockets;
use crate::overlap::strike_ship;
use crate::overlap::touching;
use crate::overlap::Volley;
use crate::player::Player;
use crate::rocket::Rocket;
use crate::vector::Vector2;

verus! {

/// What the host reports for one frame: the input, its tick count in
/// milliseconds, the length of the frame in microseconds and, where the
/// spawn timer ran out during the frame, a random number for the spawner.
#[derive(Clone, Copy, Debug, PartialEq, Eq)]
pub struct TickInput {
    pub input: InputSnapshot,
    pub ticks_ms: u64,
    pub delta_us: u32,
    pub spawn_draw: Option<u64>,
}

/// The mathematical view of a report, with unbounded counts.
pub struct TickOutcome {
    pub toggle_fullscreen: bool,
    pub rocket_fired: bool,
    pub enemy_spawned: bool,
    pub enemies_died: nat,
    pub attacks: nat,
    pub game_over_screen: Option<GameOverScreen>,
}

/// The mathematical view of a world, with sequences for its vectors.
pub struct WorldView {
    pub player: Option<Player>,
    pub rockets: Seq<Rocket>,
    pub enemies: Seq<Enemy>,
    pub spawner: EnemySpawnerView,
    pub game: Game,
    pub clock: Clock,
    pub viewport: Vector2,
    pub deathzone_x: i64,
    pub collision_radius: u32,
}

/// Ship and rocket after the ship's part of a frame: it shoots if it may,
/// then moves.
pub open spec fn launch(
    player: Option<Player>,
    input: InputSnapshot,
    now_ms: u64,
    delta_us: u32,
    viewport: Vector2,
) -> (Option<Player>, Option<Rocket>) {
    match player {
        Some(p) => (
            Some(p.spec_maybe_shoot(input, now_ms).0.spec_update_motion(input, delta_us, viewport)),
            match p.spec_maybe_shoot(input, now_ms).1 {
                Some(shot) => Some(shot.rocket),
                None => None,
            },
        ),
        None => (None, None),
    }
}

/// The rockets with a newly fired one, if there is one, at the end.
pub open spec fn with_rocket(rockets: Seq<Rocket>, fired: Option<Rocket>) -> Seq<Rocket> {
    match fired {
        Some(rocket) => rockets.push(rocket),
        None => rockets,
    }
}

/// The enemies with a newly spawned one, if there is one, at the end.
pub open spec fn with_enemy(enemies: Seq<Enemy>, arrival: Option<Enemy>) -> Seq<Enemy> {
    match arrival {
        Some(enemy) => enemies.push(enemy),
        None => enemies,
    }
}

/// The enemy that enters in a frame with the given spawn draw.
pub open spec fn arrival(spawner: EnemySpawnerView, spawn_draw: Option<u64>) -> Option<Enemy> {
    match spawn_draw {
        Some(draw) => spawned(spawner.enabled, spawner.spawn_positions, draw),
        None => None,
    }
}

/// Enemies, ship and account after the enemies that reach the ship have
/// attacked it, and the number of attacks.
pub struct Raid {
    pub enemies: Seq<Enemy>,
    pub player: Option<Player>,
    pub game: Game,
    pub attacks: nat,
}

/// The attacks of one frame. Every enemy that reaches a ship in play
/// attacks, also after an earlier attack of the same frame has destroyed
/// the ship; without a ship in play nothing happens.
pub open spec fn raid(
    enemies: Seq<Enemy>,
    player: Option<Player>,
    game: Game,
    radius: u32,
    now_ms: u64,
) -> Raid {
    match player {
        Some(p) => if p.removed {
            Raid { enemies, player, game, attacks: 0 }
        } else {
            Raid {
                enemies: strike_ship(enemies, p.position, radius),
                player: Some(
                    after_attacks(game, p, now_ms, attack_count(enemies, p.position, radius)).1,
                ),
                game: after_attacks(game, p, now_ms, attack_count(enemies, p.position, radius)).0,
                attacks: attack_count(enemies, p.position, radius),
            }
        },
        None => Raid { enemies, player, game, attacks: 0 },
    }
}

/// The ship as it leaves a frame: gone once it is marked for removal.
pub open spec fn surviving(player: Option<Player>) -> Option<Player> {
    match player {
        Some(p) => if p.removed {
            None
        } else {
            Some(p)
        },
        None => None,
    }
}

/// The clock of a frame: the world's clock after it took the host's time.
pub open spec fn frame_clock(w: WorldView, t: TickInput) -> Clock {
    w.clock.spec_advance(t.ticks_ms, t.delta_us)
}

/// Ship and rocket after the ship's part of a frame.
pub open spec fn frame_launch(w: WorldView, t: TickInput) -> (Option<Player>, Option<Rocket>) {
    launch(w.player, t.input, frame_clock(w, t).now_ms, t.delta_us, w.viewport)
}

/// The enemy that enters during a frame.
pub open spec fn frame_arrival(w: WorldView, t: TickInput) -> Option<Enemy> {
    arrival(w.spawner, t.spawn_draw)
}

/// Rockets and enemies of a frame after both have moved, the spawner has
/// emitted and the rockets have had their turn.
pub open spec fn frame_volley(w: WorldView, t: TickInput) -> Volley {
    resolve_hits(
        step_rockets(with_rocket(w.rockets, frame_launch(w, t).1), t.delta_us),
        with_enemy(step_enemies(w.enemies, t.delta_us), frame_arrival(w, t)),
        w.collision_radius,
        step_rockets(with_rocket(w.rockets, frame_launch(w, t).1), t.delta_us).len() as int,
    )
}

/// Enemies, ship and account of a frame after the enemies have attacked.
pub open spec fn frame_raid(w: WorldView, t: TickInput) -> Raid {
    raid(
        frame_volley(w, t).enemies,
        frame_launch(w, t).0,
        after_kills(w.game, frame_volley(w, t).kills),
        w.collision_radius,
        frame_clock(w, t).now_ms,
    )
}

/// One frame. In this order: the clock takes the host's time; the ship
/// shoots, then moves; rockets and enemies move; the spawner emits; rockets
/// destroy enemies; enemies attack the ship; enemies vanish in the
/// deathzone; rockets leave the screen; everything marked is removed; and
/// the game-over screen appears if it is due.
pub open spec fn spec_tick(w: WorldView, t: TickInput) -> (WorldView, TickOutcome) {
    (
        WorldView {
            player: surviving(frame_raid(w, t).player),
            rockets: live_rockets(leave_screen(frame_volley(w, t).rockets, w.viewport)),
            enemies: live_enemies(enter_deathzone(frame_raid(w, t).enemies, w.deathzone_x)),
            game: frame_raid(w, t).game.spec_process(frame_clock(w, t).now_ms).0,
            clock: frame_clock(w, t),
            ..w
        },
        TickOutcome {
            toggle_fullscreen: t.input.fullscreen_toggle,
            rocket_fired: frame_launch(w, t).1 is Some,
            enemy_spawned: frame_arrival(w, t) is Some,
            enemies_died: frame_volley(w, t).kills,
            attacks: frame_raid(w, t).attacks,
            game_over_screen: frame_raid(w, t).game.spec_process(frame_clock(w, t).now_ms).1,
        },
    )
}

/// Whether the account fits the rest of the world: while lives are left,
/// the end of the game has not been started.
pub open spec fn consistent(w: WorldView) -> bool {
    w.game.lives > 0 ==> !w.game.spec_game_over_started()
}

/// A frame changes nothing of the world's configuration, and its clock
/// never runs backwards.
pub proof fn lemma_tick_frame(w: WorldView, t: TickInput)
    ensures
        spec_tick(w, t).0.viewport == w.viewport,
        spec_tick(w, t).0.deathzone_x == w.deathzone_x,
        spec_tick(w, t).0.collision_radius == w.collision_radius,
        spec_tick(w, t).0.spawner == w.spawner,
        spec_tick(w, t).0.game.game_over_delay == w.game.game_over_delay,
        spec_tick(w, t).0.clock.now_ms >= w.clock.now_ms,
        spec_tick(w, t).0.clock.now_ms >= t.ticks_ms,
        spec_tick(w, t).1.toggle_fullscreen == t.input.fullscreen_toggle,
{
    lemma_after_kills(w.game, frame_volley(w, t).kills);
    lemma_raid(
        frame_volley(w, t).enemies,
        frame_launch(w, t).0,
        after_kills(w.game, frame_volley(w, t).kills),
        w.collision_radius,
        frame_clock(w, t).now_ms,
    );
}

/// What the attacks of a frame do: the enemies keep their number; lives
/// fall by the number of attacks and the score stays; there are attacks
/// only on a ship in play; and the end of the game is started exactly if
/// it had not been started and the attacks leave no life. The ship is
/// marked for removal exactly if the end is started, and is otherwise left
/// as it was.
pub proof fn lemma_raid(
    enemies: Seq<Enemy>,
    player: Option<Player>,
    game: Game,
    radius: u32,
    now_ms: u64,
)
    ensures
        ({
            let raided = raid(enemies, player, game, radius, now_ms);
            let lives = lives_after_attacks(game.lives, raided.attacks);
            let starts = raided.attacks > 0 && lives <= 0 && !game.spec_game_over_started();
            &&& raided.enemies.len() == enemies.len()
            &&& raided.attacks <= enemies.len()
            &&& raided.attacks > 0 ==> (player matches Some(p) && !p.removed)
            &&& raided.game == (Game {
                lives,
                hud: Hud {
                    lives: if raided.attacks == 0 {
                        game.hud.lives
                    } else {
                        lives
                    },
                    ..game.hud
                },
                game_over_deadline: if starts {
                    Some(game.spec_deadline(now_ms))
                } else {
                    game.game_over_deadline
                },
                ..game
            })
            &&& raided.player == match player {
                Some(p) => Some(Player { removed: p.removed || starts, ..p }),
                None => None,
            }
        }),
{
    match player {
        Some(p) => {
            if !p.removed {
                lemma_after_attacks(game, p, now_ms, attack_count(enemies, p.position, radius));
                enemies.lemma_filter_len(touching(p.position, radius));
            }
        },
        None => {},
    }
}

/// What a frame does to the account: the score grows by a hundred points
/// for each enemy that a rocket destroyed, up to its cap, and never falls;
/// the lives fall by one for each enemy that reached the ship, down to the
/// bottom of their range, and never grow. A world that is consistent stays
/// so.
pub proof fn lemma_tick_account(w: WorldView, t: TickInput)
    ensures
        spec_tick(w, t).0.game.score == score_after_kills(
            w.game.score,
            spec_tick(w, t).1.enemies_died,
        ),
        spec_tick(w, t).0.game.lives == lives_after_attacks(
            w.game.lives,
            spec_tick(w, t).1.attacks,
        ),
        spec_tick(w, t).0.game.score >= w.game.score,
        spec_tick(w, t).0.game.lives <= w.game.lives,
        spec_tick(w, t).1.attacks > 0 ==> w.player is Some,
        w.game.spec_hud_current() ==> spec_tick(w, t).0.game.spec_hud_current(),
        consistent(w) ==> consistent(spec_tick(w, t).0),
{
    lemma_after_kills(w.game, frame_volley(w, t).kills);
    lemma_raid(
        frame_volley(w, t).enemies,
        frame_launch(w, t).0,
        after_kills(w.game, frame_volley(w, t).kills),
        w.collision_radius,
        frame_clock(w, t).now_ms,
    );
}

/// What a frame does to the ship. A ship that is there after the frame was
/// there before, is not marked for removal, and is the ship of before
/// after it shot, if it could, and moved; where the viewport has room for
/// it, it lies wholly inside. A rocket is fired exactly if there is a ship
/// whose shoot action is held and whose cooldown has run out. The ship
/// leaves the world in the frame in which it is found marked for removal,
/// and in the frame in which an attack starts the end of the game.
pub proof fn lemma_tick_player(w: WorldView, t: TickInput)
    ensures
        spec_tick(w, t).1.rocket_fired <==> (w.player matches Some(p) && p.spec_fires(
            t.input,
            spec_tick(w, t).0.clock.now_ms,
        )),
        spec_tick(w, t).0.player matches Some(after) ==> {
            &&& w.player matches Some(before)
            &&& !before.removed
            &&& !after.removed
            &&& after == before.spec_maybe_shoot(
                t.input,
                spec_tick(w, t).0.clock.now_ms,
            ).0.spec_update_motion(t.input, t.delta_us, w.viewport)
            &&& before.spec_fits(w.viewport) ==> after.spec_in_bounds(w.viewport)
        },
        spec_tick(w, t).0.player is None <==> (w.player matches Some(before) ==> before.removed
            || (!w.game.spec_game_over_started() && spec_tick(w, t).1.attacks > 0 && spec_tick(
            w,
            t,
        ).0.game.lives <= 0)),
{
    lemma_after_kills(w.game, frame_volley(w, t).kills);
    lemma_raid(
        frame_volley(w, t).enemies,
        frame_launch(w, t).0,
        after_kills(w.game, frame_volley(w, t).kills),
        w.collision_radius,
        frame_clock(w, t).now_ms,
    );
    match w.player {
        Some(before) => {
            let shot = before.spec_maybe_shoot(t.input, frame_clock(w, t).now_ms).0;
            let moved = shot.spec_move_player(t.input.directions, t.delta_us);
            if before.spec_fits(w.viewport) {
                moved.lemma_clamped_in_bounds(w.viewport);
            }
        },
        None => {},
    }
}

/// What a frame does to the rockets: those that are left are in play, and
/// together with the enemies destroyed in the frame they are no more than
/// the rockets of before and the one that was fired.
pub proof fn lemma_tick_rockets(w: WorldView, t: TickInput)
    ensures
        spec_tick(w, t).0.rockets.len() + spec_tick(w, t).1.enemies_died <= w.rockets.len() + (
        if spec_tick(w, t).1.rocket_fired {
            1nat
        } else {
            0nat
        }),
        forall|i: int|
            0 <= i < spec_tick(w, t).0.rockets.len() ==> !(#[trigger] spec_tick(
                w,
                t,
            ).0.rockets[i]).removed,
{
    let loaded = with_rocket(w.rockets, frame_launch(w, t).1);
    let moved = step_rockets(loaded, t.delta_us);
    let enemies = with_enemy(step_enemies(w.enemies, t.delta_us), frame_arrival(w, t));
    lemma_step_rockets(loaded, t.delta_us);
    lemma_resolve_hits(moved, enemies, w.collision_radius, moved.len() as int);
    lemma_leave_screen(frame_volley(w, t).rockets, w.viewport);
    loaded.lemma_filter_len(rocket_in_play());
    let left = leave_screen(frame_volley(w, t).rockets, w.viewport);
    assert forall|i: int| 0 <= i < live_rockets(left).len() implies !(#[trigger] live_rockets(
        left,
    )[i]).removed by {
        left.lemma_filter_pred(rocket_in_play(), i);
    }
}

/// What a frame does to the enemies: those that are left are in play, and
/// they are no more than the enemies of before and the one that entered.
/// An enemy enters exactly if the spawn timer ran out during the frame
/// while the spawner was enabled and had a spawn point, and it enters at
/// the spawn point that the frame's random number selects.
pub proof fn lemma_tick_enemies(w: WorldView, t: TickInput)
    ensures
        spec_tick(w, t).0.enemies.len() <= w.enemies.len() + (if spec_tick(w, t).1.enemy_spawned {
            1nat
        } else {
            0nat
        }),
        forall|i: int|
            0 <= i < spec_tick(w, t).0.enemies.len() ==> !(#[trigger] spec_tick(
                w,
                t,
            ).0.enemies[i]).removed,
        spec_tick(w, t).1.enemy_spawned <==> (t.spawn_draw is Some && w.spawner.enabled
            && w.spawner.spawn_positions.len() > 0),
{
    let moved = step_rockets(with_rocket(w.rockets, frame_launch(w, t).1), t.delta_us);
    let enemies = with_enemy(step_enemies(w.enemies, t.delta_us), frame_arrival(w, t));
    lemma_resolve_hits(moved, enemies, w.collision_radius, moved.len() as int);
    lemma_raid(
        frame_volley(w, t).enemies,
        frame_launch(w, t).0,
        after_kills(w.game, frame_volley(w, t).kills),
        w.collision_radius,
        frame_clock(w, t).now_ms,
    );
    let left = enter_deathzone(frame_raid(w, t).enemies, w.deathzone_x);
    left.lemma_filter_len(enemy_in_play());
    assert forall|i: int| 0 <= i < live_enemies(left).len() implies !(#[trigger] live_enemies(
        left,
    )[i]).removed by {
        left.lemma_filter_pred(enemy_in_play(), i);
    }
}

/// What a frame does to the end of the game, by the state it finds.
///
/// Pending: the screen appears in this frame exactly if the frame's time
/// has reached the deadline, and shows the score of this frame; otherwise
/// the deadline stands. Shown: nothing changes and no screen appears.
/// Not started: the end is started exactly if an attack of this frame
/// leaves no life; its deadline is then the frame's time plus the delay,
/// and the screen appears in this very frame only if that time has come.
pub proof fn lemma_tick_game_over(w: WorldView, t: TickInput)
    ensures
        ({
            let after = spec_tick(w, t).0.game;
            let screen = spec_tick(w, t).1.game_over_screen;
            let now = spec_tick(w, t).0.clock.now_ms;
            let shown = Game { game_over_deadline: None, game_over_shown: true, ..after };
            &&& screen is Some ==> screen == Some(GameOverScreen::spec_new(after.score))
            &&& w.game.game_over_deadline matches Some(deadline) ==> if now >= deadline {
                screen is Some && after == shown
            } else {
                screen is None && after.game_over_deadline == Some(deadline)
                    && after.game_over_shown == w.game.game_over_shown
            }
            &&& w.game.game_over_deadline is None && w.game.game_over_shown ==> screen is None
                && after == shown
            &&& !w.game.spec_game_over_started() ==> if after.lives <= 0 && spec_tick(
                w,
                t,
            ).1.attacks > 0 {
                if now >= w.game.spec_deadline(now) {
                    screen is Some && after == shown
                } else {
                    screen is None && !after.game_over_shown && after.game_over_deadline == Some(
                        w.game.spec_deadline(now),
                    )
                }
            } else {
                screen is None && !after.spec_game_over_started()
            }
        }),
{
    lemma_after_kills(w.game, frame_volley(w, t).kills);
    lemma_raid(
        frame_volley(w, t).enemies,
        frame_launch(w, t).0,
        after_kills(w.game, frame_volley(w, t).kills),
        w.collision_radius,
        frame_clock(w, t).now_ms,
    );
}

} // verus!
