//! Movement and overlap resolution over whole groups of rockets and enemies.
//!
//! Each phase of a frame is given twice: as a function on sequences, which
//! says what the phase does, and as an executable function on vectors that
//! is proved to do exactly that.

use vstd::prelude::*;
use crate::enemy::Enemy;
use crate::entity::Entity;
use crate::game::Game;
use crate::player::Player;
use crate::rocket::Rocket;
use crate::vector::Vector2;

verus! {

/// Every rocket one frame later.
pub open spec fn step_rockets(rockets: Seq<Rocket>, delta_us: u32) -> Seq<Rocket> {
    Seq::new(rockets.len(), |i: int| rockets[i].spec_step(delta_us))
}

/// Every enemy one frame later.
pub open spec fn step_enemies(enemies: Seq<Enemy>, delta_us: u32) -> Seq<Enemy> {
    Seq::new(enemies.len(), |i: int| enemies[i].spec_step(delta_us))
}

/// Index of the first enemy at or after `from` that `rocket` reaches.
pub open spec fn first_target_from(rocket: Rocket, enemies: Seq<Enemy>, radius: u32, from: int)
    -> Option<int>
    decreases enemies.len() - from,
{
    if from >= enemies.len() {
        None
    } else if rocket.spec_reaches(enemies[from], radius) {
        Some(from)
    } else {
        first_target_from(rocket, enemies, radius, from + 1)
    }
}

/// Index of the first enemy that `rocket` reaches: the enemy it destroys.
pub open spec fn first_target(rocket: Rocket, enemies: Seq<Enemy>, radius: u32) -> Option<int> {
    first_target_from(rocket, enemies, radius, 0)
}

/// The search from `from` finds the least index at or after `from` whose
/// enemy the rocket reaches, and finds nothing only where there is none.
pub proof fn lemma_first_target_from(rocket: Rocket, enemies: Seq<Enemy>, radius: u32, from: int)
    requires
        0 <= from,
    ensures
        match first_target_from(rocket, enemies, radius, from) {
            Some(j) => {
                &&& from <= j < enemies.len()
                &&& rocket.spec_reaches(enemies[j], radius)
                &&& forall|k: int| from <= k < j ==> !rocket.spec_reaches(#[trigger] enemies[k], radius)
            },
            None => forall|k: int|
                from <= k < enemies.len() ==> !rocket.spec_reaches(#[trigger] enemies[k], radius),
        },
    decreases enemies.len() - from,
{
    if from < enemies.len() && !rocket.spec_reaches(enemies[from], radius) {
        lemma_first_target_from(rocket, enemies, radius, from + 1);
    }
}

/// A rocket destroys the enemy of least index among those it reaches, and
/// none only where it reaches none.
pub proof fn lemma_first_target(rocket: Rocket, enemies: Seq<Enemy>, radius: u32)
    ensures
        match first_target(rocket, enemies, radius) {
            Some(j) => {
                &&& 0 <= j < enemies.len()
                &&& rocket.spec_reaches(enemies[j], radius)
                &&& forall|k: int| 0 <= k < j ==> !rocket.spec_reaches(#[trigger] enemies[k], radius)
            },
            None => forall|k: int|
                0 <= k < enemies.len() ==> !rocket.spec_reaches(#[trigger] enemies[k], radius),
        },
{
    lemma_first_target_from(rocket, enemies, radius, 0);
}

/// Rockets and enemies after some rockets have had their turn, and the
/// number of enemies destroyed so far.
pub struct Volley {
    pub rockets: Seq<Rocket>,
    pub enemies: Seq<Enemy>,
    pub kills: nat,
}

/// The state after the rockets before index `upto` have had their turn, in
/// order. A rocket whose turn it is destroys the first enemy it reaches:
/// both are marked for removal, so that neither takes part in a later turn.
pub open spec fn resolve_hits(rockets: Seq<Rocket>, enemies: Seq<Enemy>, radius: u32, upto: int)
    -> Volley
    decreases upto,
{
    if upto <= 0 {
        Volley { rockets, enemies, kills: 0 }
    } else {
        let before = resolve_hits(rockets, enemies, radius, upto - 1);
        let rocket = before.rockets[upto - 1];
        match first_target(rocket, before.enemies, radius) {
            Some(j) => Volley {
                rockets: before.rockets.update(upto - 1, rocket.spec_removed()),
                enemies: before.enemies.update(j, before.enemies[j].spec_removed()),
                kills: before.kills + 1,
            },
            None => before,
        }
    }
}

/// The account after `kills` enemies were destroyed.
pub open spec fn after_kills(game: Game, kills: nat) -> Game
    decreases kills,
{
    if kills == 0 {
        game
    } else {
        after_kills(game, (kills - 1) as nat).spec_on_enemy_died()
    }
}

/// The test by which an enemy counts as having reached a ship at `target`.
pub open spec fn touching(target: Vector2, radius: u32) -> spec_fn(Enemy) -> bool {
    |enemy: Enemy| enemy.spec_touches(target, radius)
}

/// The enemies after those that reached a ship at `target` were taken out
/// of play.
pub open spec fn strike_ship(enemies: Seq<Enemy>, target: Vector2, radius: u32) -> Seq<Enemy> {
    Seq::new(
        enemies.len(),
        |i: int|
            if enemies[i].spec_touches(target, radius) {
                enemies[i].spec_removed()
            } else {
                enemies[i]
            },
    )
}

/// How many enemies reached a ship at `target`.
pub open spec fn attack_count(enemies: Seq<Enemy>, target: Vector2, radius: u32) -> nat {
    enemies.filter(touching(target, radius)).len()
}

/// Account and ship after `attacks` enemies reached the ship at `now_ms`.
pub open spec fn after_attacks(game: Game, player: Player, now_ms: u64, attacks: nat) -> (
    Game,
    Player,
)
    decreases attacks,
{
    if attacks == 0 {
        (game, player)
    } else {
        let before = after_attacks(game, player, now_ms, (attacks - 1) as nat);
        before.0.spec_on_enemy_attack(before.1, now_ms)
    }
}

/// The enemies after those at or beyond the deathzone boundary were taken
/// out of play.
pub open spec fn enter_deathzone(enemies: Seq<Enemy>, boundary_x: i64) -> Seq<Enemy> {
    Seq::new(
        enemies.len(),
        |i: int|
            if enemies[i].spec_in_deathzone(boundary_x) {
                enemies[i].spec_removed()
            } else {
                enemies[i]
            },
    )
}

/// The rockets after those beyond the right edge of the viewport were taken
/// out of play.
pub open spec fn leave_screen(rockets: Seq<Rocket>, viewport: Vector2) -> Seq<Rocket> {
    Seq::new(
        rockets.len(),
        |i: int|
            if rockets[i].spec_off_screen(viewport) {
                rockets[i].spec_removed()
            } else {
                rockets[i]
            },
    )
}

/// The test by which a rocket stays in the world.
pub open spec fn rocket_in_play() -> spec_fn(Rocket) -> bool {
    |rocket: Rocket| !rocket.removed
}

/// The test by which an enemy stays in the world.
pub open spec fn enemy_in_play() -> spec_fn(Enemy) -> bool {
    |enemy: Enemy| !enemy.removed
}

/// The rockets that are not marked for removal, in their order.
pub open spec fn live_rockets(rockets: Seq<Rocket>) -> Seq<Rocket> {
    rockets.filter(rocket_in_play())
}

/// The enemies that are not marked for removal, in their order.
pub open spec fn live_enemies(enemies: Seq<Enemy>) -> Seq<Enemy> {
    enemies.filter(enemy_in_play())
}

/// The score after `kills` more kills, capped at the top of its range.
pub open spec fn score_after_kills(score: u32, kills: nat) -> u32 {
    if score + 100 * kills > u32::MAX {
        u32::MAX
    } else {
        (score + 100 * kills) as u32
    }
}

/// The lives after `attacks` more attacks, held at the bottom of their range.
pub open spec fn lives_after_attacks(lives: i8, attacks: nat) -> i8 {
    if lives - attacks < i8::MIN {
        i8::MIN
    } else {
        (lives - attacks) as i8
    }
}

/// Kills change the score and what the display shows of it, and nothing
/// else: each adds a hundred points until the score reaches its cap.
pub proof fn lemma_after_kills(game: Game, kills: nat)
    ensures
        after_kills(game, kills) == (Game {
            score: score_after_kills(game.score, kills),
            hud: crate::hud::Hud {
                score: if kills == 0 {
                    game.hud.score
                } else {
                    score_after_kills(game.score, kills)
                },
                ..game.hud
            },
            ..game
        }),
    decreases kills,
{
    if kills > 0 {
        lemma_after_kills(game, (kills - 1) as nat);
    }
}

/// Attacks leave the score alone and take one life each until the count
/// reaches the bottom of its range. The end of the game is started, at
/// `now_ms`, exactly if it had not been started before and the attacks
/// leave no life; the ship is then marked for removal and is otherwise
/// untouched.
pub proof fn lemma_after_attacks(game: Game, player: Player, now_ms: u64, attacks: nat)
    ensures
        ({
            let after = after_attacks(game, player, now_ms, attacks);
            let lives = lives_after_attacks(game.lives, attacks);
            let starts = attacks > 0 && lives <= 0 && !game.spec_game_over_started();
            &&& after.0 == (Game {
                lives,
                hud: crate::hud::Hud {
                    lives: if attacks == 0 {
                        game.hud.lives
                    } else {
                        lives
                    },
                    ..game.hud
                },
                game_over_deadline: if starts {
                    Some(game.spec_deadline(now_ms))
                } else {
                    game.game_over_deadline
                },
                ..game
            })
            &&& after.1 == (Player { removed: player.removed || starts, ..player })
        }),
    decreases attacks,
{
    if attacks > 0 {
        lemma_after_attacks(game, player, now_ms, (attacks - 1) as nat);
    }
}

/// How many of the rockets are in play.
pub open spec fn rockets_in_play(rockets: Seq<Rocket>) -> nat {
    live_rockets(rockets).len()
}

/// Marking one rocket that is in play leaves one fewer in play.
pub proof fn lemma_mark_rocket(rockets: Seq<Rocket>, i: int)
    requires
        0 <= i < rockets.len(),
        !rockets[i].removed,
    ensures
        rockets_in_play(rockets.update(i, rockets[i].spec_removed())) + 1 == rockets_in_play(
            rockets,
        ),
    decreases rockets.len(),
{
    reveal(Seq::filter);
    let marked = rockets.update(i, rockets[i].spec_removed());
    if i == rockets.len() - 1 {
        assert(marked.drop_last() =~= rockets.drop_last());
    } else {
        assert(marked.drop_last() =~= rockets.drop_last().update(i, rockets[i].spec_removed()));
        lemma_mark_rocket(rockets.drop_last(), i);
    }
}

/// Where every rocket that is in play in `after` is in play at the same
/// place in `before`, `after` has no more rockets in play than `before`.
pub proof fn lemma_fewer_in_play(before: Seq<Rocket>, after: Seq<Rocket>)
    requires
        before.len() == after.len(),
        forall|i: int| 0 <= i < after.len() && !after[i].removed ==> !(#[trigger] before[i]).removed,
    ensures
        rockets_in_play(after) <= rockets_in_play(before),
    decreases before.len(),
{
    reveal(Seq::filter);
    if before.len() > 0 {
        assert(!after.last().removed ==> !before[before.len() - 1].removed);
        lemma_fewer_in_play(before.drop_last(), after.drop_last());
    }
}

/// A turn of the rockets changes no position and no speed, and only ever
/// marks: what was marked stays marked. Each kill marks one rocket that
/// was in play, so the rockets left in play and the kills add up to the
/// rockets that were in play before.
pub proof fn lemma_resolve_hits(rockets: Seq<Rocket>, enemies: Seq<Enemy>, radius: u32, upto: int)
    requires
        0 <= upto <= rockets.len(),
    ensures
        ({
            let volley = resolve_hits(rockets, enemies, radius, upto);
            &&& volley.rockets.len() == rockets.len()
            &&& volley.enemies.len() == enemies.len()
            &&& volley.kills <= upto
            &&& rockets_in_play(volley.rockets) + volley.kills == rockets_in_play(rockets)
            &&& forall|i: int| upto <= i < rockets.len() ==> volley.rockets[i] == rockets[i]
        }),
    decreases upto,
{
    if upto > 0 {
        lemma_resolve_hits(rockets, enemies, radius, upto - 1);
        let before = resolve_hits(rockets, enemies, radius, upto - 1);
        let rocket = before.rockets[upto - 1];
        lemma_first_target(rocket, before.enemies, radius);
        if first_target(rocket, before.enemies, radius) is Some {
            lemma_mark_rocket(before.rockets, upto - 1);
        }
    }
}

/// Moving the rockets changes neither their number nor which of them are
/// in play.
pub proof fn lemma_step_rockets(rockets: Seq<Rocket>, delta_us: u32)
    ensures
        step_rockets(rockets, delta_us).len() == rockets.len(),
        rockets_in_play(step_rockets(rockets, delta_us)) == rockets_in_play(rockets),
{
    lemma_fewer_in_play(rockets, step_rockets(rockets, delta_us));
    lemma_fewer_in_play(step_rockets(rockets, delta_us), rockets);
}

/// Leaving the screen puts no rocket back into play.
pub proof fn lemma_leave_screen(rockets: Seq<Rocket>, viewport: Vector2)
    ensures
        leave_screen(rockets, viewport).len() == rockets.len(),
        rockets_in_play(leave_screen(rockets, viewport)) <= rockets_in_play(rockets),
{
    lemma_fewer_in_play(rockets, leave_screen(rockets, viewport));
}

/// Moves every rocket for one frame.
pub fn step_all_rockets(rockets: &mut Vec<Rocket>, delta_us: u32)
    ensures
        final(rockets)@ == step_rockets(old(rockets)@, delta_us),
{
    let n: usize = rockets.len();
    let mut i: usize = 0;
    while i < n
        invariant
            i <= n,
            rockets.len() == n,
            old(rockets).len() == n,
            forall|k: int| 0 <= k < i ==> rockets[k] == old(rockets)[k].spec_step(delta_us),
            forall|k: int| i <= k < n ==> rockets[k] == old(rockets)[k],
        decreases n - i,
    {
        let mut rocket: Rocket = rockets[i];
        rocket.step(delta_us);
        rockets.set(i, rocket);
        i += 1;
    }
    assert(rockets@ =~= step_rockets(old(rockets)@, delta_us));
}

/// Moves every enemy for one frame.
pub fn step_all_enemies(enemies: &mut Vec<Enemy>, delta_us: u32)
    ensures
        final(enemies)@ == step_enemies(old(enemies)@, delta_us),
{
    let n: usize = enemies.len();
    let mut i: usize = 0;
    while i < n
        invariant
            i <= n,
            enemies.len() == n,
            old(enemies).len() == n,
            forall|k: int| 0 <= k < i ==> enemies[k] == old(enemies)[k].spec_step(delta_us),
            forall|k: int| i <= k < n ==> enemies[k] == old(enemies)[k],
        decreases n - i,
    {
        let mut enemy: Enemy = enemies[i];
        enemy.step(delta_us);
        enemies.set(i, enemy);
        i += 1;
    }
    assert(enemies@ =~= step_enemies(old(enemies)@, delta_us));
}

/// Finds the enemy that `rocket` destroys: the first in the list that it
/// reaches.
pub fn find_target(rocket: &Rocket, enemies: &Vec<Enemy>, radius: u32) -> (target: Option<usize>)
    ensures
        first_target(*rocket, enemies@, radius) == match target {
            Some(j) => Some(j as int),
            None => None::<int>,
        },
        target matches Some(j) ==> {
            &&& j < enemies.len()
            &&& rocket.spec_reaches(enemies[j as int], radius)
            &&& forall|k: int| 0 <= k < j ==> !rocket.spec_reaches(#[trigger] enemies[k], radius)
        },
        target is None ==> forall|k: int|
            0 <= k < enemies.len() ==> !rocket.spec_reaches(#[trigger] enemies[k], radius),
{
    let mut j: usize = 0;
    while j < enemies.len()
        invariant
            j <= enemies.len(),
            first_target_from(*rocket, enemies@, radius, j as int) == first_target(
                *rocket,
                enemies@,
                radius,
            ),
        decreases enemies.len() - j,
    {
        if rocket.reaches(&enemies[j], radius) {
            proof {
                lemma_first_target(*rocket, enemies@, radius);
            }
            return Some(j);
        }
        j += 1;
    }
    proof {
        lemma_first_target(*rocket, enemies@, radius);
    }
    None
}

/// Lets every rocket in turn destroy the first enemy it reaches, and books
/// each kill. Returns the number of kills.
pub fn resolve_rocket_hits(
    rockets: &mut Vec<Rocket>,
    enemies: &mut Vec<Enemy>,
    game: &mut Game,
    radius: u32,
) -> (kills: usize)
    ensures
        resolve_hits(old(rockets)@, old(enemies)@, radius, old(rockets)@.len() as int) == (Volley {
            rockets: final(rockets)@,
            enemies: final(enemies)@,
            kills: kills as nat,
        }),
        *final(game) == after_kills(*old(game), kills as nat),
        final(rockets)@.len() == old(rockets)@.len(),
        final(enemies)@.len() == old(enemies)@.len(),
        kills <= old(rockets)@.len(),
{
    let n: usize = rockets.len();
    let mut kills: usize = 0;
    let mut i: usize = 0;
    while i < n
        invariant
            i <= n,
            kills <= i,
            rockets.len() == n,
            old(rockets).len() == n,
            enemies.len() == old(enemies).len(),
            resolve_hits(old(rockets)@, old(enemies)@, radius, i as int) == (Volley {
                rockets: rockets@,
                enemies: enemies@,
                kills: kills as nat,
            }),
            *game == after_kills(*old(game), kills as nat),
        decreases n - i,
    {
        let mut rocket: Rocket = rockets[i];
        match find_target(&rocket, enemies, radius) {
            Some(j) => {
                let mut enemy: Enemy = enemies[j];
                rocket.strike(&mut enemy);
                rockets.set(i, rocket);
                enemies.set(j, enemy);
                game.on_enemy_died();
                kills += 1;
            },
            None => {},
        }
        i += 1;
    }
    kills
}

/// Lets every enemy that reaches the ship attack it: the enemy is taken out
/// of play and the attack is booked. Returns the number of attacks.
pub fn resolve_attacks(
    enemies: &mut Vec<Enemy>,
    player: &mut Player,
    game: &mut Game,
    radius: u32,
    now_ms: u64,
) -> (attacks: usize)
    ensures
        final(enemies)@ == strike_ship(old(enemies)@, old(player).position, radius),
        attacks == attack_count(old(enemies)@, old(player).position, radius),
        (*final(game), *final(player)) == after_attacks(
            *old(game),
            *old(player),
            now_ms,
            attacks as nat,
        ),
{
    let n: usize = enemies.len();
    let target: Vector2 = player.position;
    let mut attacks: usize = 0;
    let mut i: usize = 0;
    proof {
        assert(old(enemies)@.take(0) =~= Seq::<Enemy>::empty());
        reveal(Seq::filter);
    }
    while i < n
        invariant
            i <= n,
            attacks <= i,
            enemies.len() == n,
            old(enemies).len() == n,
            target == old(player).position,
            forall|k: int|
                0 <= k < i ==> enemies[k] == strike_ship(old(enemies)@, target, radius)[k],
            forall|k: int| i <= k < n ==> enemies[k] == old(enemies)[k],
            attacks == attack_count(old(enemies)@.take(i as int), target, radius),
            (*game, *player) == after_attacks(*old(game), *old(player), now_ms, attacks as nat),
        decreases n - i,
    {
        let mut enemy: Enemy = enemies[i];
        proof {
            let seen = old(enemies)@.take(i as int);
            assert(old(enemies)@.take(i + 1) =~= seen.push(old(enemies)@[i as int]));
            seen.lemma_filter_len_push(touching(target, radius), old(enemies)@[i as int]);
        }
        if enemy.touches(target, radius) {
            enemy.on_body_entered(&Entity::Player(*player));
            enemies.set(i, enemy);
            game.on_enemy_attack(player, now_ms);
            attacks += 1;
        }
        i += 1;
    }
    proof {
        assert(old(enemies)@.take(n as int) =~= old(enemies)@);
        assert(enemies@ =~= strike_ship(old(enemies)@, target, radius));
    }
    attacks
}

/// Takes every enemy at or beyond the deathzone boundary out of play,
/// without score and without an attack.
pub fn resolve_deathzone(enemies: &mut Vec<Enemy>, game: &Game, boundary_x: i64)
    ensures
        final(enemies)@ == enter_deathzone(old(enemies)@, boundary_x),
{
    let n: usize = enemies.len();
    let mut i: usize = 0;
    while i < n
        invariant
            i <= n,
            enemies.len() == n,
            old(enemies).len() == n,
            forall|k: int|
                0 <= k < i ==> enemies[k] == enter_deathzone(old(enemies)@, boundary_x)[k],
            forall|k: int| i <= k < n ==> enemies[k] == old(enemies)[k],
        decreases n - i,
    {
        if enemies[i].in_deathzone(boundary_x) {
            let mut entity: Entity = Entity::Enemy(enemies[i]);
            game.on_deathzone_entered(&mut entity);
            match entity {
                Entity::Enemy(enemy) => {
                    enemies.set(i, enemy);
                },
                _ => {},
            }
        }
        i += 1;
    }
    assert(enemies@ =~= enter_deathzone(old(enemies)@, boundary_x));
}

/// Takes every rocket beyond the right edge of the viewport out of play.
pub fn resolve_screen_exits(rockets: &mut Vec<Rocket>, viewport: Vector2)
    ensures
        final(rockets)@ == leave_screen(old(rockets)@, viewport),
{
    let n: usize = rockets.len();
    let mut i: usize = 0;
    while i < n
        invariant
            i <= n,
            rockets.len() == n,
            old(rockets).len() == n,
            forall|k: int| 0 <= k < i ==> rockets[k] == leave_screen(old(rockets)@, viewport)[k],
            forall|k: int| i <= k < n ==> rockets[k] == old(rockets)[k],
        decreases n - i,
    {
        let mut rocket: Rocket = rockets[i];
        if rocket.off_screen(viewport) {
            rocket.on_screen_exited();
            rockets.set(i, rocket);
        }
        i += 1;
    }
    assert(rockets@ =~= leave_screen(old(rockets)@, viewport));
}

/// Drops the rockets that are marked for removal and keeps the others in
/// their order.
pub fn remove_marked_rockets(rockets: &mut Vec<Rocket>)
    ensures
        final(rockets)@ == live_rockets(old(rockets)@),
{
    let n: usize = rockets.len();
    let mut kept: Vec<Rocket> = Vec::new();
    let mut i: usize = 0;
    proof {
        assert(rockets@.take(0) =~= Seq::<Rocket>::empty());
        reveal(Seq::filter);
    }
    while i < n
        invariant
            i <= n,
            rockets.len() == n,
            *rockets == *old(rockets),
            kept@ == live_rockets(rockets@.take(i as int)),
        decreases n - i,
    {
        let rocket: Rocket = rockets[i];
        proof {
            let seen = rockets@.take(i as int);
            assert(rockets@.take(i + 1) =~= seen.push(rockets@[i as int]));
            seen.lemma_filter_push(rockets@[i as int], rocket_in_play());
        }
        if !rocket.removed {
            kept.push(rocket);
        }
        i += 1;
    }
    proof {
        assert(rockets@.take(n as int) =~= rockets@);
    }
    *rockets = kept;
}

/// Drops the enemies that are marked for removal and keeps the others in
/// their order.
pub fn remove_marked_enemies(enemies: &mut Vec<Enemy>)
    ensures
        final(enemies)@ == live_enemies(old(enemies)@),
{
    let n: usize = enemies.len();
    let mut kept: Vec<Enemy> = Vec::new();
    let mut i: usize = 0;
    proof {
        assert(enemies@.take(0) =~= Seq::<Enemy>::empty());
        reveal(Seq::filter);
    }
    while i < n
        invariant
            i <= n,
            enemies.len() == n,
            *enemies == *old(enemies),
            kept@ == live_enemies(enemies@.take(i as int)),
        decreases n - i,
    {
        let enemy: Enemy = enemies[i];
        proof {
            let seen = enemies@.take(i as int);
            assert(enemies@.take(i + 1) =~= seen.push(enemies@[i as int]));
            seen.lemma_filter_push(enemies@[i as int], enemy_in_play());
        }
        if !enemy.removed {
            kept.push(enemy);
        }
        i += 1;
    }
    proof {
        assert(enemies@.take(n as int) =~= enemies@);
    }
    *enemies = kept;
}

} // verus!
