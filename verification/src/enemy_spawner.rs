//! The source of enemies: a list of spawn points and a switch.

use vstd::prelude::*;
use crate::enemy::Enemy;
use crate::vector::Vector2;

verus! {

/// The spawn point that the random number `draw` selects: the one at index
/// `draw` modulo the length of the list, or none from an empty list.
pub open spec fn pick_spawn(positions: Seq<Vector2>, draw: u64) -> Option<Vector2> {
    if positions.len() == 0 {
        None
    } else {
        Some(positions[draw as int % positions.len() as int])
    }
}

/// The enemy that a timer tick with the random number `draw` brings forth.
pub open spec fn spawned(enabled: bool, positions: Seq<Vector2>, draw: u64) -> Option<Enemy> {
    match pick_spawn(positions, draw) {
        Some(position) => if enabled {
            Some(Enemy::spec_new(position))
        } else {
            None
        },
        None => None,
    }
}

/// The draws select the spawn points in turn: in every stretch of as many
/// consecutive draws as there are points, beginning at a multiple of that
/// number, each point is selected exactly once, the point at `index` by the
/// draw `index` places into the stretch. Draws that are spread evenly over
/// such stretches therefore select every point equally often.
pub proof fn lemma_draws_select_in_turn(positions: Seq<Vector2>, stretch: nat, index: int)
    requires
        0 <= index < positions.len(),
        stretch * positions.len() + index <= u64::MAX,
    ensures
        pick_spawn(positions, (stretch * positions.len() + index) as u64) == Some(
            positions[index],
        ),
{
    vstd::arithmetic::div_mod::lemma_mod_multiples_vanish(
        stretch as int,
        index,
        positions.len() as int,
    );
    vstd::arithmetic::div_mod::lemma_small_mod(index as nat, positions.len());
    assert(stretch * positions.len() == positions.len() * stretch) by (nonlinear_arith);
}

/// Emits enemies at its spawn points while it is enabled. The timer that
/// paces it and the random numbers that choose among the points belong to
/// the host.
#[derive(Debug, PartialEq, Eq)]
pub struct EnemySpawner {
    pub enabled: bool,
    pub spawn_positions: Vec<Vector2>,
}

/// The mathematical view of a spawner, with a sequence for its vector.
pub struct EnemySpawnerView {
    pub enabled: bool,
    pub spawn_positions: Seq<Vector2>,
}

impl View for EnemySpawner {
    type V = EnemySpawnerView;

    open spec fn view(&self) -> EnemySpawnerView {
        EnemySpawnerView { enabled: self.enabled, spawn_positions: self.spawn_positions@ }
    }
}

impl EnemySpawner {
    /// An enabled spawner with the given spawn points.
    pub fn new(spawn_positions: Vec<Vector2>) -> (spawner: EnemySpawner)
        ensures
            spawner.enabled,
            spawner.spawn_positions@ == spawn_positions@,
    {
        EnemySpawner { enabled: true, spawn_positions }
    }

    /// Switches the spawner on or off. A spawner that is off lets timer
    /// ticks pass without emitting.
    pub fn set_enabled(&mut self, enabled: bool)
        ensures
            final(self).enabled == enabled,
            final(self).spawn_positions@ == old(self).spawn_positions@,
    {
        self.enabled = enabled;
    }

    /// Chooses a spawn point by the random number `draw`. A draw that is
    /// uniform over the indices of the list chooses uniformly among the
    /// points.
    pub fn get_random_spawn(&self, draw: u64) -> (position: Option<Vector2>)
        ensures
            position == pick_spawn(self.spawn_positions@, draw),
            position is None <==> self.spawn_positions@.len() == 0,
    {
        let n: usize = self.spawn_positions.len();
        if n == 0 {
            None
        } else {
            let index: usize = (draw % (n as u64)) as usize;
            Some(self.spawn_positions[index])
        }
    }

    /// Creates an enemy at `position`.
    pub fn spawn_enemy(&self, position: Vector2) -> (enemy: Enemy)
        ensures
            enemy == Enemy::spec_new(position),
    {
        Enemy::new(position)
    }

    /// Answers one tick of the spawn timer: an enabled spawner with at least
    /// one spawn point emits one enemy at the point that `draw` selects, and
    /// nothing is emitted otherwise.
    pub fn on_timer_timeout(&self, draw: u64) -> (enemy: Option<Enemy>)
        ensures
            enemy == spawned(self.enabled, self.spawn_positions@, draw),
            enemy is Some <==> self.enabled && self.spawn_positions@.len() > 0,
    {
        match self.get_random_spawn(draw) {
            Some(position) => {
                if self.enabled {
                    Some(self.spawn_enemy(position))
                } else {
                    None
                }
            },
            None => None,
        }
    }
}

} // verus!
