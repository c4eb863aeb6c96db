//! What holds of every run of the simulation.
//!
//! A run is a world and the sequence of frame inputs that the host hands
//! to it. Since a frame is a function of the world and its input, so is
//! every later world and every report; the laws below say what all runs
//! have in common.

use vstd::prelude::*;
use crate::overlap::lives_after_attacks;
use crate::frame::consistent;
use crate::frame::lemma_tick_account;
use crate::frame::lemma_tick_frame;
use crate::frame::lemma_tick_game_over;
use crate::frame::lemma_tick_player;
use crate::frame::lemma_tick_rockets;
use crate::frame::spec_tick;
use crate::frame::TickInput;
use crate::frame::TickOutcome;
use crate::frame::WorldView;

verus! {

/// The world after the frames `inputs`, in their order.
pub open spec fn run(w: WorldView, inputs: Seq<TickInput>) -> WorldView
    decreases inputs.len(),
{
    if inputs.len() == 0 {
        w
    } else {
        spec_tick(run(w, inputs.drop_last()), inputs.last()).0
    }
}

/// The world as frame `k` of the run finds it.
#[verifier::opaque]
pub open spec fn world_before(w: WorldView, inputs: Seq<TickInput>, k: int) -> WorldView {
    run(w, inputs.take(k))
}

/// The report of frame `k` of the run.
#[verifier::opaque]
pub open spec fn outcome_at(w: WorldView, inputs: Seq<TickInput>, k: int) -> TickOutcome {
    spec_tick(world_before(w, inputs, k), inputs[k]).1
}

/// The clock reading, in milliseconds, at which frame `k` of the run takes
/// place.
pub open spec fn time_at(w: WorldView, inputs: Seq<TickInput>, k: int) -> u64 {
    world_before(w, inputs, k + 1).clock.now_ms
}

/// Number of enemies that rockets destroyed during the run.
pub open spec fn total_kills(w: WorldView, inputs: Seq<TickInput>) -> nat
    decreases inputs.len(),
{
    if inputs.len() == 0 {
        0
    } else {
        total_kills(w, inputs.drop_last()) + spec_tick(
            run(w, inputs.drop_last()),
            inputs.last(),
        ).1.enemies_died
    }
}

/// Number of rockets that the ship fired during the run.
pub open spec fn total_shots(w: WorldView, inputs: Seq<TickInput>) -> nat
    decreases inputs.len(),
{
    if inputs.len() == 0 {
        0
    } else {
        total_shots(w, inputs.drop_last()) + (if spec_tick(
            run(w, inputs.drop_last()),
            inputs.last(),
        ).1.rocket_fired {
            1nat
        } else {
            0nat
        })
    }
}

/// What can be observed of a world from outside: score, lives, number of
/// rockets and number of enemies.
pub open spec fn observation(w: WorldView) -> (u32, i8, nat, nat) {
    (w.game.score, w.game.lives, w.rockets.len(), w.enemies.len())
}

/// Frame `k` leads from the world before it to the world before frame
/// `k + 1`.
pub proof fn lemma_run_step(w: WorldView, inputs: Seq<TickInput>, k: int)
    requires
        0 <= k < inputs.len(),
    ensures
        world_before(w, inputs, k + 1) == spec_tick(world_before(w, inputs, k), inputs[k]).0,
        outcome_at(w, inputs, k) == spec_tick(world_before(w, inputs, k), inputs[k]).1,
        world_before(w, inputs, 0) == w,
        world_before(w, inputs, inputs.len() as int) == run(w, inputs),
{
    reveal(world_before);
    reveal(outcome_at);
    assert(inputs.take(k + 1).drop_last() =~= inputs.take(k));
    assert(inputs.take(k + 1).last() == inputs[k]);
    assert(inputs.take(inputs.len() as int) =~= inputs);
}

/// A run begins in the world it is given and ends in the world after all
/// its frames.
pub proof fn lemma_run_start(w: WorldView, inputs: Seq<TickInput>)
    ensures
        world_before(w, inputs, 0) == w,
        world_before(w, inputs, inputs.len() as int) == run(w, inputs),
{
    reveal(world_before);
    assert(inputs.take(inputs.len() as int) =~= inputs);
}

/// The configuration of the world is the same before every frame of a run.
pub proof fn lemma_run_frame(w: WorldView, inputs: Seq<TickInput>, k: int)
    requires
        0 <= k <= inputs.len(),
    ensures
        world_before(w, inputs, k).viewport == w.viewport,
        world_before(w, inputs, k).deathzone_x == w.deathzone_x,
        world_before(w, inputs, k).collision_radius == w.collision_radius,
        world_before(w, inputs, k).spawner == w.spawner,
        world_before(w, inputs, k).game.game_over_delay == w.game.game_over_delay,
        consistent(w) ==> consistent(world_before(w, inputs, k)),
    decreases k,
{
    lemma_run_start(w, inputs);
    if k > 0 {
        lemma_run_frame(w, inputs, k - 1);
        lemma_run_step(w, inputs, k - 1);
        lemma_tick_frame(world_before(w, inputs, k - 1), inputs[k - 1]);
        lemma_tick_account(world_before(w, inputs, k - 1), inputs[k - 1]);
    }
}

/// Clamping. After every frame of every run the ship, while it exists,
/// lies wholly inside the viewport, provided the viewport has room for its
/// sprite.
pub proof fn law_player_stays_in_viewport(w: WorldView, inputs: Seq<TickInput>, k: int)
    requires
        0 < k <= inputs.len(),
    ensures
        world_before(w, inputs, k).player matches Some(p) ==> (p.spec_fits(w.viewport)
            ==> p.spec_in_bounds(w.viewport)),
{
    lemma_run_step(w, inputs, k - 1);
    lemma_run_frame(w, inputs, k - 1);
    lemma_tick_player(world_before(w, inputs, k - 1), inputs[k - 1]);
}

/// Once the ship has fired in frame `i`, every later ship of the run has
/// the same cooldown and is not ready before the cooldown that began in
/// frame `i` has run out.
pub proof fn lemma_reload_holds(w: WorldView, inputs: Seq<TickInput>, i: int, m: int)
    requires
        0 <= i < m <= inputs.len(),
        outcome_at(w, inputs, i).rocket_fired,
    ensures
        world_before(w, inputs, i).player is Some,
        world_before(w, inputs, m).player matches Some(later) ==> {
            let shooter = world_before(w, inputs, i).player->Some_0;
            &&& later.time_between_shots_us == shooter.time_between_shots_us
            &&& later.next_shot_time >= shooter.spec_reloaded(
                time_at(w, inputs, i),
            ).next_shot_time
        },
    decreases m,
{
    lemma_run_step(w, inputs, m - 1);
    lemma_tick_player(world_before(w, inputs, m - 1), inputs[m - 1]);
    if m - 1 > i {
        lemma_reload_holds(w, inputs, i, m - 1);
    }
}

/// Shoot cadence. Between two frames of a run in which the ship fires lie
/// at least as many milliseconds as its cooldown has, as long as the clock
/// can count to the end of the cooldown.
pub proof fn law_shoot_cadence(w: WorldView, inputs: Seq<TickInput>, i: int, j: int)
    requires
        0 <= i < j < inputs.len(),
        outcome_at(w, inputs, i).rocket_fired,
        outcome_at(w, inputs, j).rocket_fired,
        time_at(w, inputs, i) + world_before(w, inputs, i).player->Some_0.spec_cooldown_ms()
            <= u64::MAX,
    ensures
        world_before(w, inputs, i).player is Some,
        time_at(w, inputs, j) - time_at(w, inputs, i) >= world_before(
            w,
            inputs,
            i,
        ).player->Some_0.spec_cooldown_ms(),
{
    lemma_reload_holds(w, inputs, i, j);
    lemma_run_step(w, inputs, j);
    lemma_tick_player(world_before(w, inputs, j), inputs[j]);
}

/// The time of the next shot never moves back: a ship that is there before
/// frame `j` was there before every earlier frame `i`, with the same
/// cooldown and a time of the next shot that is no later.
pub proof fn law_next_shot_time_monotone(w: WorldView, inputs: Seq<TickInput>, i: int, j: int)
    requires
        0 <= i <= j <= inputs.len(),
    ensures
        world_before(w, inputs, j).player matches Some(later) ==> {
            &&& world_before(w, inputs, i).player matches Some(earlier)
            &&& later.next_shot_time >= earlier.next_shot_time
            &&& later.time_between_shots_us == earlier.time_between_shots_us
        },
    decreases j - i,
{
    if i < j {
        lemma_run_step(w, inputs, j - 1);
        lemma_tick_player(world_before(w, inputs, j - 1), inputs[j - 1]);
        law_next_shot_time_monotone(w, inputs, i, j - 1);
    }
}

/// Monotonicity. Along a run the score never falls and the lives never
/// grow.
pub proof fn law_score_and_lives_monotone(w: WorldView, inputs: Seq<TickInput>, i: int, j: int)
    requires
        0 <= i <= j <= inputs.len(),
    ensures
        world_before(w, inputs, i).game.score <= world_before(w, inputs, j).game.score,
        world_before(w, inputs, i).game.lives >= world_before(w, inputs, j).game.lives,
    decreases j - i,
{
    if i < j {
        law_score_and_lives_monotone(w, inputs, i, j - 1);
        lemma_run_step(w, inputs, j - 1);
        lemma_tick_account(world_before(w, inputs, j - 1), inputs[j - 1]);
    }
}

/// Scoring. A frame in which rockets destroy `n` enemies raises the score
/// by exactly `100 * n`, as long as the score stays inside its range.
pub proof fn law_score_counts_kills(w: WorldView, t: TickInput)
    requires
        w.game.score + 100 * spec_tick(w, t).1.enemies_died <= u32::MAX,
    ensures
        spec_tick(w, t).0.game.score == w.game.score + 100 * spec_tick(w, t).1.enemies_died,
{
    lemma_tick_account(w, t);
}

/// One rocket, one enemy. Over a run, the enemies destroyed and the
/// rockets still in the world are together no more than the rockets fired
/// and the rockets that the run began with. In a run that begins without
/// rockets, no more enemies are destroyed than rockets are fired.
pub proof fn law_kills_bounded_by_rockets(w: WorldView, inputs: Seq<TickInput>)
    ensures
        total_kills(w, inputs) + run(w, inputs).rockets.len() <= total_shots(w, inputs)
            + w.rockets.len(),
        w.rockets.len() == 0 ==> total_kills(w, inputs) <= total_shots(w, inputs),
    decreases inputs.len(),
{
    if inputs.len() > 0 {
        law_kills_bounded_by_rockets(w, inputs.drop_last());
        lemma_tick_rockets(run(w, inputs.drop_last()), inputs.last());
    }
}

/// What one frame of a run does to the end of the game, in terms of the
/// worlds before and after it. While the end is pending, the screen
/// appears exactly in a frame whose time has reached the deadline; once it
/// has appeared, it does not appear again; and before the end is started,
/// it is started exactly in the frame in which the lives run out, with
/// that frame's time plus the delay as its deadline.
pub proof fn lemma_game_over_step(w: WorldView, inputs: Seq<TickInput>, k: int)
    requires
        0 <= k < inputs.len(),
    ensures
        ({
            let before = world_before(w, inputs, k).game;
            let after = world_before(w, inputs, k + 1).game;
            let screen = outcome_at(w, inputs, k).game_over_screen;
            let now = time_at(w, inputs, k);
            &&& after.game_over_delay == before.game_over_delay
            &&& before.game_over_delay == w.game.game_over_delay
            &&& after.lives <= before.lives
            &&& before.game_over_deadline matches Some(deadline) ==> if now >= deadline {
                screen is Some && after.game_over_deadline is None && after.game_over_shown
            } else {
                screen is None && after.game_over_deadline == Some(deadline)
                    && after.game_over_shown == before.game_over_shown
            }
            &&& before.game_over_deadline is None && before.game_over_shown ==> screen is None
                && after.game_over_deadline is None && after.game_over_shown
            &&& !before.spec_game_over_started() && after.lives > 0 ==> screen is None
                && !after.spec_game_over_started()
            &&& !before.spec_game_over_started() && before.lives > 0 && after.lives <= 0
                ==> if now >= before.spec_deadline(now) {
                screen is Some && after.game_over_deadline is None && after.game_over_shown
            } else {
                screen is None && !after.game_over_shown && after.game_over_deadline == Some(
                    before.spec_deadline(now),
                )
            }
        }),
{
    lemma_run_step(w, inputs, k);
    lemma_run_frame(w, inputs, k);
    lemma_tick_frame(world_before(w, inputs, k), inputs[k]);
    lemma_tick_game_over(world_before(w, inputs, k), inputs[k]);
    lemma_tick_account(world_before(w, inputs, k), inputs[k]);
}

/// While lives are left in a consistent run, the end of the game has not
/// been started and no game-over screen has appeared.
pub proof fn lemma_running_while_alive(w: WorldView, inputs: Seq<TickInput>, m: int, j: int)
    requires
        consistent(w),
        0 <= j < m <= inputs.len(),
        world_before(w, inputs, m).game.lives > 0,
    ensures
        !world_before(w, inputs, j).game.spec_game_over_started(),
        !world_before(w, inputs, j + 1).game.spec_game_over_started(),
        outcome_at(w, inputs, j).game_over_screen is None,
{
    lemma_run_frame(w, inputs, j);
    law_score_and_lives_monotone(w, inputs, j, j + 1);
    law_score_and_lives_monotone(w, inputs, j + 1, m);
    lemma_game_over_step(w, inputs, j);
}

/// Whether none of the frames from `fatal` up to, but not including, `m`
/// takes place at or after `deadline`.
pub open spec fn none_due(
    w: WorldView,
    inputs: Seq<TickInput>,
    fatal: int,
    deadline: int,
    m: int,
) -> bool {
    forall|i: int| fatal <= i < m ==> (#[trigger] time_at(w, inputs, i)) < deadline
}

/// Whether `j` is the first frame from `fatal` on that takes place at or
/// after `deadline`.
pub open spec fn first_due(
    w: WorldView,
    inputs: Seq<TickInput>,
    fatal: int,
    deadline: int,
    j: int,
) -> bool {
    &&& fatal <= j
    &&& time_at(w, inputs, j) >= deadline
    &&& none_due(w, inputs, fatal, deadline, j)
}

/// Whether frame `fatal` of the run is the one in which the lives run out.
pub open spec fn lives_run_out(w: WorldView, inputs: Seq<TickInput>, fatal: int) -> bool {
    &&& 0 <= fatal < inputs.len()
    &&& world_before(w, inputs, fatal).game.lives > 0
    &&& world_before(w, inputs, fatal + 1).game.lives <= 0
}

/// Whether the end of the game is in the state that the frames up to `m`
/// call for: pending with `deadline` as long as none of them has reached
/// it, shown from then on.
pub open spec fn on_schedule(
    w: WorldView,
    inputs: Seq<TickInput>,
    fatal: int,
    deadline: int,
    m: int,
) -> bool {
    if none_due(w, inputs, fatal, deadline, m) {
        world_before(w, inputs, m).game.game_over_deadline == Some(deadline as u64)
            && !world_before(w, inputs, m).game.game_over_shown
    } else {
        world_before(w, inputs, m).game.game_over_deadline is None && world_before(
            w,
            inputs,
            m,
        ).game.game_over_shown
    }
}

/// After the lives ran out in frame `fatal`, the end of the game is on
/// schedule before every later frame, and the screen appears in frame `j`
/// exactly if `j` is the first frame that reaches the deadline.
pub proof fn lemma_game_over_progress(
    w: WorldView,
    inputs: Seq<TickInput>,
    fatal: int,
    j: int,
)
    requires
        consistent(w),
        lives_run_out(w, inputs, fatal),
        fatal <= j < inputs.len(),
        time_at(w, inputs, fatal) + w.game.game_over_delay <= u64::MAX,
    ensures
        on_schedule(
            w,
            inputs,
            fatal,
            time_at(w, inputs, fatal) + w.game.game_over_delay,
            j + 1,
        ),
        outcome_at(w, inputs, j).game_over_screen is Some <==> first_due(
            w,
            inputs,
            fatal,
            time_at(w, inputs, fatal) + w.game.game_over_delay,
            j,
        ),
    decreases j,
{
    let deadline = time_at(w, inputs, fatal) + w.game.game_over_delay;
    lemma_game_over_step(w, inputs, j);
    if j == fatal {
        lemma_run_frame(w, inputs, fatal);
        assert(!world_before(w, inputs, fatal).game.spec_game_over_started());
        assert(none_due(w, inputs, fatal, deadline, fatal));
        assert(none_due(w, inputs, fatal, deadline, fatal + 1) <==> time_at(w, inputs, fatal)
            < deadline);
    } else {
        lemma_game_over_progress(w, inputs, fatal, j - 1);
        assert(none_due(w, inputs, fatal, deadline, j + 1) <==> (none_due(
            w,
            inputs,
            fatal,
            deadline,
            j,
        ) && time_at(w, inputs, j) < deadline));
    }
}

/// The ship goes with the last life. In a consistent run in which the lives
/// run out in frame `fatal`, there is no ship before any later frame.
pub proof fn law_ship_lost_with_last_life(w: WorldView, inputs: Seq<TickInput>, fatal: int, m: int)
    requires
        consistent(w),
        lives_run_out(w, inputs, fatal),
        fatal < m <= inputs.len(),
    ensures
        world_before(w, inputs, m).player is None,
    decreases m,
{
    lemma_run_step(w, inputs, m - 1);
    lemma_tick_player(world_before(w, inputs, m - 1), inputs[m - 1]);
    if m - 1 == fatal {
        lemma_run_frame(w, inputs, fatal);
        lemma_tick_account(world_before(w, inputs, fatal), inputs[fatal]);
        assert(lives_after_attacks(
            world_before(w, inputs, fatal).game.lives,
            outcome_at(w, inputs, fatal).attacks,
        ) <= 0);
    } else {
        law_ship_lost_with_last_life(w, inputs, fatal, m - 1);
    }
}

/// Game-over latency. In a consistent run in which the lives run out in
/// frame `fatal`, at time `t`, the game-over screen appears in the first
/// frame from `fatal` on whose time is at least `t` plus the delay, and in
/// no other frame: not earlier, not twice, and without fail once such a
/// frame comes. This holds as long as the clock can count to the deadline.
pub proof fn law_game_over_latency(w: WorldView, inputs: Seq<TickInput>, fatal: int, j: int)
    requires
        consistent(w),
        lives_run_out(w, inputs, fatal),
        0 <= j < inputs.len(),
        time_at(w, inputs, fatal) + w.game.game_over_delay <= u64::MAX,
    ensures
        outcome_at(w, inputs, j).game_over_screen is Some <==> first_due(
            w,
            inputs,
            fatal,
            time_at(w, inputs, fatal) + w.game.game_over_delay,
            j,
        ),
        outcome_at(w, inputs, j).game_over_screen is Some ==> time_at(w, inputs, j) >= time_at(
            w,
            inputs,
            fatal,
        ) + w.game.game_over_delay,
{
    if j < fatal {
        lemma_running_while_alive(w, inputs, fatal, j);
    } else {
        lemma_game_over_progress(w, inputs, fatal, j);
    }
}

/// At most once. In a consistent run in which the lives run out, the
/// game-over screen appears in at most one frame.
pub proof fn law_game_over_once(
    w: WorldView,
    inputs: Seq<TickInput>,
    fatal: int,
    i: int,
    j: int,
)
    requires
        consistent(w),
        lives_run_out(w, inputs, fatal),
        0 <= i < inputs.len(),
        0 <= j < inputs.len(),
        time_at(w, inputs, fatal) + w.game.game_over_delay <= u64::MAX,
        outcome_at(w, inputs, i).game_over_screen is Some,
        outcome_at(w, inputs, j).game_over_screen is Some,
    ensures
        i == j,
{
    law_game_over_latency(w, inputs, fatal, i);
    law_game_over_latency(w, inputs, fatal, j);
    let deadline = time_at(w, inputs, fatal) + w.game.game_over_delay;
    if i < j {
        assert(time_at(w, inputs, i) < deadline);
    }
    if j < i {
        assert(time_at(w, inputs, j) < deadline);
    }
}

/// Determinism. What can be observed of a run depends on nothing but the
/// world it starts in and the inputs of its frames: two runs that agree in
/// both agree, frame by frame, in score, lives, number of rockets and
/// number of enemies, and in every report.
pub proof fn law_determinism(
    a: WorldView,
    b: WorldView,
    inputs_a: Seq<TickInput>,
    inputs_b: Seq<TickInput>,
    k: int,
)
    requires
        a == b,
        inputs_a =~= inputs_b,
        0 <= k < inputs_a.len(),
    ensures
        observation(world_before(a, inputs_a, k)) == observation(world_before(b, inputs_b, k)),
        observation(world_before(a, inputs_a, k + 1)) == observation(
            world_before(b, inputs_b, k + 1),
        ),
        outcome_at(a, inputs_a, k) == outcome_at(b, inputs_b, k),
{
}

} // verus!
