use alien_attack::enemy::{Enemy, EnemySignal, ENEMY_SPEED};
use alien_attack::enemy_spawner::EnemySpawner;
use alien_attack::entity::Entity;
use alien_attack::host::Sound;
use alien_attack::input::{InputDirections, InputSnapshot};
use alien_attack::player::{
    Player, Shot, PLAYER_SPEED, ROCKET_OFFSET_X, SPRITE_OFFSET_X, SPRITE_OFFSET_Y,
    TIME_BETWEEN_SHOTS_US,
};
use alien_attack::rocket::{Rocket, ROCKET_SPEED};
use alien_attack::vector::Vector2;

fn viewport() -> Vector2 {
    Vector2::from_pixels(1920, 1080)
}

fn holding(right: bool, left: bool, up: bool, down: bool) -> InputSnapshot {
    InputSnapshot::new(InputDirections::new(right, left, up, down), false, false)
}

fn shooting() -> InputSnapshot {
    InputSnapshot::new(InputDirections::none(), true, false)
}

#[test]
fn input_directions_keep_their_order() {
    let d = InputDirections::new(true, false, true, false);
    assert!(d.right);
    assert!(!d.left);
    assert!(d.up);
    assert!(!d.down);
    assert!(d.any());
    assert!(!InputDirections::none().any());
}

#[test]
fn idle_snapshot_presses_nothing() {
    let s = InputSnapshot::idle();
    assert!(!s.directions.any());
    assert!(!s.shoot);
    assert!(!s.fullscreen_toggle);
}

#[test]
fn player_defaults() {
    let p = Player::new(Vector2::from_pixels(200, 540));
    assert_eq!(p.position, Vector2::new(200_000, 540_000));
    assert_eq!(p.velocity, Vector2::new(0, 0));
    assert_eq!(p.speed, 600_000);
    assert_eq!(p.speed, PLAYER_SPEED);
    assert_eq!(p.time_between_shots_us, 150_000);
    assert_eq!(p.time_between_shots_us, TIME_BETWEEN_SHOTS_US);
    assert_eq!(p.next_shot_time, 0);
    assert_eq!(p.sprite_offset, Vector2::new(36_000, 54_000));
    assert_eq!(p.sprite_offset, Vector2::new(SPRITE_OFFSET_X, SPRITE_OFFSET_Y));
    assert!(!p.removed);
    assert_eq!(ROCKET_OFFSET_X, 70_000);
}

#[test]
fn default_cooldown_is_exactly_150_ms() {
    let p = Player::new(Vector2::new(0, 0));
    assert_eq!(p.cooldown_ms(), 150);
}

#[test]
fn cooldown_is_rounded_down_to_whole_milliseconds() {
    let mut p = Player::new(Vector2::new(0, 0));
    p.time_between_shots_us = 150_999;
    assert_eq!(p.cooldown_ms(), 150);
    p.time_between_shots_us = 999;
    assert_eq!(p.cooldown_ms(), 0);
}

#[test]
fn velocity_rule_for_every_combination() {
    let p = Player::new(Vector2::new(0, 0));
    let s: i64 = 600_000;
    for bits in 0..16u32 {
        let right = bits & 1 != 0;
        let left = bits & 2 != 0;
        let up = bits & 4 != 0;
        let down = bits & 8 != 0;
        let x = if right && !left { s } else if left && !right { -s } else { 0 };
        let y = if up && !down { -s } else if down && !up { s } else { 0 };
        let v = p.velocity_for(&InputDirections::new(right, left, up, down));
        assert_eq!(v, Vector2::new(x, y));
    }
}

#[test]
fn diagonal_speed() {
    let mut p = Player::new(Vector2::from_pixels(200, 540));
    p.update_motion(&holding(true, false, false, true), 16_667, viewport());
    assert_eq!(p.position, Vector2::from_pixels(210, 550));
    assert_eq!(p.velocity, Vector2::new(600_000, 600_000));
}

#[test]
fn velocity_snaps_to_zero_without_input() {
    let mut p = Player::new(Vector2::from_pixels(200, 540));
    p.move_player(&InputDirections::new(true, false, false, false), 16_667);
    assert_eq!(p.velocity, Vector2::new(600_000, 0));
    p.move_player(&InputDirections::none(), 16_667);
    assert_eq!(p.velocity, Vector2::new(0, 0));
    assert_eq!(p.position, Vector2::new(210_000, 540_000));
}

#[test]
fn opposite_directions_cancel() {
    let mut p = Player::new(Vector2::from_pixels(200, 540));
    p.update_motion(&holding(true, true, true, true), 16_667, viewport());
    assert_eq!(p.position, Vector2::from_pixels(200, 540));
    assert_eq!(p.velocity, Vector2::new(0, 0));
}

#[test]
fn player_is_stopped_by_each_wall() {
    let mut p = Player::new(Vector2::from_pixels(200, 540));
    for _ in 0..600 {
        p.update_motion(&holding(false, true, true, false), 16_667, viewport());
    }
    assert_eq!(p.position, Vector2::from_pixels(36, 54));
    for _ in 0..600 {
        p.update_motion(&holding(true, false, false, true), 16_667, viewport());
    }
    assert_eq!(p.position, Vector2::from_pixels(1920 - 36, 1080 - 54));
}

#[test]
fn player_stays_clamped_for_any_input_sequence() {
    let mut p = Player::new(Vector2::from_pixels(960, 540));
    let min = Vector2::from_pixels(36, 54);
    let max = Vector2::from_pixels(1884, 1026);
    let mut seed: u32 = 12345;
    for _ in 0..5000 {
        seed = seed.wrapping_mul(1_103_515_245).wrapping_add(12_345);
        let bits = seed >> 16;
        let input = holding(bits & 1 != 0, bits & 2 != 0, bits & 4 != 0, bits & 8 != 0);
        p.update_motion(&input, 100_000, viewport());
        assert!(p.position.within(min, max));
    }
}

#[test]
fn player_outside_is_pushed_back_in() {
    let mut p = Player::new(Vector2::from_pixels(-500, 5000));
    p.prevent_out_of_bounds(viewport());
    assert_eq!(p.position, Vector2::from_pixels(36, 1026));
}

#[test]
fn viewport_without_room_puts_the_ship_at_the_upper_limit() {
    let mut p = Player::new(Vector2::from_pixels(20, 20));
    p.prevent_out_of_bounds(Vector2::from_pixels(50, 50));
    assert_eq!(p.position, Vector2::from_pixels(14, -4));
}

#[test]
fn rocket_leaves_seventy_pixels_in_front_of_the_ship() {
    let p = Player::new(Vector2::from_pixels(200, 540));
    let shot = p.shoot();
    assert_eq!(shot.rocket.position, Vector2::from_pixels(270, 540));
    assert_eq!(shot.rocket.speed, 1_000_000);
    assert!(!shot.rocket.removed);
    assert_eq!(shot.sound, Sound::PlayerShoot);
}

#[test]
fn first_shot_leaves_at_once_and_starts_the_cooldown() {
    let mut p = Player::new(Vector2::from_pixels(200, 540));
    let shot = p.maybe_shoot(&shooting(), 0);
    assert_eq!(
        shot,
        Some(Shot {
            rocket: Rocket::new(Vector2::from_pixels(270, 540)),
            sound: Sound::PlayerShoot,
        })
    );
    assert_eq!(p.next_shot_time, 150);
}

#[test]
fn no_shot_without_the_action() {
    let mut p = Player::new(Vector2::from_pixels(200, 540));
    assert_eq!(p.maybe_shoot(&InputSnapshot::idle(), 1000), None);
    assert_eq!(p.next_shot_time, 0);
}

#[test]
fn shots_are_at_least_a_cooldown_apart() {
    let mut p = Player::new(Vector2::from_pixels(200, 540));
    let mut last: Option<u64> = None;
    let mut shots = 0;
    for now in 0..2000u64 {
        if p.maybe_shoot(&shooting(), now).is_some() {
            if let Some(before) = last {
                assert!(now - before >= 150);
                assert_eq!(now - before, 150);
            }
            last = Some(now);
            shots += 1;
        }
    }
    assert_eq!(shots, 14);
}

#[test]
fn gate_opens_on_the_first_permitted_millisecond() {
    let mut p = Player::new(Vector2::from_pixels(200, 540));
    assert!(p.maybe_shoot(&shooting(), 1000).is_some());
    assert_eq!(p.next_shot_time, 1150);
    assert!(p.maybe_shoot(&shooting(), 1149).is_none());
    assert!(p.maybe_shoot(&shooting(), 1150).is_some());
    assert_eq!(p.next_shot_time, 1300);
}

#[test]
fn releasing_and_pressing_again_does_not_bypass_the_gate() {
    let mut p = Player::new(Vector2::from_pixels(200, 540));
    assert!(p.maybe_shoot(&shooting(), 0).is_some());
    assert!(p.maybe_shoot(&InputSnapshot::idle(), 50).is_none());
    assert!(p.maybe_shoot(&shooting(), 100).is_none());
    assert_eq!(p.next_shot_time, 150);
    assert!(p.maybe_shoot(&shooting(), 150).is_some());
}

#[test]
fn cooldown_at_the_end_of_time_saturates() {
    let mut p = Player::new(Vector2::from_pixels(200, 540));
    assert!(p.maybe_shoot(&shooting(), u64::MAX - 10).is_some());
    assert_eq!(p.next_shot_time, u64::MAX);
}

#[test]
fn player_die_marks_the_ship() {
    let mut p = Player::new(Vector2::from_pixels(200, 540));
    p.die();
    assert!(p.removed);
    assert_eq!(p.position, Vector2::from_pixels(200, 540));
}

#[test]
fn rocket_defaults_and_velocity() {
    let r = Rocket::new(Vector2::from_pixels(270, 540));
    assert_eq!(r.speed, ROCKET_SPEED);
    assert_eq!(ROCKET_SPEED, 1_000_000);
    assert_eq!(r.velocity(), Vector2::new(1_000_000, 0));
    assert!(!r.removed);
}

#[test]
fn rocket_steps_to_the_right() {
    let mut r = Rocket::new(Vector2::from_pixels(270, 540));
    r.step(16_667);
    assert_eq!(r.position, Vector2::new(286_667, 540_000));
    r.step(1_000_000);
    assert_eq!(r.position, Vector2::new(1_286_667, 540_000));
    assert_eq!(r.speed, 1_000_000);
}

#[test]
fn rocket_screen_exit_marks_it() {
    let mut r = Rocket::new(Vector2::from_pixels(2000, 540));
    assert!(r.off_screen(viewport()));
    r.on_screen_exited();
    assert!(r.removed);
    assert!(!r.off_screen(viewport()));
}

#[test]
fn rocket_on_the_right_edge_is_still_on_screen() {
    let r = Rocket::new(Vector2::from_pixels(1920, 540));
    assert!(!r.off_screen(viewport()));
    let r = Rocket::new(Vector2::new(1_920_001, 540_000));
    assert!(r.off_screen(viewport()));
}

#[test]
fn rocket_strike_removes_both_and_reports_the_death() {
    let mut r = Rocket::new(Vector2::from_pixels(500, 540));
    let mut e = Enemy::new(Vector2::from_pixels(520, 540));
    assert!(r.reaches(&e, 40_000));
    assert_eq!(r.strike(&mut e), Some(EnemySignal::Died));
    assert!(r.removed);
    assert!(e.removed);
}

#[test]
fn spent_rocket_kills_nothing_more() {
    let mut r = Rocket::new(Vector2::from_pixels(500, 540));
    let mut first = Enemy::new(Vector2::from_pixels(520, 540));
    let mut second = Enemy::new(Vector2::from_pixels(510, 540));
    assert_eq!(r.strike(&mut first), Some(EnemySignal::Died));
    assert!(!r.reaches(&second, 40_000));
    assert_eq!(r.strike(&mut second), None);
    assert!(!second.removed);
}

#[test]
fn removed_enemy_cannot_be_struck_again() {
    let mut e = Enemy::new(Vector2::from_pixels(520, 540));
    e.free();
    let mut r = Rocket::new(Vector2::from_pixels(500, 540));
    assert!(!r.reaches(&e, 40_000));
    assert_eq!(r.strike(&mut e), None);
    assert!(!r.removed);
}

#[test]
fn rocket_overlap_with_an_enemy_entity() {
    let mut r = Rocket::new(Vector2::from_pixels(500, 540));
    let mut entity = Entity::Enemy(Enemy::new(Vector2::from_pixels(520, 540)));
    assert_eq!(r.on_area_entered(&mut entity), Some(EnemySignal::Died));
    assert!(r.removed);
    match entity {
        Entity::Enemy(e) => assert!(e.removed),
        _ => panic!("the entity changed its kind"),
    }
}

#[test]
fn rocket_ignores_everything_but_enemies() {
    let mut r = Rocket::new(Vector2::from_pixels(500, 540));
    let player = Player::new(Vector2::from_pixels(500, 540));
    let mut entity = Entity::Player(player);
    assert_eq!(r.on_area_entered(&mut entity), None);
    assert!(!r.removed);
    assert_eq!(entity, Entity::Player(player));
    let other = Rocket::new(Vector2::from_pixels(500, 540));
    let mut entity = Entity::Rocket(other);
    assert_eq!(r.on_area_entered(&mut entity), None);
    assert!(!r.removed);
    assert_eq!(entity, Entity::Rocket(other));
}

#[test]
fn enemy_defaults_and_velocity() {
    let e = Enemy::new(Vector2::from_pixels(1900, 540));
    assert_eq!(e.speed, ENEMY_SPEED);
    assert_eq!(ENEMY_SPEED, 700_000);
    assert_eq!(e.velocity(), Vector2::new(-700_000, 0));
    assert!(!e.removed);
}

#[test]
fn enemy_steps_to_the_left() {
    let mut e = Enemy::new(Vector2::from_pixels(1900, 540));
    e.step(16_667);
    assert_eq!(e.position, Vector2::new(1_888_334, 540_000));
    e.step(1_000_000);
    assert_eq!(e.position, Vector2::new(1_188_334, 540_000));
}

#[test]
fn enemy_die_reports_and_free_is_silent() {
    let mut e = Enemy::new(Vector2::from_pixels(1900, 540));
    assert_eq!(e.die(), EnemySignal::Died);
    assert!(e.removed);
    let mut e = Enemy::new(Vector2::from_pixels(1900, 540));
    e.free();
    assert!(e.removed);
    assert_eq!(e.position, Vector2::from_pixels(1900, 540));
}

#[test]
fn enemy_running_into_the_ship_attacks() {
    let mut e = Enemy::new(Vector2::from_pixels(200, 540));
    let body = Entity::Player(Player::new(Vector2::from_pixels(200, 540)));
    assert_eq!(e.on_body_entered(&body), Some(EnemySignal::Attack));
    assert!(e.removed);
    assert_eq!(e.on_body_entered(&body), None);
}

#[test]
fn enemy_ignores_other_bodies() {
    let mut e = Enemy::new(Vector2::from_pixels(200, 540));
    let body = Entity::Rocket(Rocket::new(Vector2::from_pixels(200, 540)));
    assert_eq!(e.on_body_entered(&body), None);
    assert!(!e.removed);
    let body = Entity::Enemy(Enemy::new(Vector2::from_pixels(200, 540)));
    assert_eq!(e.on_body_entered(&body), None);
    assert!(!e.removed);
}

#[test]
fn enemy_touches_and_deathzone_tests() {
    let mut e = Enemy::new(Vector2::from_pixels(-100, 540));
    assert!(e.in_deathzone(-100_000));
    assert!(!e.in_deathzone(-100_001));
    assert!(e.touches(Vector2::from_pixels(-60, 500), 40_000));
    assert!(!e.touches(Vector2::from_pixels(-59, 500), 40_000));
    e.free();
    assert!(!e.in_deathzone(-100_000));
    assert!(!e.touches(Vector2::from_pixels(-100, 540), 40_000));
}

#[test]
fn spawner_without_points_emits_nothing() {
    let s = EnemySpawner::new(Vec::new());
    assert!(s.enabled);
    assert_eq!(s.get_random_spawn(0), None);
    assert_eq!(s.get_random_spawn(u64::MAX), None);
    assert_eq!(s.on_timer_timeout(7), None);
}

#[test]
fn spawner_picks_by_the_draw() {
    let points = vec![
        Vector2::from_pixels(1900, 100),
        Vector2::from_pixels(1900, 540),
        Vector2::from_pixels(1900, 900),
    ];
    let s = EnemySpawner::new(points.clone());
    assert_eq!(s.get_random_spawn(0), Some(points[0]));
    assert_eq!(s.get_random_spawn(1), Some(points[1]));
    assert_eq!(s.get_random_spawn(2), Some(points[2]));
    assert_eq!(s.get_random_spawn(3), Some(points[0]));
    assert_eq!(s.get_random_spawn(u64::MAX), Some(points[(u64::MAX % 3) as usize]));
    assert_eq!(s.on_timer_timeout(4), Some(Enemy::new(points[1])));
}

#[test]
fn spawner_draws_cover_every_point_equally() {
    let points = vec![
        Vector2::from_pixels(1900, 100),
        Vector2::from_pixels(1900, 540),
        Vector2::from_pixels(1900, 900),
    ];
    let s = EnemySpawner::new(points.clone());
    let mut counts = [0usize; 3];
    for draw in 0..300u64 {
        let at = s.get_random_spawn(draw).unwrap();
        let index = points.iter().position(|p| *p == at).unwrap();
        counts[index] += 1;
    }
    assert_eq!(counts, [100, 100, 100]);
}

#[test]
fn spawner_creates_enemies_with_defaults() {
    let s = EnemySpawner::new(Vec::new());
    let e = s.spawn_enemy(Vector2::from_pixels(1900, 540));
    assert_eq!(e, Enemy::new(Vector2::from_pixels(1900, 540)));
    assert_eq!(e.speed, 700_000);
}

#[test]
fn spawner_disabled() {
    let mut s = EnemySpawner::new(vec![Vector2::from_pixels(1900, 540)]);
    s.set_enabled(false);
    let mut emitted = 0;
    for draw in 0..100u64 {
        if s.on_timer_timeout(draw).is_some() {
            emitted += 1;
        }
        assert_eq!(s.get_random_spawn(draw), Some(Vector2::from_pixels(1900, 540)));
    }
    assert_eq!(emitted, 0);
    s.set_enabled(true);
    assert_eq!(s.on_timer_timeout(100), Some(Enemy::new(Vector2::from_pixels(1900, 540))));
}
