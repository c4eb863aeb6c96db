use alien_attack::enemy::Enemy;
use alien_attack::entity::Entity;
use alien_attack::game::{Game, GAME_OVER_DELAY_MS, KILL_SCORE, START_LIVES};
use alien_attack::game_over_screen::GameOverScreen;
use alien_attack::host::{Sound, WindowMode};
use alien_attack::hud::Hud;
use alien_attack::player::Player;
use alien_attack::rocket::Rocket;
use alien_attack::vector::Vector2;

fn ship() -> Player {
    Player::new(Vector2::from_pixels(200, 540))
}

#[test]
fn game_defaults() {
    let g = Game::new();
    assert_eq!(g.score, 0);
    assert_eq!(g.lives, 3);
    assert_eq!(g.game_over_delay, 1200);
    assert_eq!(g.game_over_deadline, None);
    assert!(!g.game_over_shown);
    assert_eq!(g.hud, Hud::new(0, 3));
    assert_eq!(START_LIVES, 3);
    assert_eq!(GAME_OVER_DELAY_MS, 1200);
    assert_eq!(KILL_SCORE, 100);
    assert!(!g.game_over_started());
}

#[test]
fn game_with_other_settings() {
    let g = Game::with(5, 0);
    assert_eq!(g.lives, 5);
    assert_eq!(g.game_over_delay, 0);
    assert_eq!(g.score, 0);
    assert_eq!(g.hud, Hud::new(0, 5));
}

#[test]
fn each_kill_scores_exactly_a_hundred() {
    let mut g = Game::new();
    for kills in 1..=50u32 {
        assert_eq!(g.on_enemy_died(), Sound::EnemyHit);
        assert_eq!(g.score, 100 * kills);
        assert_eq!(g.hud.score, 100 * kills);
        assert_eq!(g.lives, 3);
        assert_eq!(g.hud.lives, 3);
    }
}

#[test]
fn score_stops_at_the_top_of_its_range() {
    let mut g = Game::new();
    g.score = u32::MAX - 50;
    g.on_enemy_died();
    assert_eq!(g.score, u32::MAX);
    g.on_enemy_died();
    assert_eq!(g.score, u32::MAX);
    let mut g = Game::new();
    g.score = u32::MAX - 100;
    g.on_enemy_died();
    assert_eq!(g.score, u32::MAX);
}

#[test]
fn attack_costs_one_life() {
    let mut g = Game::new();
    let mut p = ship();
    assert_eq!(g.on_enemy_attack(&mut p, 1000), Sound::PlayerDamage);
    assert_eq!(g.lives, 2);
    assert_eq!(g.hud.lives, 2);
    assert_eq!(g.score, 0);
    assert_eq!(g.game_over_deadline, None);
    assert!(!p.removed);
}

#[test]
fn last_life_starts_the_end_of_the_game() {
    let mut g = Game::new();
    let mut p = ship();
    g.on_enemy_attack(&mut p, 1000);
    g.on_enemy_attack(&mut p, 2000);
    assert_eq!(g.lives, 1);
    assert!(!g.game_over_started());
    g.on_enemy_attack(&mut p, 3000);
    assert_eq!(g.lives, 0);
    assert_eq!(g.game_over_deadline, Some(4200));
    assert!(g.game_over_started());
    assert!(p.removed);
}

#[test]
fn attack_during_the_delay_costs_a_life_but_keeps_the_deadline() {
    let mut g = Game::with(1, 1200);
    let mut p = ship();
    g.on_enemy_attack(&mut p, 3000);
    assert_eq!(g.lives, 0);
    assert_eq!(g.game_over_deadline, Some(4200));
    assert_eq!(g.on_enemy_attack(&mut p, 3500), Sound::PlayerDamage);
    assert_eq!(g.lives, -1);
    assert_eq!(g.hud.lives, -1);
    assert_eq!(g.game_over_deadline, Some(4200));
}

#[test]
fn lives_stop_at_the_bottom_of_their_range() {
    let mut g = Game::with(i8::MIN + 1, 1200);
    let mut p = ship();
    g.on_enemy_attack(&mut p, 0);
    assert_eq!(g.lives, i8::MIN);
    g.on_enemy_attack(&mut p, 0);
    assert_eq!(g.lives, i8::MIN);
}

#[test]
fn game_over_is_idempotent() {
    let mut g = Game::new();
    let mut p = ship();
    g.game_over(&mut p, 3000);
    assert_eq!(g.game_over_deadline, Some(4200));
    assert!(p.removed);
    let mut other = ship();
    g.game_over(&mut other, 3900);
    assert_eq!(g.game_over_deadline, Some(4200));
    assert!(!other.removed);
}

#[test]
fn game_over_is_not_started_again_after_the_screen() {
    let mut g = Game::with(1, 1200);
    let mut p = ship();
    g.on_enemy_attack(&mut p, 0);
    assert!(g.process(1200).is_some());
    let mut other = ship();
    g.on_enemy_attack(&mut other, 5000);
    assert_eq!(g.lives, -1);
    assert_eq!(g.game_over_deadline, None);
    assert!(g.game_over_shown);
    assert!(!other.removed);
    assert_eq!(g.process(10_000), None);
}

#[test]
fn game_over_timer_at_the_end_of_time_saturates() {
    let mut g = Game::new();
    g.start_game_over_timer(u64::MAX - 5);
    assert_eq!(g.game_over_deadline, Some(u64::MAX));
}

#[test]
fn screen_appears_at_the_deadline_and_only_once() {
    let mut g = Game::with(1, 1200);
    let mut p = ship();
    g.on_enemy_died();
    g.on_enemy_died();
    g.on_enemy_attack(&mut p, 3000);
    assert_eq!(g.process(3000), None);
    assert_eq!(g.process(4199), None);
    assert_eq!(g.game_over_deadline, Some(4200));
    assert_eq!(g.process(4200), Some(GameOverScreen::new(200)));
    assert_eq!(g.game_over_deadline, None);
    assert!(g.game_over_shown);
    assert_eq!(g.process(4201), None);
    assert_eq!(g.process(u64::MAX), None);
}

#[test]
fn screen_shows_the_score_of_the_moment_it_appears() {
    let mut g = Game::with(1, 1200);
    let mut p = ship();
    g.on_enemy_attack(&mut p, 0);
    g.on_enemy_died();
    assert_eq!(g.process(5000), Some(GameOverScreen::new(100)));
    assert_eq!(g.display_game_over_screen(), GameOverScreen::new(100));
}

#[test]
fn no_screen_while_the_game_runs() {
    let mut g = Game::new();
    assert_eq!(g.process(0), None);
    assert_eq!(g.process(u64::MAX), None);
    assert!(!g.game_over_shown);
}

#[test]
fn deathzone_frees_enemies_only() {
    let g = Game::new();
    let mut entity = Entity::Enemy(Enemy::new(Vector2::from_pixels(-100, 540)));
    g.on_deathzone_entered(&mut entity);
    match entity {
        Entity::Enemy(e) => {
            assert!(e.removed);
            assert_eq!(e.position, Vector2::from_pixels(-100, 540));
        }
        _ => panic!("the entity changed its kind"),
    }
    let rocket = Rocket::new(Vector2::from_pixels(-100, 540));
    let mut entity = Entity::Rocket(rocket);
    g.on_deathzone_entered(&mut entity);
    assert_eq!(entity, Entity::Rocket(rocket));
    let mut entity = Entity::Player(ship());
    g.on_deathzone_entered(&mut entity);
    assert_eq!(entity, Entity::Player(ship()));
    assert_eq!(g, Game::new());
}

#[test]
fn hud_setters_are_idempotent() {
    let mut hud = Hud::new(0, 3);
    hud.set_score_label(100);
    let once = hud;
    hud.set_score_label(100);
    assert_eq!(hud, once);
    hud.set_lives_label(2);
    let once = hud;
    hud.set_lives_label(2);
    assert_eq!(hud, once);
    assert_eq!(hud, Hud::new(100, 2));
}

#[test]
fn hud_setting_the_current_value_changes_nothing() {
    let mut hud = Hud::new(700, -1);
    hud.set_score_label(700);
    hud.set_lives_label(-1);
    assert_eq!(hud, Hud::new(700, -1));
}

#[test]
fn hud_setters_touch_only_their_own_value() {
    let mut hud = Hud::new(0, 3);
    hud.set_score_label(u32::MAX);
    assert_eq!(hud.lives, 3);
    hud.set_lives_label(i8::MIN);
    assert_eq!(hud.score, u32::MAX);
}

#[test]
fn game_over_screen_shows_the_score() {
    let mut s = GameOverScreen::new(0);
    assert!(!s.retry_requested);
    s.set_score(1300);
    assert_eq!(s.score, 1300);
    assert!(!s.retry_requested);
}

#[test]
fn game_over_screen_retry() {
    let mut s = GameOverScreen::new(500);
    s.on_retry_button_pressed();
    assert!(s.retry_requested);
    assert_eq!(s.score, 500);
    s.on_retry_button_pressed();
    assert!(s.retry_requested);
}

#[test]
fn fullscreen_toggle_of_every_mode() {
    assert_eq!(WindowMode::Fullscreen.toggled(), WindowMode::Windowed);
    assert_eq!(WindowMode::Windowed.toggled(), WindowMode::Fullscreen);
    assert_eq!(WindowMode::Minimized.toggled(), WindowMode::Fullscreen);
    assert_eq!(WindowMode::Maximized.toggled(), WindowMode::Fullscreen);
    assert_eq!(WindowMode::ExclusiveFullscreen.toggled(), WindowMode::Fullscreen);
}
