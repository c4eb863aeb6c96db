//! Simulation core of a small side-scrolling shooter.
//!
//! The player's ship moves inside the viewport and fires rockets to the right;
//! enemies enter from spawn points and travel to the left. A rocket destroys
//! the first enemy it overlaps, an enemy that reaches the ship costs a life,
//! and once the lives are used up a game-over screen follows after a fixed
//! delay. The core is independent of any host: a host reads input and time,
//! hands them to [`world::World::tick`], and acts on the report it gets back.
//!
//! All quantities are integers. Coordinates count thousandths of a pixel,
//! speeds thousandths of a pixel per second, frame deltas microseconds and
//! the clock milliseconds.

pub mod clock;
pub mod enemy;
pub mod enemy_spawner;
pub mod entity;
pub mod frame;
pub mod game;
pub mod game_over_screen;
pub mod host;
pub mod hud;
pub mod input;
pub mod laws;
pub mod overlap;
pub mod player;
pub mod rocket;
pub mod vector;
pub mod world;
