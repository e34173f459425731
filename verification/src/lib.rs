//! Simulation core for a 2D side-scrolling platformer.
//!
//! The crate models the per-tick update loop of the game: gravity
//! integration, kinematic movement, terrain behaviour state machines
//! (falling, bouncy, damage and one-way tiles), the enemy AI controller,
//! the player's health/invincibility/double-jump state, and the closed-form
//! ballistic solver for arcing projectiles.
//!
//! All quantities are integers: positions and velocities are kept in
//! thousandths of a world unit ("milliunits"), durations in milliseconds.
//! The surrounding engine (collision detection, rendering, input devices)
//! supplies plain values each tick and carries the computed intents back.

pub mod ballistics;
pub mod enemies;
pub mod events;
pub mod game_state;
pub mod level;
pub mod math;
pub mod physics;
pub mod player;
pub mod simulation;
pub mod tile_systems;
pub mod tiles;
pub mod timer;
