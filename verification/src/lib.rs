//! Core simulation logic for a two-player artillery game: two gorillas atop a
//! procedurally generated cityscape take turns throwing a projectile along a
//! ballistic trajectory under gravity and wind; a hit on the opposing gorilla
//! wins the round, and buildings crumble brick by brick.
//!
//! All geometry uses fixed-point arithmetic: lengths are held in milli-pixels
//! (one pixel = 1000 units), so every position, velocity and opacity value is
//! an exact integer and the physics step is deterministic.

pub mod arena;
pub mod arrow;
pub mod banana;
pub mod collision;
pub mod constants;
pub mod game;
pub mod physics;
pub mod players;
pub mod rng;
pub mod trig;
pub mod wind;
