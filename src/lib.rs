//! Simulation core of a small 2D arcade shooter, in fixed-point integer
//! arithmetic (thousandths of a pixel, nanoseconds):
//!
//! - `geometry`: vectors, rotations and the box overlap tests;
//! - `movement`: the integrator, with its speed limit;
//! - `timer`: one-shot and repeating timers, and lifetimes;
//! - `entity`: entities, spawners and the game's constants;
//! - `spawn`: bullets, enemies and mirrors, and the phases that make them;
//! - `collision`: matching bullets with the targets they hit;
//! - `world`: the entity registry and the tick that advances it;
//! - `laws`: properties that hold across the phases of a tick.

pub mod collision;
pub mod entity;
pub mod geometry;
pub mod laws;
pub mod movement;
pub mod spawn;
mod random;
pub mod timer;
pub mod world;
