//! Rules of a small arcade space shooter, kept apart from the engine that
//! draws and schedules them: sprite rotation, spawning, movement, collisions,
//! hit points, timers and the game's state machine.

pub mod collision;
pub mod geometry;
pub mod image;
pub mod loader;
pub mod movement;
pub mod schedule;
pub mod spawn;
pub mod state;
pub mod timer;
pub mod world;
