//! Core simulation of a lane-based tower-defense battle.
//!
//! The library models the battle in exact integer arithmetic: screen
//! positions are carried in milli-pixels (1/1000 of a pixel) and all timers
//! in milliseconds, so every rule of the simulation can be stated and proved
//! precisely. Rendering, input polling and the window loop live outside the
//! library; they feed pointer positions and elapsed time in and read entity
//! state back out.

pub mod config;
pub mod game;
pub mod grid;
pub mod plant;
pub mod plant_bar;
pub mod plant_factory;
pub mod projectile;
pub mod projectile_factory;
pub mod rng;
pub mod sun;
pub mod zombie;
pub mod zombie_factory;
