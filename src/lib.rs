//! Simulation core of a hue-matching arcade avoidance game.
//!
//! All quantities are fixed-point integers: lengths in subpixels
//! (`SUBPIXELS_PER_PIXEL` to a pixel), time in ticks (`TICKS_PER_SECOND`
//! to a second), signal loss in `SIGNAL_ONE`ths, hue in millidegrees.
pub mod cluster;
pub mod config;
pub mod game;
pub mod geometry;
pub mod goal;
pub mod hazard;
pub mod hue;
pub mod input;
pub mod lane;
pub mod particle;
pub mod pool;
pub mod random;
pub mod render;
