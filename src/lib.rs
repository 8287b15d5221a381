//! Simulation core of a side-scrolling flying game: a flyer under gravity
//! and flap impulses, a scrolling field of paired obstacles, and the
//! collision rules that reset the whole field when the flyer dies.
//!
//! All quantities are integers. Lengths are in micro-units (one millionth
//! of a world unit), times in milliseconds, velocities in micro-units per
//! millisecond (which equals milli-units per second) and rotations in
//! millidegrees.

pub mod config;
pub mod flyer;
pub mod obstacles;
pub mod game;
pub mod random;
pub mod laws;
pub mod window;
