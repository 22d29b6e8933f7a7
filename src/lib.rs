//! Visibility core of a grid raycaster: the tile map read from text, the
//! animated state of its doors and panes, the shapes that doors open with,
//! what a ray meets in each tile, and the weapon and frame-rate timers.
//!
//! Fractions of a tile and openings are counted in millionths (`door::FULL`
//! is a whole tile, or a fully open door) and times in microseconds, so
//! every rule here is exact integer arithmetic. The floating-point geometry
//! of rays is left to the program around the library.

pub mod actions;
pub mod coord;
pub mod crossing;
pub mod debug;
pub mod door;
pub mod index;
pub mod input;
pub mod map;
pub mod shoot;
