//! Per-frame simulation core of a small top-down movement demo.
//!
//! The core converts raw directional input into character displacement,
//! drives a direction-aware sprite-cycling animation, and keeps a viewport
//! centered on the moving character with sub-pixel stability.  Rendering,
//! asset loading, collision response and tile-map parsing are external
//! collaborators and live outside this crate.
//!
//! Positions are held in micro-units (millionths of a world unit), speeds in
//! milli-units per second, and time in whole milliseconds, so that every
//! frame's displacement `speed * elapsed_time` is an exact integer number of
//! micro-units.

pub mod animation;
pub mod camera;
pub mod direction;
pub mod frame;
pub mod input;
pub mod player;
