//! A small game scene with a debug overlay and a tile grid, over an
//! explicit entity arena.
//!
//! The overlay collects the circles and rectangles that entities carry into
//! one snapshot per frame and lays it out in the two buffers that the
//! overlay shader reads. The tile grid spawns one entity per staged tile and
//! highlights the tile that the player stands on.
//!
//! Every length in this crate is a whole number of thousandths of a world
//! unit, so that positions, sizes and tolerances are exact integers.

pub mod math;
pub mod color;
pub mod time;
pub mod world;
pub mod camera_controller;
pub mod cursor;
pub mod player;
pub mod debug;
pub mod tilemap;
pub mod frame;
