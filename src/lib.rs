//! The physics core of a 2D platformer: axis-aligned collision detection and
//! resolution, closed-form motion integration, oscillating platforms, the
//! jump and respawn rules of a frame, a dead-zone camera, and the color of
//! each point of a level.
//!
//! Every quantity is a fixed-point integer counting thousandths (`SCALE`):
//! lengths, times, velocities, accelerations and ratios alike. Divisions round
//! down, and the contracts say so.

use vstd::prelude::*;

pub mod camera;
pub mod color;
pub mod frame;
pub mod geometry;
pub mod map;
pub mod objects;
pub mod physics;
pub mod render;

verus! {

} // verus!
