//! Swept (continuous) collision detection for a 2D physics layer.
//!
//! Given a shape moving by a vector over one simulation step, the library
//! determines the earliest geometric contact with a stationary shape and
//! reports how much of the movement may safely be applied before
//! penetration occurs. All arithmetic is exact fixed-point integer
//! arithmetic: collision correctness depends on reproducible comparisons,
//! which floating point cannot give.

pub mod aabb;
pub mod axis_aligned_rect;
pub mod best_map;
pub mod collision;
pub mod game;
pub mod line_segment;
pub mod physics_num;
pub mod pixel_num;
pub mod shape;
pub mod vector2;

use vstd::prelude::*;

verus! {

/// Largest coordinate magnitude the geometry accepts. Chosen so that every
/// intermediate product of the sweep algorithm (at worst eight times the
/// cube of a coordinate bound) stays within `i64`.
pub const MAX_COORD: i64 = 524288;

/// Bound on a shape's own coordinates and on anchor positions: half the
/// coordinate range, so that a shape placed at an anchor stays within it.
pub const MAX_SHAPE_COORD: i64 = 262144;

/// A scalar fits the coordinate range the library computes within.
pub open spec fn scalar_in_range(n: int) -> bool {
    -MAX_COORD <= n <= MAX_COORD
}

} // verus!
