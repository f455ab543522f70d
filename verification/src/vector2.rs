//! Ordered pairs of fixed-point scalars with component-wise arithmetic.

use vstd::prelude::*;

verus! {

use crate::scalar_in_range;

/// A 2D vector over the fixed-point scalar domain. Immutable value type:
/// every operation returns a new vector.
#[derive(Clone, Copy, Debug, PartialEq, Eq, Structural)]
pub struct Vector2 {
    pub x: i64,
    pub y: i64,
}

/// Both components of the vector fit the coordinate range.
pub open spec fn vec_in_range(v: Vector2) -> bool {
    scalar_in_range(v.x as int) && scalar_in_range(v.y as int)
}

/// Both components of the vector have magnitude at most `b`.
pub open spec fn vec_within(v: Vector2, b: int) -> bool {
    -b <= v.x <= b && -b <= v.y <= b
}

/// Component-wise sum, as a mathematical value (callers guarantee range).
pub open spec fn spec_add(a: Vector2, b: Vector2) -> Vector2 {
    Vector2 { x: (a.x + b.x) as i64, y: (a.y + b.y) as i64 }
}

/// Component-wise negation, as a mathematical value.
pub open spec fn spec_neg(v: Vector2) -> Vector2 {
    Vector2 { x: (-v.x) as i64, y: (-v.y) as i64 }
}

/// 2D cross product (the z component of the 3D cross product of the two
/// vectors laid into the plane): zero exactly when the vectors are parallel.
pub open spec fn spec_cross(v: Vector2, w: Vector2) -> int {
    v.x * w.y - v.y * w.x
}

/// Dot product.
pub open spec fn spec_dot(v: Vector2, w: Vector2) -> int {
    v.x * w.x + v.y * w.y
}

/// Squared magnitude.
pub open spec fn spec_magnitude2(v: Vector2) -> int {
    v.x * v.x + v.y * v.y
}

impl Vector2 {
    pub fn new(x: i64, y: i64) -> (r: Vector2)
        ensures
            r.x == x,
            r.y == y,
    {
        Vector2 { x, y }
    }

    pub fn add(self, other: Vector2) -> (r: Vector2)
        requires
            i64::MIN <= self.x + other.x <= i64::MAX,
            i64::MIN <= self.y + other.y <= i64::MAX,
        ensures
            r == spec_add(self, other),
            r.x == self.x + other.x,
            r.y == self.y + other.y,
    {
        Vector2 { x: self.x + other.x, y: self.y + other.y }
    }

    pub fn sub(self, other: Vector2) -> (r: Vector2)
        requires
            i64::MIN <= self.x - other.x <= i64::MAX,
            i64::MIN <= self.y - other.y <= i64::MAX,
        ensures
            r.x == self.x - other.x,
            r.y == self.y - other.y,
    {
        Vector2 { x: self.x - other.x, y: self.y - other.y }
    }

    pub fn neg(self) -> (r: Vector2)
        requires
            self.x != i64::MIN,
            self.y != i64::MIN,
        ensures
            r.x == -self.x,
            r.y == -self.y,
    {
        Vector2 { x: -self.x, y: -self.y }
    }

    pub fn scale(self, n: i64) -> (r: Vector2)
        requires
            i64::MIN <= self.x * n <= i64::MAX,
            i64::MIN <= self.y * n <= i64::MAX,
        ensures
            r.x == self.x * n,
            r.y == self.y * n,
    {
        Vector2 { x: self.x * n, y: self.y * n }
    }
}

} // verus!
