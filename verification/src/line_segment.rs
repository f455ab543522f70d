//! Line segments: both standalone shapes and the edges of polygonal shapes.

use vstd::prelude::*;

verus! {

use crate::vector2::{Vector2, vec_in_range};

/// A segment from `start` to `end`, in whatever frame the caller anchors it.
#[derive(Clone, Copy, Debug, PartialEq, Eq, Structural)]
pub struct LineSegment {
    pub start: Vector2,
    pub end: Vector2,
}

/// All four endpoint coordinates fit the coordinate range.
pub open spec fn seg_in_range(s: LineSegment) -> bool {
    vec_in_range(s.start) && vec_in_range(s.end)
}

/// The segment translated by `v`, as a mathematical value.
pub open spec fn spec_seg_add(s: LineSegment, v: Vector2) -> LineSegment {
    LineSegment { start: crate::vector2::spec_add(s.start, v), end: crate::vector2::spec_add(s.end, v) }
}

impl LineSegment {
    pub fn new(start: Vector2, end: Vector2) -> (r: Self)
        ensures
            r.start == start,
            r.end == end,
    {
        LineSegment { start, end }
    }

    /// The segment translated by `vector`.
    pub fn add_vector(&self, vector: Vector2) -> (r: Self)
        requires
            i64::MIN <= self.start.x + vector.x <= i64::MAX,
            i64::MIN <= self.start.y + vector.y <= i64::MAX,
            i64::MIN <= self.end.x + vector.x <= i64::MAX,
            i64::MIN <= self.end.y + vector.y <= i64::MAX,
        ensures
            r == spec_seg_add(*self, vector),
            r.start.x == self.start.x + vector.x,
            r.start.y == self.start.y + vector.y,
            r.end.x == self.end.x + vector.x,
            r.end.y == self.end.y + vector.y,
    {
        LineSegment { start: self.start.add(vector), end: self.end.add(vector) }
    }

    /// The vector from `start` to `end`.
    pub fn vector(&self) -> (r: Vector2)
        requires
            i64::MIN <= self.end.x - self.start.x <= i64::MAX,
            i64::MIN <= self.end.y - self.start.y <= i64::MAX,
        ensures
            r.x == self.end.x - self.start.x,
            r.y == self.end.y - self.start.y,
    {
        self.end.sub(self.start)
    }
}

impl crate::shape::Collide for LineSegment {
    /// Both endpoints are produced regardless of direction.
    open spec fn facing_vertices(&self, direction: Vector2) -> Seq<Vector2> {
        seq![self.start, self.end]
    }

    /// The segment always contributes itself.
    open spec fn facing_edges(&self, direction: Vector2) -> Seq<LineSegment> {
        seq![*self]
    }

    open spec fn extent_within(&self, b: int) -> bool {
        crate::vector2::vec_within(self.start, b) && crate::vector2::vec_within(self.end, b)
    }

    open spec fn aabb_req(&self, top_left: Vector2) -> bool {
        seg_in_range(*self) && vec_in_range(top_left)
    }

    open spec fn spec_aabb(&self, top_left: Vector2) -> crate::aabb::Aabb {
        let sx = self.start.x + top_left.x;
        let sy = self.start.y + top_left.y;
        let ex = self.end.x + top_left.x;
        let ey = self.end.y + top_left.y;
        let x_min = vstd::math::min(sx, ex);
        let y_min = vstd::math::min(sy, ey);
        let x_max = vstd::math::max(sx, ex);
        let y_max = vstd::math::max(sy, ey);
        crate::aabb::Aabb {
            top_left: Vector2 { x: x_min as i64, y: y_min as i64 },
            size: Vector2 { x: (x_max - x_min) as i64, y: (y_max - y_min) as i64 },
        }
    }

    proof fn lemma_facing_extent(&self, direction: Vector2, b: int) {
    }

    fn aabb(&self, top_left: Vector2) -> (r: crate::aabb::Aabb) {
        let start = self.start.add(top_left);
        let end = self.end.add(top_left);
        let x_min = if start.x <= end.x {
            start.x
        } else {
            end.x
        };
        let x_max = if start.x >= end.x {
            start.x
        } else {
            end.x
        };
        let y_min = if start.y <= end.y {
            start.y
        } else {
            end.y
        };
        let y_max = if start.y >= end.y {
            start.y
        } else {
            end.y
        };
        let top_left = Vector2 { x: x_min, y: y_min };
        let bottom_right = Vector2 { x: x_max, y: y_max };
        crate::aabb::Aabb::new(top_left, bottom_right.sub(top_left))
    }

    fn vertices_facing(&self, direction: Vector2) -> (r: Vec<Vector2>) {
        let mut v: Vec<Vector2> = Vec::new();
        v.push(self.start);
        v.push(self.end);
        proof {
            assert(v@ =~= seq![self.start, self.end]);
        }
        v
    }

    fn edges_facing(&self, direction: Vector2) -> (r: Vec<LineSegment>) {
        let mut v: Vec<LineSegment> = Vec::new();
        v.push(*self);
        proof {
            assert(v@ =~= seq![*self]);
        }
        v
    }
}

} // verus!
