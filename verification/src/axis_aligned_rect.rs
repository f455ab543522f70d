//! Axis-aligned rectangles: anchored at an external position, decomposing
//! on demand into the corner vertices and boundary edges that face a given
//! direction.

use vstd::prelude::*;

verus! {

use crate::aabb::{Aabb, aabb_wf};
use crate::line_segment::LineSegment;
use crate::shape::Collide;
use crate::vector2::{Vector2, vec_within};

/// A rectangle described by its dimensions, implicitly anchored at an
/// external position (its own top-left corner is the origin of its frame).
#[derive(Clone, Copy, Debug, PartialEq, Eq, Structural)]
pub struct AxisAlignedRect {
    pub dimensions: Vector2,
}

pub open spec fn rect_top_left(r: AxisAlignedRect) -> Vector2 {
    Vector2 { x: 0, y: 0 }
}

pub open spec fn rect_top_right(r: AxisAlignedRect) -> Vector2 {
    Vector2 { x: r.dimensions.x, y: 0 }
}

pub open spec fn rect_bottom_left(r: AxisAlignedRect) -> Vector2 {
    Vector2 { x: 0, y: r.dimensions.y }
}

pub open spec fn rect_bottom_right(r: AxisAlignedRect) -> Vector2 {
    r.dimensions
}

pub open spec fn rect_top_edge(r: AxisAlignedRect) -> LineSegment {
    LineSegment { start: rect_top_left(r), end: rect_top_right(r) }
}

pub open spec fn rect_right_edge(r: AxisAlignedRect) -> LineSegment {
    LineSegment { start: rect_top_right(r), end: rect_bottom_right(r) }
}

pub open spec fn rect_bottom_edge(r: AxisAlignedRect) -> LineSegment {
    LineSegment { start: rect_bottom_right(r), end: rect_bottom_left(r) }
}

pub open spec fn rect_left_edge(r: AxisAlignedRect) -> LineSegment {
    LineSegment { start: rect_bottom_left(r), end: rect_top_left(r) }
}

/// The rectangle's vertices that face `direction`, per axis from the sign
/// of the direction's components; a zero component includes both vertices
/// of that axis, to stay conservative at exact axis-aligned sweeps.
pub open spec fn rect_facing_vertices(r: AxisAlignedRect, d: Vector2) -> Seq<Vector2> {
    (if d.y >= 0 {
        seq![rect_bottom_left(r), rect_bottom_right(r)] + (if d.x >= 0 {
            seq![rect_top_right(r)]
        } else {
            Seq::empty()
        }) + (if d.x <= 0 {
            seq![rect_top_left(r)]
        } else {
            Seq::empty()
        })
    } else {
        Seq::empty()
    }) + (if d.y <= 0 {
        seq![rect_top_left(r), rect_top_right(r)] + (if d.x >= 0 {
            seq![rect_bottom_right(r)]
        } else {
            Seq::empty()
        }) + (if d.x <= 0 {
            seq![rect_bottom_left(r)]
        } else {
            Seq::empty()
        })
    } else {
        Seq::empty()
    })
}

/// The rectangle's 0 to 2 boundary edges whose outward normal does not
/// oppose `direction`.
pub open spec fn rect_facing_edges(r: AxisAlignedRect, d: Vector2) -> Seq<LineSegment> {
    (if d.y >= 0 {
        seq![rect_bottom_edge(r)]
    } else {
        Seq::empty()
    }) + (if d.y <= 0 {
        seq![rect_top_edge(r)]
    } else {
        Seq::empty()
    }) + (if d.x >= 0 {
        seq![rect_right_edge(r)]
    } else {
        Seq::empty()
    }) + (if d.x <= 0 {
        seq![rect_left_edge(r)]
    } else {
        Seq::empty()
    })
}

impl AxisAlignedRect {
    pub fn new(dimensions: Vector2) -> (r: Self)
        ensures
            r.dimensions == dimensions,
    {
        AxisAlignedRect { dimensions }
    }

    pub fn dimensions(&self) -> (r: Vector2)
        ensures
            r == self.dimensions,
    {
        self.dimensions
    }

    fn top_left(&self) -> (r: Vector2)
        ensures
            r == rect_top_left(*self),
    {
        Vector2 { x: 0, y: 0 }
    }

    fn top_right(&self) -> (r: Vector2)
        ensures
            r == rect_top_right(*self),
    {
        Vector2 { x: self.dimensions.x, y: 0 }
    }

    fn bottom_left(&self) -> (r: Vector2)
        ensures
            r == rect_bottom_left(*self),
    {
        Vector2 { x: 0, y: self.dimensions.y }
    }

    fn bottom_right(&self) -> (r: Vector2)
        ensures
            r == rect_bottom_right(*self),
    {
        self.dimensions
    }

    fn top(&self) -> (r: LineSegment)
        ensures
            r == rect_top_edge(*self),
    {
        LineSegment { start: self.top_left(), end: self.top_right() }
    }

    fn right(&self) -> (r: LineSegment)
        ensures
            r == rect_right_edge(*self),
    {
        LineSegment { start: self.top_right(), end: self.bottom_right() }
    }

    fn bottom(&self) -> (r: LineSegment)
        ensures
            r == rect_bottom_edge(*self),
    {
        LineSegment { start: self.bottom_right(), end: self.bottom_left() }
    }

    fn left(&self) -> (r: LineSegment)
        ensures
            r == rect_left_edge(*self),
    {
        LineSegment { start: self.bottom_left(), end: self.top_left() }
    }
}

impl Collide for AxisAlignedRect {
    open spec fn facing_vertices(&self, direction: Vector2) -> Seq<Vector2> {
        rect_facing_vertices(*self, direction)
    }

    open spec fn facing_edges(&self, direction: Vector2) -> Seq<LineSegment> {
        rect_facing_edges(*self, direction)
    }

    open spec fn extent_within(&self, b: int) -> bool {
        vec_within(self.dimensions, b)
    }

    open spec fn aabb_req(&self, top_left: Vector2) -> bool {
        self.dimensions.x >= 0 && self.dimensions.y >= 0
    }

    open spec fn spec_aabb(&self, top_left: Vector2) -> Aabb {
        Aabb { top_left, size: self.dimensions }
    }

    proof fn lemma_facing_extent(&self, direction: Vector2, b: int) {
        assert(vec_within(rect_top_left(*self), b));
        assert(vec_within(rect_top_right(*self), b));
        assert(vec_within(rect_bottom_left(*self), b));
        assert(vec_within(rect_bottom_right(*self), b));
    }

    fn aabb(&self, top_left: Vector2) -> (r: Aabb) {
        Aabb::new(top_left, self.dimensions)
    }

    fn vertices_facing(&self, direction: Vector2) -> (r: Vec<Vector2>) {
        let mut v: Vec<Vector2> = Vec::new();
        if direction.y >= 0 {
            v.push(self.bottom_left());
            v.push(self.bottom_right());
            if direction.x >= 0 {
                v.push(self.top_right());
            }
            if direction.x <= 0 {
                v.push(self.top_left());
            }
        }
        if direction.y <= 0 {
            v.push(self.top_left());
            v.push(self.top_right());
            if direction.x >= 0 {
                v.push(self.bottom_right());
            }
            if direction.x <= 0 {
                v.push(self.bottom_left());
            }
        }
        proof {
            assert(v@ =~= rect_facing_vertices(*self, direction));
        }
        v
    }

    fn edges_facing(&self, direction: Vector2) -> (r: Vec<LineSegment>) {
        let mut v: Vec<LineSegment> = Vec::new();
        if direction.y >= 0 {
            v.push(self.bottom());
        }
        if direction.y <= 0 {
            v.push(self.top());
        }
        if direction.x >= 0 {
            v.push(self.right());
        }
        if direction.x <= 0 {
            v.push(self.left());
        }
        proof {
            assert(v@ =~= rect_facing_edges(*self, direction));
        }
        v
    }
}

} // verus!
