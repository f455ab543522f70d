//! Axis-aligned bounding boxes over the fixed-point scalar domain: union,
//! intersection test, quartering and centred construction. Boxes are never
//! mutated in place; every transformation produces a new instance, and the
//! construction discipline keeps sizes non-negative.

use vstd::prelude::*;

verus! {

use crate::vector2::{Vector2, vec_in_range};
use vstd::math::{min, max};

/// A box described by its top-left corner and its (non-negative) size.
#[derive(Clone, Copy, Debug, PartialEq, Eq, Structural)]
pub struct Aabb {
    pub top_left: Vector2,
    pub size: Vector2,
}

/// The four equal quarters of a box, named by their position inside it.
#[derive(Clone, Copy, Debug, PartialEq, Eq, Structural)]
pub struct AabbSplitFour {
    pub top_left: Aabb,
    pub top_right: Aabb,
    pub bottom_left: Aabb,
    pub bottom_right: Aabb,
}

/// The box invariant: sizes never go negative.
pub open spec fn aabb_wf(a: Aabb) -> bool {
    a.size.x >= 0 && a.size.y >= 0
}

/// Both corners of the box fit the coordinate range.
pub open spec fn aabb_in_range(a: Aabb) -> bool {
    vec_in_range(a.top_left) && vec_in_range(a.size)
}

/// The smallest box covering both arguments: component-wise minimum of the
/// top-left corners, component-wise maximum of the bottom-right corners.
pub open spec fn spec_union(a: Aabb, b: Aabb) -> Aabb {
    let tlx = min(a.top_left.x as int, b.top_left.x as int);
    let tly = min(a.top_left.y as int, b.top_left.y as int);
    let brx = max(a.top_left.x + a.size.x, b.top_left.x + b.size.x);
    let bry = max(a.top_left.y + a.size.y, b.top_left.y + b.size.y);
    Aabb {
        top_left: Vector2 { x: tlx as i64, y: tly as i64 },
        size: Vector2 { x: (brx - tlx) as i64, y: (bry - tly) as i64 },
    }
}

/// `outer` covers every point of `inner` (corners compared inclusively).
pub open spec fn aabb_contains(outer: Aabb, inner: Aabb) -> bool {
    &&& outer.top_left.x <= inner.top_left.x
    &&& outer.top_left.y <= inner.top_left.y
    &&& inner.top_left.x + inner.size.x <= outer.top_left.x + outer.size.x
    &&& inner.top_left.y + inner.size.y <= outer.top_left.y + outer.size.y
}

/// The boxes' projections overlap on both axes; touching edges count.
pub open spec fn spec_is_intersecting(a: Aabb, b: Aabb) -> bool {
    &&& a.top_left.x + a.size.x >= b.top_left.x
    &&& b.top_left.x + b.size.x >= a.top_left.x
    &&& a.top_left.y + a.size.y >= b.top_left.y
    &&& b.top_left.y + b.size.y >= a.top_left.y
}

/// Half the box's size, each axis truncated toward zero (equivalently
/// rounded down, the size being non-negative).
pub open spec fn spec_half_size(a: Aabb) -> Vector2 {
    Vector2 { x: (a.size.x as int / 2) as i64, y: (a.size.y as int / 2) as i64 }
}

/// The four equal quarters of the box, each of half its size. On an axis of
/// odd size the halves truncate, so the quarters may undercover the box by
/// one unit on that axis.
pub open spec fn spec_split_four(a: Aabb) -> AabbSplitFour {
    let half = spec_half_size(a);
    AabbSplitFour {
        top_left: Aabb { top_left: a.top_left, size: half },
        top_right: Aabb {
            top_left: Vector2 { x: (a.top_left.x + half.x) as i64, y: a.top_left.y },
            size: half,
        },
        bottom_left: Aabb {
            top_left: Vector2 { x: a.top_left.x, y: (a.top_left.y + half.y) as i64 },
            size: half,
        },
        bottom_right: Aabb {
            top_left: Vector2 {
                x: (a.top_left.x + half.x) as i64,
                y: (a.top_left.y + half.y) as i64,
            },
            size: half,
        },
    }
}

impl Aabb {
    pub fn new(top_left: Vector2, size: Vector2) -> (r: Self)
        requires
            size.x >= 0,
            size.y >= 0,
        ensures
            r == (Aabb { top_left, size }),
            aabb_wf(r),
    {
        Aabb { top_left, size }
    }

    pub fn from_centre_and_half_size(centre: Vector2, half_size: Vector2) -> (r: Self)
        requires
            half_size.x >= 0,
            half_size.y >= 0,
            i64::MIN <= centre.x - half_size.x,
            i64::MIN <= centre.y - half_size.y,
            2 * half_size.x <= i64::MAX,
            2 * half_size.y <= i64::MAX,
        ensures
            r.top_left.x == centre.x - half_size.x,
            r.top_left.y == centre.y - half_size.y,
            r.size.x == 2 * half_size.x,
            r.size.y == 2 * half_size.y,
            aabb_wf(r),
    {
        let top_left = centre.sub(half_size);
        let size = half_size.scale(2);
        Self::new(top_left, size)
    }

    fn bottom_right_coord(&self) -> (r: Vector2)
        requires
            i64::MIN <= self.top_left.x + self.size.x <= i64::MAX,
            i64::MIN <= self.top_left.y + self.size.y <= i64::MAX,
        ensures
            r.x == self.top_left.x + self.size.x,
            r.y == self.top_left.y + self.size.y,
    {
        self.top_left.add(self.size)
    }

    pub fn from_union(a: &Aabb, b: &Aabb) -> (r: Self)
        requires
            aabb_wf(*a),
            aabb_wf(*b),
            aabb_in_range(*a),
            aabb_in_range(*b),
        ensures
            r == spec_union(*a, *b),
            aabb_wf(r),
    {
        let tlx = if a.top_left.x < b.top_left.x {
            a.top_left.x
        } else {
            b.top_left.x
        };
        let tly = if a.top_left.y < b.top_left.y {
            a.top_left.y
        } else {
            b.top_left.y
        };
        let a_br = a.bottom_right_coord();
        let b_br = b.bottom_right_coord();
        let brx = if a_br.x > b_br.x {
            a_br.x
        } else {
            b_br.x
        };
        let bry = if a_br.y > b_br.y {
            a_br.y
        } else {
            b_br.y
        };
        Aabb {
            top_left: Vector2 { x: tlx, y: tly },
            size: Vector2 { x: brx - tlx, y: bry - tly },
        }
    }

    /// The smallest box covering both this box and `other`; always defined.
    pub fn union(&self, other: &Self) -> (r: Self)
        requires
            aabb_wf(*self),
            aabb_wf(*other),
            aabb_in_range(*self),
            aabb_in_range(*other),
        ensures
            r == spec_union(*self, *other),
            aabb_wf(r),
    {
        Self::from_union(self, other)
    }

    pub fn size(&self) -> (r: Vector2)
        ensures
            r == self.size,
    {
        self.size
    }

    /// True iff the two boxes' projections overlap (inclusively) on both
    /// axes; boxes that merely touch count as intersecting.
    pub fn is_intersecting(&self, other: &Aabb) -> (r: bool)
        requires
            aabb_in_range(*self),
            aabb_in_range(*other),
        ensures
            r == spec_is_intersecting(*self, *other),
    {
        self.top_left.x + self.size.x >= other.top_left.x
            && other.top_left.x + other.size.x >= self.top_left.x
            && self.top_left.y + self.size.y >= other.top_left.y
            && other.top_left.y + other.size.y >= self.top_left.y
    }

    pub fn centre(&self) -> (r: Vector2)
        requires
            aabb_wf(*self),
            aabb_in_range(*self),
        ensures
            r.x == self.top_left.x + self.size.x as int / 2,
            r.y == self.top_left.y + self.size.y as int / 2,
    {
        self.top_left.add(Vector2 { x: self.size.x / 2, y: self.size.y / 2 })
    }

    /// Quarter the box into four equal sub-boxes, each of half the size
    /// (truncated toward zero on an axis of odd size).
    pub fn split_four(&self) -> (r: AabbSplitFour)
        requires
            aabb_wf(*self),
            aabb_in_range(*self),
        ensures
            r == spec_split_four(*self),
    {
        let size = Vector2 { x: self.size.x / 2, y: self.size.y / 2 };
        AabbSplitFour {
            top_left: Aabb { top_left: self.top_left, size },
            top_right: Aabb {
                top_left: Vector2 { x: self.top_left.x + size.x, y: self.top_left.y },
                size,
            },
            bottom_left: Aabb {
                top_left: Vector2 { x: self.top_left.x, y: self.top_left.y + size.y },
                size,
            },
            bottom_right: Aabb { top_left: self.top_left.add(size), size },
        }
    }

    /// Grow the box to double size, keeping the same centre (up to the
    /// truncation of the half-size on an axis of odd size).
    pub fn double_about_centre(&self) -> (r: Self)
        requires
            aabb_wf(*self),
            aabb_in_range(*self),
        ensures
            r.top_left.x == self.top_left.x + self.size.x as int / 2 - self.size.x,
            r.top_left.y == self.top_left.y + self.size.y as int / 2 - self.size.y,
            r.size.x == 2 * self.size.x,
            r.size.y == 2 * self.size.y,
            aabb_wf(r),
    {
        Self::from_centre_and_half_size(self.centre(), self.size)
    }
}

/// Union is symmetric, and the union of two boxes contains both.
pub proof fn lemma_union_symmetric(a: Aabb, b: Aabb)
    requires
        aabb_in_range(a),
        aabb_in_range(b),
    ensures
        spec_union(a, b) == spec_union(b, a),
        aabb_contains(spec_union(a, b), a),
        aabb_contains(spec_union(a, b), b),
{
}

/// Unioning the four quarters from `split_four` reproduces the original
/// box, up to the truncation of an odd size: the rejoined box keeps the
/// top-left corner and has size `2 * (size / 2)` on each axis, which is the
/// original size exactly when both sizes are even.
pub proof fn lemma_split_four_rejoin(a: Aabb)
    requires
        aabb_wf(a),
        aabb_in_range(a),
    ensures
        ({
            let parts = spec_split_four(a);
            let rejoined = spec_union(
                spec_union(spec_union(parts.top_left, parts.top_right), parts.bottom_left),
                parts.bottom_right,
            );
            &&& rejoined.top_left == a.top_left
            &&& rejoined.size.x == 2 * (a.size.x as int / 2)
            &&& rejoined.size.y == 2 * (a.size.y as int / 2)
            &&& (a.size.x % 2 == 0 && a.size.y % 2 == 0 ==> rejoined == a)
        }),
{
    vstd::arithmetic::div_mod::lemma_fundamental_div_mod(a.size.x as int, 2);
    vstd::arithmetic::div_mod::lemma_fundamental_div_mod(a.size.y as int, 2);
}

} // verus!
