//! The swept vertex-vs-edge primitive: given a vertex, its movement over
//! one step, and a stationary edge, decide the earliest contact — exactly,
//! with integer arithmetic and no trigonometry.
//!
//! The non-colliding outcomes are expected, frequent results carried as
//! typed alternatives, never as panics. When contact is found, the allowed
//! movement stops one raw unit short of the contact point on each axis
//! independently (an integer-exact "stop just before contact" epsilon, not
//! a floating tolerance).

use vstd::prelude::*;

verus! {

use crate::MAX_COORD;
use crate::line_segment::LineSegment;
use crate::physics_num::{
    iabs,
    isignum,
    lemma_mul_within,
    lemma_tdiv_abs_le,
    lemma_tdiv_bound,
    tdiv,
};
use crate::vector2::{Vector2, spec_magnitude2, vec_in_range};

/// Contact found for a vertex/edge pair.
#[derive(Clone, Copy, Debug, PartialEq, Eq, Structural)]
pub enum Collision {
    /// The vertex already lies on the edge before any movement.
    StartInsideEdge,
    /// The vertex strikes the edge; the payload is the movement the vertex
    /// may safely make, stopping one unit short of contact per axis.
    CollidesWithEdgeAfter(Vector2),
}

/// The typed reasons a vertex/edge pair produces no contact.
#[derive(Clone, Copy, Debug, PartialEq, Eq, Structural)]
pub enum NoCollision {
    /// Movement and edge are colinear but the travelled interval misses
    /// the edge's interval.
    ColinearNonOverlapping,
    /// Movement is parallel to the edge on a different line.
    ParallelNonColinear,
    /// The lines cross, but outside the movement's or the edge's extent.
    NonParallelNonIntersecting,
}

/// 2D cross product of two pairs of mathematical integers.
pub open spec fn cross2(vx: int, vy: int, wx: int, wy: int) -> int {
    vx * wy - vy * wx
}

/// Dot product of two pairs of mathematical integers.
pub open spec fn dot2(vx: int, vy: int, wx: int, wy: int) -> int {
    vx * wx + vy * wy
}

/// x component of the edge's direction vector.
pub open spec fn edge_vx(e: LineSegment) -> int {
    e.end.x - e.start.x
}

/// y component of the edge's direction vector.
pub open spec fn edge_vy(e: LineSegment) -> int {
    e.end.y - e.start.y
}

/// The movement is parallel to the edge (their cross product vanishes; a
/// zero movement is parallel to everything).
pub open spec fn is_parallel(m: Vector2, e: LineSegment) -> bool {
    cross2(m.x as int, m.y as int, edge_vx(e), edge_vy(e)) == 0
}

/// The vertex's path lies on the edge's line: the vector from the vertex
/// to the edge's start is itself parallel to the movement.
pub open spec fn path_colinear(v: Vector2, m: Vector2, e: LineSegment) -> bool {
    cross2(e.start.x - v.x, e.start.y - v.y, m.x as int, m.y as int) == 0
}

/// Projection of the edge's start onto the movement axis, scaled by the
/// movement's squared length.
pub open spec fn colinear_proj_start(v: Vector2, m: Vector2, e: LineSegment) -> int {
    dot2(e.start.x - v.x, e.start.y - v.y, m.x as int, m.y as int)
}

/// Projection of the edge's end onto the movement axis, likewise scaled.
pub open spec fn colinear_proj_end(v: Vector2, m: Vector2, e: LineSegment) -> int {
    dot2(e.end.x - v.x, e.end.y - v.y, m.x as int, m.y as int)
}

/// Lower bound of the edge's projected interval on the movement axis.
pub open spec fn colinear_lo(v: Vector2, m: Vector2, e: LineSegment) -> int {
    vstd::math::min(colinear_proj_start(v, m, e), colinear_proj_end(v, m, e))
}

/// Upper bound of the edge's projected interval on the movement axis.
pub open spec fn colinear_hi(v: Vector2, m: Vector2, e: LineSegment) -> int {
    vstd::math::max(colinear_proj_start(v, m, e), colinear_proj_end(v, m, e))
}

/// The colinear intervals overlap: the edge's projected interval meets the
/// movement's own parametric range `[0, |movement|^2]`.
pub open spec fn colinear_overlapping(v: Vector2, m: Vector2, e: LineSegment) -> bool {
    colinear_hi(v, m, e) >= 0 && colinear_lo(v, m, e) <= spec_magnitude2(m)
}

/// What the sweep returns, case by case. This is the exact mathematical
/// statement of the algorithm: the executable function is proved to return
/// precisely this value.
pub open spec fn sweep_spec(v: Vector2, m: Vector2, e: LineSegment) -> Result<
    Collision,
    NoCollision,
> {
    if is_parallel(m, e) {
        if path_colinear(v, m, e) {
            let lo = colinear_lo(v, m, e);
            let len2 = spec_magnitude2(m);
            if !colinear_overlapping(v, m, e) {
                Err(NoCollision::ColinearNonOverlapping)
            } else if lo <= 0 {
                Ok(Collision::StartInsideEdge)
            } else {
                Ok(
                    Collision::CollidesWithEdgeAfter(
                        Vector2 {
                            x: tdiv(m.x * lo - 1, len2) as i64,
                            y: tdiv(m.y * lo - 1, len2) as i64,
                        },
                    ),
                )
            }
        } else {
            Err(NoCollision::ParallelNonColinear)
        }
    } else {
        let cross = cross2(m.x as int, m.y as int, edge_vx(e), edge_vy(e));
        let ca = iabs(cross);
        let sign = isignum(cross);
        let vm = cross2(e.start.x - v.x, e.start.y - v.y, edge_vx(e), edge_vy(e));
        let em = cross2(e.start.x - v.x, e.start.y - v.y, m.x as int, m.y as int);
        if vm * sign < 0 || vm * sign > ca || em * sign < 0 || em * sign > ca {
            Err(NoCollision::NonParallelNonIntersecting)
        } else if vm == 0 {
            Ok(Collision::StartInsideEdge)
        } else {
            let nx = m.x * vm;
            let ny = m.y * vm;
            Ok(
                Collision::CollidesWithEdgeAfter(
                    Vector2 {
                        x: (if nx == 0 {
                            0int
                        } else {
                            tdiv(nx * sign - 1, ca)
                        }) as i64,
                        y: (if ny == 0 {
                            0int
                        } else {
                            tdiv(ny * sign - 1, ca)
                        }) as i64,
                    },
                ),
            )
        }
    }
}

/// Decide whether (and how far) a vertex moving by `vertex_movement` may
/// travel before striking the stationary `edge`. Returns exactly
/// `sweep_spec`; when contact is found the allowed movement never exceeds
/// the requested movement by more than one raw unit per axis.
pub fn vertex_moving_towards_edge(
    vertex: Vector2,
    vertex_movement: Vector2,
    edge: LineSegment,
) -> (r: Result<Collision, NoCollision>)
    requires
        vec_in_range(vertex),
        vec_in_range(vertex_movement),
        vec_in_range(edge.start),
        vec_in_range(edge.end),
    ensures
        r == sweep_spec(vertex, vertex_movement, edge),
        (r matches Ok(Collision::CollidesWithEdgeAfter(a)) ==> iabs(a.x as int) <= iabs(
            vertex_movement.x as int,
        ) + 1 && iabs(a.y as int) <= iabs(vertex_movement.y as int) + 1),
{
    let ghost b: int = MAX_COORD as int;
    let mx = vertex_movement.x;
    let my = vertex_movement.y;
    let evx = edge.end.x - edge.start.x;
    let evy = edge.end.y - edge.start.y;
    let sx = edge.start.x - vertex.x;
    let sy = edge.start.y - vertex.y;
    proof {
        lemma_mul_within(mx as int, evy as int, b, 2 * b);
        lemma_mul_within(my as int, evx as int, b, 2 * b);
    }
    let cross = mx * evy - my * evx;
    proof {
        lemma_mul_within(sx as int, my as int, 2 * b, b);
        lemma_mul_within(sy as int, mx as int, 2 * b, b);
    }
    if cross == 0 {
        if sx * my - sy * mx == 0 {
            // The vertex's path is colinear with the edge: compare the
            // projected intervals along the movement axis.
            let tx = edge.end.x - vertex.x;
            let ty = edge.end.y - vertex.y;
            proof {
                lemma_mul_within(sx as int, mx as int, 2 * b, b);
                lemma_mul_within(sy as int, my as int, 2 * b, b);
                lemma_mul_within(tx as int, mx as int, 2 * b, b);
                lemma_mul_within(ty as int, my as int, 2 * b, b);
                lemma_mul_within(mx as int, mx as int, b, b);
                lemma_mul_within(my as int, my as int, b, b);
            }
            let proj_a = sx * mx + sy * my;
            let proj_b = tx * mx + ty * my;
            let (lo, hi) = if proj_a < proj_b {
                (proj_a, proj_b)
            } else {
                (proj_b, proj_a)
            };
            let len2 = mx * mx + my * my;
            if hi < 0 || lo > len2 {
                return Err(NoCollision::ColinearNonOverlapping);
            }
            if lo <= 0 {
                return Ok(Collision::StartInsideEdge);
            }
            // 0 < lo <= len2, so the movement is nonzero; stop one raw
            // unit short of the nearer interval bound.
            proof {
                assert(len2 > 0);
                lemma_mul_within(mx as int, lo as int, b, 4 * b * b);
                lemma_mul_within(my as int, lo as int, b, 4 * b * b);
                lemma_mul_within(mx as int, lo as int, iabs(mx as int), len2 as int);
                lemma_mul_within(my as int, lo as int, iabs(my as int), len2 as int);
                lemma_tdiv_abs_le(mx * lo - 1, len2 as int);
                lemma_tdiv_abs_le(my * lo - 1, len2 as int);
                lemma_tdiv_bound(mx * lo - 1, len2 as int, iabs(mx as int));
                lemma_tdiv_bound(my * lo - 1, len2 as int, iabs(my as int));
            }
            let ax = {
                let num = mx * lo - 1;
                if num >= 0 {
                    num / len2
                } else {
                    -((-num) / len2)
                }
            };
            let ay = {
                let num = my * lo - 1;
                if num >= 0 {
                    num / len2
                } else {
                    -((-num) / len2)
                }
            };
            return Ok(Collision::CollidesWithEdgeAfter(Vector2 { x: ax, y: ay }));
        }
        Err(NoCollision::ParallelNonColinear)
    } else {
        let cross_abs = if cross < 0 {
            -cross
        } else {
            cross
        };
        let cross_sign: i64 = if cross < 0 {
            -1
        } else {
            1
        };
        proof {
            lemma_mul_within(sx as int, evy as int, 2 * b, 2 * b);
            lemma_mul_within(sy as int, evx as int, 2 * b, 2 * b);
        }
        let vertex_mult = sx * evy - sy * evx;
        proof {
            lemma_mul_within(vertex_mult as int, cross_sign as int, 8 * b * b, 1);
        }
        let vertex_mult_abs = vertex_mult * cross_sign;
        if vertex_mult_abs < 0 || vertex_mult_abs > cross_abs {
            return Err(NoCollision::NonParallelNonIntersecting);
        }
        let edge_mult = sx * my - sy * mx;
        proof {
            lemma_mul_within(edge_mult as int, cross_sign as int, 4 * b * b, 1);
        }
        let edge_mult_abs = edge_mult * cross_sign;
        if edge_mult_abs < 0 || edge_mult_abs > cross_abs {
            return Err(NoCollision::NonParallelNonIntersecting);
        }
        if vertex_mult == 0 {
            return Ok(Collision::StartInsideEdge);
        }
        // Both parametric numerators lie in [0, |cross|]: the paths
        // intersect within range. Scale the movement to the intersection,
        // shaving one raw unit per axis before the final division.
        proof {
            lemma_mul_within(mx as int, vertex_mult as int, b, 8 * b * b);
            lemma_mul_within(my as int, vertex_mult as int, b, 8 * b * b);
            lemma_mul_within(mx * vertex_mult, cross_sign as int, 8 * b * b * b, 1);
            lemma_mul_within(my * vertex_mult, cross_sign as int, 8 * b * b * b, 1);
            lemma_mul_within(mx as int, vertex_mult as int, iabs(mx as int), cross_abs as int);
            lemma_mul_within(my as int, vertex_mult as int, iabs(my as int), cross_abs as int);
            lemma_tdiv_abs_le(mx * vertex_mult * cross_sign - 1, cross_abs as int);
            lemma_tdiv_abs_le(my * vertex_mult * cross_sign - 1, cross_abs as int);
            lemma_tdiv_bound(mx * vertex_mult * cross_sign - 1, cross_abs as int, iabs(mx as int));
            lemma_tdiv_bound(my * vertex_mult * cross_sign - 1, cross_abs as int, iabs(my as int));
        }
        let ax = {
            let num = mx * vertex_mult;
            if num == 0 {
                0
            } else {
                let scaled = num * cross_sign - 1;
                if scaled >= 0 {
                    scaled / cross_abs
                } else {
                    -((-scaled) / cross_abs)
                }
            }
        };
        let ay = {
            let num = my * vertex_mult;
            if num == 0 {
                0
            } else {
                let scaled = num * cross_sign - 1;
                if scaled >= 0 {
                    scaled / cross_abs
                } else {
                    -((-scaled) / cross_abs)
                }
            }
        };
        Ok(Collision::CollidesWithEdgeAfter(Vector2 { x: ax, y: ay }))
    }
}

/// No-collision stability: when the vertex's movement is colinear with the
/// edge and the projected intervals do not overlap, the sweep always
/// reports `ColinearNonOverlapping` — never a spurious contact.
pub proof fn lemma_colinear_non_overlapping_stable(v: Vector2, m: Vector2, e: LineSegment)
    requires
        is_parallel(m, e),
        path_colinear(v, m, e),
        !colinear_overlapping(v, m, e),
    ensures
        sweep_spec(v, m, e) == Err::<Collision, NoCollision>(NoCollision::ColinearNonOverlapping),
{
}

/// A zero movement vector never yields a nonzero allowed movement: with no
/// movement the sweep degenerates to the colinear branch and reports the
/// vertex as already inside the edge's projected interval.
pub proof fn lemma_zero_movement_never_collides(v: Vector2, m: Vector2, e: LineSegment)
    requires
        m.x == 0,
        m.y == 0,
    ensures
        sweep_spec(v, m, e) == Ok::<Collision, NoCollision>(Collision::StartInsideEdge),
        !(sweep_spec(v, m, e) matches Ok(Collision::CollidesWithEdgeAfter(_))),
{
}

} // verus!
