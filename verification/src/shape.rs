//! The shape capability and the shape-pair movement-collision query.
//!
//! Every concrete shape exposes a tight bounding box at an anchor position
//! and the direction-filtered subsets of its vertices and edges: only a
//! vertex that faces the movement can be the first point of contact, and
//! only an edge whose outward side meets the movement can be struck, so the
//! query tests far fewer pairs while remaining exact. The enumeration order
//! is fixed, which makes the query's tie-break deterministic.

use vstd::prelude::*;

verus! {

use crate::MAX_COORD;
use crate::MAX_SHAPE_COORD;
use crate::aabb::{Aabb, aabb_wf};
use crate::collision::{Collision, sweep_spec, vertex_moving_towards_edge};
use crate::line_segment::{LineSegment, spec_seg_add};
use crate::vector2::{Vector2, spec_add, spec_magnitude2, spec_neg, vec_in_range, vec_within};

/// The shape capability: a bounding box, and the vertices and edges that
/// face a given direction, in a fixed enumeration order.
pub trait Collide: Sized {
    /// The vertices (in the shape's own frame) that face `direction`: the
    /// ones from which moving further along `direction` would not
    /// immediately re-enter the shape. A zero direction component on an
    /// axis conservatively includes both vertices of that axis.
    spec fn facing_vertices(&self, direction: Vector2) -> Seq<Vector2>;

    /// The boundary edges whose outward side faces `direction`.
    spec fn facing_edges(&self, direction: Vector2) -> Seq<LineSegment>;

    /// Every coordinate the shape can produce has magnitude at most `b`.
    spec fn extent_within(&self, b: int) -> bool;

    /// What the shape asks of an anchor for its bounding box to be exact
    /// and representable.
    spec fn aabb_req(&self, top_left: Vector2) -> bool;

    /// The bounding box of the shape anchored at `top_left`.
    spec fn spec_aabb(&self, top_left: Vector2) -> Aabb;

    /// Facing vertices and edges stay within the shape's extent.
    proof fn lemma_facing_extent(&self, direction: Vector2, b: int)
        requires
            self.extent_within(b),
            b >= 0,
        ensures
            forall|i: int|
                0 <= i < self.facing_vertices(direction).len() ==> vec_within(
                    #[trigger] self.facing_vertices(direction)[i],
                    b,
                ),
            forall|i: int|
                0 <= i < self.facing_edges(direction).len() ==> (vec_within(
                    (#[trigger] self.facing_edges(direction)[i]).start,
                    b,
                ) && vec_within(self.facing_edges(direction)[i].end, b)),
    ;

    /// Tight bounding box of the shape translated to `top_left`.
    fn aabb(&self, top_left: Vector2) -> (r: Aabb)
        requires
            self.aabb_req(top_left),
        ensures
            r == self.spec_aabb(top_left),
            aabb_wf(r),
    ;

    /// The facing vertices, materialized in enumeration order.
    fn vertices_facing(&self, direction: Vector2) -> (r: Vec<Vector2>)
        ensures
            r@ == self.facing_vertices(direction),
    ;

    /// The facing edges, materialized in enumeration order.
    fn edges_facing(&self, direction: Vector2) -> (r: Vec<LineSegment>)
        ensures
            r@ == self.facing_edges(direction),
    ;
}

/// The sweep outcomes of one vertex against each edge of `es` in order,
/// keeping the collisions (paired with the edge struck) and dropping the
/// no-collision outcomes.
pub open spec fn sweep_results_for_vertex(v: Vector2, m: Vector2, es: Seq<LineSegment>) -> Seq<
    (Collision, LineSegment),
>
    decreases es.len(),
{
    if es.len() == 0 {
        Seq::empty()
    } else {
        let init = sweep_results_for_vertex(v, m, es.drop_last());
        match sweep_spec(v, m, es.last()) {
            Ok(c) => init.push((c, es.last())),
            Err(_) => init,
        }
    }
}

/// The sweep outcomes of each vertex of `vs` (outer order) against each
/// edge of `es` (inner order), collisions only.
pub open spec fn single_direction_results(
    vs: Seq<Vector2>,
    m: Vector2,
    es: Seq<LineSegment>,
) -> Seq<(Collision, LineSegment)>
    decreases vs.len(),
{
    if vs.len() == 0 {
        Seq::empty()
    } else {
        single_direction_results(vs.drop_last(), m, es) + sweep_results_for_vertex(
            vs.last(),
            m,
            es,
        )
    }
}

/// The shape's facing vertices moved to absolute coordinates.
pub open spec fn abs_vertices<A: Collide>(
    shape: &A,
    position: Vector2,
    direction: Vector2,
) -> Seq<Vector2> {
    shape.facing_vertices(direction).map_values(|p: Vector2| spec_add(p, position))
}

/// The shape's facing edges moved to absolute coordinates.
pub open spec fn abs_edges<A: Collide>(
    shape: &A,
    position: Vector2,
    direction: Vector2,
) -> Seq<LineSegment> {
    shape.facing_edges(direction).map_values(|s: LineSegment| spec_seg_add(s, position))
}

/// The collision's payload (if any) stays within coordinate bound `b`.
pub open spec fn collision_payload_within(c: Collision, b: int) -> bool {
    match c {
        Collision::StartInsideEdge => true,
        Collision::CollidesWithEdgeAfter(v) => vec_within(v, b),
    }
}

proof fn lemma_single_direction_take_step(
    vs: Seq<Vector2>,
    m: Vector2,
    es: Seq<LineSegment>,
    i: int,
)
    requires
        0 <= i < vs.len(),
    ensures
        single_direction_results(vs.take(i + 1), m, es) == single_direction_results(
            vs.take(i),
            m,
            es,
        ) + sweep_results_for_vertex(vs[i], m, es),
{
    assert(vs.take(i + 1).drop_last() =~= vs.take(i));
    assert(vs.take(i + 1).last() == vs[i]);
}

proof fn lemma_vertex_results_take_step(v: Vector2, m: Vector2, es: Seq<LineSegment>, j: int)
    requires
        0 <= j < es.len(),
    ensures
        sweep_results_for_vertex(v, m, es.take(j + 1)) == (match sweep_spec(v, m, es[j]) {
            Ok(c) => sweep_results_for_vertex(v, m, es.take(j)).push((c, es[j])),
            Err(_) => sweep_results_for_vertex(v, m, es.take(j)),
        }),
{
    assert(es.take(j + 1).drop_last() =~= es.take(j));
    assert(es.take(j + 1).last() == es[j]);
}

/// Sweep the facing vertices of `shape` against the facing edges of
/// `other_shape`, both in absolute coordinates, and collect every
/// collision with the edge it strikes.
fn single_direction_intersections<A: Collide, B: Collide>(
    shape: &A,
    position: Vector2,
    other_shape: &B,
    other_position: Vector2,
    movement: Vector2,
    reverse_movement: Vector2,
) -> (r: Vec<(Collision, LineSegment)>)
    requires
        shape.extent_within(MAX_SHAPE_COORD as int),
        other_shape.extent_within(MAX_SHAPE_COORD as int),
        vec_within(position, MAX_SHAPE_COORD as int),
        vec_within(other_position, MAX_SHAPE_COORD as int),
        vec_in_range(movement),
    ensures
        r@ == single_direction_results(
            abs_vertices(shape, position, movement),
            movement,
            abs_edges(other_shape, other_position, reverse_movement),
        ),
        forall|i: int|
            0 <= i < r@.len() ==> collision_payload_within(
                (#[trigger] r@[i]).0,
                MAX_COORD as int + 1,
            ),
{
    let vertices = shape.vertices_facing(movement);
    let edges = other_shape.edges_facing(reverse_movement);
    let ghost avs = abs_vertices(shape, position, movement);
    let ghost aes = abs_edges(other_shape, other_position, reverse_movement);
    proof {
        shape.lemma_facing_extent(movement, MAX_SHAPE_COORD as int);
        other_shape.lemma_facing_extent(reverse_movement, MAX_SHAPE_COORD as int);
        assert(avs.len() == vertices@.len());
        assert(aes.len() == edges@.len());
    }
    let mut results: Vec<(Collision, LineSegment)> = Vec::new();
    let mut i: usize = 0;
    proof {
        assert(avs.take(0) =~= Seq::<Vector2>::empty());
    }
    while i < vertices.len()
        invariant
            shape.extent_within(MAX_SHAPE_COORD as int),
            other_shape.extent_within(MAX_SHAPE_COORD as int),
            vec_within(position, MAX_SHAPE_COORD as int),
            vec_within(other_position, MAX_SHAPE_COORD as int),
            vec_in_range(movement),
            i <= vertices.len(),
            vertices@ == shape.facing_vertices(movement),
            edges@ == other_shape.facing_edges(reverse_movement),
            avs == abs_vertices(shape, position, movement),
            aes == abs_edges(other_shape, other_position, reverse_movement),
            results@ == single_direction_results(avs.take(i as int), movement, aes),
            forall|k: int|
                0 <= k < results@.len() ==> collision_payload_within(
                    (#[trigger] results@[k]).0,
                    MAX_COORD as int + 1,
                ),
        decreases vertices.len() - i,
    {
        let rel_vertex = vertices[i];
        proof {
            shape.lemma_facing_extent(movement, MAX_SHAPE_COORD as int);
            assert(vec_within(vertices@[i as int], MAX_SHAPE_COORD as int));
        }
        let abs_vertex = rel_vertex.add(position);
        proof {
            assert(avs[i as int] == spec_add(vertices@[i as int], position));
            assert(abs_vertex == avs[i as int]);
            assert(aes.take(0) =~= Seq::<LineSegment>::empty());
        }
        let mut j: usize = 0;
        while j < edges.len()
            invariant
                shape.extent_within(MAX_SHAPE_COORD as int),
                other_shape.extent_within(MAX_SHAPE_COORD as int),
                vec_within(position, MAX_SHAPE_COORD as int),
                vec_within(other_position, MAX_SHAPE_COORD as int),
                vec_in_range(movement),
                0 <= i < vertices.len(),
                j <= edges.len(),
                vertices@ == shape.facing_vertices(movement),
                edges@ == other_shape.facing_edges(reverse_movement),
                avs == abs_vertices(shape, position, movement),
                aes == abs_edges(other_shape, other_position, reverse_movement),
                abs_vertex == avs[i as int],
                vec_in_range(abs_vertex),
                results@ == single_direction_results(avs.take(i as int), movement, aes)
                    + sweep_results_for_vertex(abs_vertex, movement, aes.take(j as int)),
                forall|k: int|
                    0 <= k < results@.len() ==> collision_payload_within(
                        (#[trigger] results@[k]).0,
                        MAX_COORD as int + 1,
                    ),
            decreases edges.len() - j,
        {
            let rel_edge = edges[j];
            proof {
                other_shape.lemma_facing_extent(reverse_movement, MAX_SHAPE_COORD as int);
                assert(vec_within(edges@[j as int].start, MAX_SHAPE_COORD as int) && vec_within(
                    edges@[j as int].end,
                    MAX_SHAPE_COORD as int,
                ));
            }
            let abs_edge = rel_edge.add_vector(other_position);
            proof {
                assert(aes[j as int] == spec_seg_add(edges@[j as int], other_position));
                assert(abs_edge == aes[j as int]);
                lemma_vertex_results_take_step(abs_vertex, movement, aes, j as int);
            }
            match vertex_moving_towards_edge(abs_vertex, movement, abs_edge) {
                Ok(collision) => {
                    results.push((collision, abs_edge));
                },
                Err(_) => (),
            }
            j = j + 1;
        }
        proof {
            assert(aes.take(edges@.len() as int) =~= aes);
            lemma_single_direction_take_step(avs, movement, aes, i as int);
        }
        i = i + 1;
    }
    proof {
        assert(avs.take(vertices@.len() as int) =~= avs);
    }
    results
}

/// Every collision between the two shapes, from both directions: the
/// moving shape's facing vertices against the stationary shape's facing
/// edges, and — by symmetry, to catch corner-into-corner contact — the
/// stationary shape's vertices against the moving shape's edges, with the
/// direction filters reversed.
pub open spec fn movement_intersections_spec<A: Collide, B: Collide>(
    shape: &A,
    position: Vector2,
    stationary_shape: &B,
    stationary_position: Vector2,
    movement: Vector2,
) -> Seq<(Collision, LineSegment)> {
    let rev = spec_neg(movement);
    single_direction_results(
        abs_vertices(shape, position, movement),
        movement,
        abs_edges(stationary_shape, stationary_position, rev),
    ) + single_direction_results(
        abs_vertices(stationary_shape, stationary_position, rev),
        rev,
        abs_edges(shape, position, movement),
    )
}

/// Collect every collision between the moving shape and the stationary
/// one, in the fixed enumeration order of `movement_intersections_spec`.
pub fn movement_intersections<A: Collide, B: Collide>(
    shape: &A,
    position: Vector2,
    stationary_shape: &B,
    stationary_position: Vector2,
    movement: Vector2,
) -> (r: Vec<(Collision, LineSegment)>)
    requires
        shape.extent_within(MAX_SHAPE_COORD as int),
        stationary_shape.extent_within(MAX_SHAPE_COORD as int),
        vec_within(position, MAX_SHAPE_COORD as int),
        vec_within(stationary_position, MAX_SHAPE_COORD as int),
        vec_in_range(movement),
    ensures
        r@ == movement_intersections_spec(
            shape,
            position,
            stationary_shape,
            stationary_position,
            movement,
        ),
        forall|i: int|
            0 <= i < r@.len() ==> collision_payload_within(
                (#[trigger] r@[i]).0,
                MAX_COORD as int + 1,
            ),
{
    let reverse_movement = movement.neg();
    proof {
        assert(reverse_movement == spec_neg(movement));
    }
    let mut results = single_direction_intersections(
        shape,
        position,
        stationary_shape,
        stationary_position,
        movement,
        reverse_movement,
    );
    let mut second = single_direction_intersections(
        stationary_shape,
        stationary_position,
        shape,
        position,
        reverse_movement,
        movement,
    );
    results.append(&mut second);
    results
}

/// The squared magnitude of the movement a collision allows: zero when the
/// vertex already starts on the edge.
pub open spec fn collision_mag2(c: Collision) -> int {
    match c {
        Collision::StartInsideEdge => 0,
        Collision::CollidesWithEdgeAfter(v) => spec_magnitude2(v),
    }
}

/// The winning candidate of the query's fold: the (squared magnitude,
/// candidate index) pair left after inserting every candidate in order
/// with less-or-equal insertion, so that the smallest key wins and among
/// equal keys the latest candidate wins.
pub open spec fn best_result(cands: Seq<(Collision, LineSegment)>) -> Option<(int, int)>
    decreases cands.len(),
{
    if cands.len() == 0 {
        None
    } else {
        let k = collision_mag2(cands.last().0);
        let i = cands.len() - 1;
        match best_result(cands.drop_last()) {
            None => Some((k, i as int)),
            Some((k0, i0)) => if k <= k0 {
                Some((k, i as int))
            } else {
                Some((k0, i0))
            },
        }
    }
}

/// The winner's squared-magnitude key (meaningful when a winner exists).
pub open spec fn best_key(cands: Seq<(Collision, LineSegment)>) -> int {
    match best_result(cands) {
        Some(p) => p.0,
        None => 0,
    }
}

/// The winner's candidate index (meaningful when a winner exists).
pub open spec fn best_index(cands: Seq<(Collision, LineSegment)>) -> int {
    match best_result(cands) {
        Some(p) => p.1,
        None => 0,
    }
}

proof fn lemma_best_result_take_step(cands: Seq<(Collision, LineSegment)>, i: int)
    requires
        0 <= i < cands.len(),
    ensures
        best_result(cands.take(i + 1)) == (match best_result(cands.take(i)) {
            None => Some((collision_mag2(cands[i].0), i)),
            Some((k0, i0)) => if collision_mag2(cands[i].0) <= k0 {
                Some((collision_mag2(cands[i].0), i))
            } else {
                Some((k0, i0))
            },
        }),
{
    assert(cands.take(i + 1).drop_last() =~= cands.take(i));
    assert(cands.take(i + 1).last() == cands[i]);
}

/// The law of the query's tie-break: the fold's winner is a real
/// candidate, its key is that candidate's squared magnitude, no candidate
/// has a smaller key, and every later candidate has a strictly greater key
/// — the smallest squared magnitude wins and among equal keys the latest
/// candidate is retained.
pub proof fn lemma_best_result_min(cands: Seq<(Collision, LineSegment)>)
    requires
        cands.len() > 0,
    ensures
        best_result(cands) is Some,
        0 <= best_index(cands) < cands.len(),
        best_key(cands) == collision_mag2(cands[best_index(cands)].0),
        forall|j: int|
            0 <= j < cands.len() ==> collision_mag2((#[trigger] cands[j]).0) >= best_key(cands),
        forall|j: int|
            best_index(cands) < j < cands.len() ==> collision_mag2((#[trigger] cands[j]).0)
                > best_key(cands),
    decreases cands.len(),
{
    let last_k = collision_mag2(cands.last().0);
    if cands.len() == 1 {
        assert(cands.drop_last().len() == 0);
        assert(best_result(cands) == Some((last_k, 0int)));
        assert(cands[0] == cands.last());
    } else {
        let prev = cands.drop_last();
        lemma_best_result_min(prev);
        let k0 = best_key(prev);
        let i0 = best_index(prev);
        assert(forall|j: int| 0 <= j < prev.len() ==> (#[trigger] cands[j]) == prev[j]);
        assert(cands.last() == cands[cands.len() - 1]);
        if last_k <= k0 {
            assert(best_result(cands) == Some((last_k, cands.len() - 1)));
        } else {
            assert(best_result(cands) == Some((k0, i0)));
            assert(cands[i0] == prev[i0]);
        }
    }
}

/// The winning result of a shape-pair query: the squared magnitude of the
/// allowed movement, and the contacted edge in absolute coordinates.
#[derive(Clone, Copy, Debug, PartialEq, Eq, Structural)]
pub struct CollisionInfo {
    pub magnitude2: i64,
    pub line_segment: LineSegment,
}

/// Find the earliest contact between the moving shape and the stationary
/// one: every candidate collision from both directions is folded into the
/// single best result, keyed by squared magnitude of the allowed movement.
/// Yields nothing exactly when no vertex/edge pair collides; among equal
/// keys the latest-enumerated candidate is retained.
pub fn movement_collision_test<A: Collide, B: Collide>(
    shape: &A,
    position: Vector2,
    stationary_shape: &B,
    stationary_position: Vector2,
    movement: Vector2,
) -> (r: Option<CollisionInfo>)
    requires
        shape.extent_within(MAX_SHAPE_COORD as int),
        stationary_shape.extent_within(MAX_SHAPE_COORD as int),
        vec_within(position, MAX_SHAPE_COORD as int),
        vec_within(stationary_position, MAX_SHAPE_COORD as int),
        vec_in_range(movement),
    ensures
        ({
            let cands = movement_intersections_spec(
                shape,
                position,
                stationary_shape,
                stationary_position,
                movement,
            );
            &&& (r is None <==> cands.len() == 0)
            &&& (r matches Some(info) ==> {
                &&& best_result(cands) is Some
                &&& info.magnitude2 == best_key(cands)
                &&& 0 <= best_index(cands) < cands.len()
                &&& info.line_segment == cands[best_index(cands)].1
            })
        }),
{
    let cands = movement_intersections(
        shape,
        position,
        stationary_shape,
        stationary_position,
        movement,
    );
    let ghost gcands = cands@;
    let mut best = crate::best_map::best_map_new();
    let mut idx: usize = 0;
    proof {
        assert(gcands.take(0) =~= Seq::<(Collision, LineSegment)>::empty());
    }
    while idx < cands.len()
        invariant
            idx <= cands.len(),
            gcands == cands@,
            forall|i: int|
                0 <= i < gcands.len() ==> collision_payload_within(
                    (#[trigger] gcands[i]).0,
                    MAX_COORD as int + 1,
                ),
            match best_result(gcands.take(idx as int)) {
                None => crate::best_map::best_map_entry(best).len() == 0,
                Some((k, i)) => {
                    &&& crate::best_map::best_map_entry(best).len() == 1
                    &&& crate::best_map::best_map_entry(best)[0].0 == k
                    &&& crate::best_map::best_map_entry(best)[0].1 == i
                },
            },
        decreases cands.len() - idx,
    {
        let (c, _edge) = cands[idx];
        let mag2: i64 = match c {
            Collision::StartInsideEdge => 0,
            Collision::CollidesWithEdgeAfter(allowed) => crate::physics_num::magnitude2(allowed),
        };
        proof {
            assert(collision_payload_within(gcands[idx as int].0, MAX_COORD as int + 1));
            lemma_best_result_take_step(gcands, idx as int);
        }
        crate::best_map::best_map_insert_le(&mut best, mag2, idx);
        idx = idx + 1;
    }
    proof {
        assert(gcands.take(cands@.len() as int) =~= gcands);
        if gcands.len() > 0 {
            lemma_best_result_min(gcands);
        }
    }
    match crate::best_map::best_map_into_key_and_value(best) {
        Some((magnitude2, index)) => {
            let line_segment = cands[index].1;
            Some(CollisionInfo { magnitude2, line_segment })
        },
        None => None,
    }
}

/// The closed set of concrete shape variants. A moving line segment is an
/// intentional incompleteness of the query: it is refused loudly (by
/// precondition here, where the unverified original aborted), never
/// silently reported as "no collision".
#[derive(Clone, Copy, Debug, PartialEq, Eq, Structural)]
pub enum Shape {
    AxisAlignedRect(crate::axis_aligned_rect::AxisAlignedRect),
    LineSegment(LineSegment),
}

/// Every coordinate the shape can produce has magnitude at most `b`.
pub open spec fn shape_extent_within(s: Shape, b: int) -> bool {
    match s {
        Shape::AxisAlignedRect(r) => r.extent_within(b),
        Shape::LineSegment(l) => l.extent_within(b),
    }
}

/// What the shape asks of an anchor for its bounding box.
pub open spec fn shape_aabb_req(s: Shape, top_left: Vector2) -> bool {
    match s {
        Shape::AxisAlignedRect(r) => r.aabb_req(top_left),
        Shape::LineSegment(l) => l.aabb_req(top_left),
    }
}

/// The shape's bounding box at `top_left`.
pub open spec fn spec_shape_aabb(s: Shape, top_left: Vector2) -> Aabb {
    match s {
        Shape::AxisAlignedRect(r) => r.spec_aabb(top_left),
        Shape::LineSegment(l) => l.spec_aabb(top_left),
    }
}

/// The candidate collisions of a shape pair, by variant dispatch. A moving
/// line segment is outside the query's domain.
pub open spec fn shape_pair_candidates(
    s: Shape,
    position: Vector2,
    stationary: Shape,
    stationary_position: Vector2,
    movement: Vector2,
) -> Seq<(Collision, LineSegment)> {
    match (s, stationary) {
        (Shape::AxisAlignedRect(moving), Shape::AxisAlignedRect(stat)) => movement_intersections_spec(
            &moving,
            position,
            &stat,
            stationary_position,
            movement,
        ),
        (Shape::AxisAlignedRect(moving), Shape::LineSegment(stat)) => movement_intersections_spec(
            &moving,
            position,
            &stat,
            stationary_position,
            movement,
        ),
        _ => Seq::empty(),
    }
}

impl Shape {
    /// Tight bounding box of the shape translated to `top_left`.
    pub fn aabb(&self, top_left: Vector2) -> (r: Aabb)
        requires
            shape_aabb_req(*self, top_left),
        ensures
            r == spec_shape_aabb(*self, top_left),
            aabb_wf(r),
    {
        match self {
            Shape::AxisAlignedRect(rect) => rect.aabb(top_left),
            Shape::LineSegment(line_segment) => line_segment.aabb(top_left),
        }
    }

    /// The shape-pair movement-collision query, dispatched over the closed
    /// variant set. The moving shape must not be a line segment: that
    /// combination is intentionally unsupported and refused up front.
    pub fn movement_collision_test(
        &self,
        position: Vector2,
        stationary: &Shape,
        stationary_position: Vector2,
        movement_vector: Vector2,
    ) -> (r: Option<CollisionInfo>)
        requires
            !(self is LineSegment),
            shape_extent_within(*self, MAX_SHAPE_COORD as int),
            shape_extent_within(*stationary, MAX_SHAPE_COORD as int),
            vec_within(position, MAX_SHAPE_COORD as int),
            vec_within(stationary_position, MAX_SHAPE_COORD as int),
            vec_in_range(movement_vector),
        ensures
            ({
                let cands = shape_pair_candidates(
                    *self,
                    position,
                    *stationary,
                    stationary_position,
                    movement_vector,
                );
                &&& (r is None <==> cands.len() == 0)
                &&& (r matches Some(info) ==> {
                    &&& best_result(cands) is Some
                    &&& info.magnitude2 == best_key(cands)
                    &&& 0 <= best_index(cands) < cands.len()
                    &&& info.line_segment == cands[best_index(cands)].1
                })
            }),
    {
        match self {
            Shape::AxisAlignedRect(moving) => match stationary {
                Shape::AxisAlignedRect(stat) => movement_collision_test(
                    moving,
                    position,
                    stat,
                    stationary_position,
                    movement_vector,
                ),
                Shape::LineSegment(stat) => movement_collision_test(
                    moving,
                    position,
                    stat,
                    stationary_position,
                    movement_vector,
                ),
            },
            Shape::LineSegment(_) => unreached(),
        }
    }
}

} // verus!
