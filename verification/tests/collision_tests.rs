use swept_collision::collision::{vertex_moving_towards_edge, Collision, NoCollision};
use swept_collision::line_segment::LineSegment;
use swept_collision::vector2::Vector2;

fn v(x: i64, y: i64) -> Vector2 {
    Vector2::new(x, y)
}

fn ls(start: Vector2, end: Vector2) -> LineSegment {
    LineSegment::new(start, end)
}

#[test]
fn basic() {
    assert_eq!(
        vertex_moving_towards_edge(v(0, 0), v(3, 3), ls(v(0, 4), v(4, 0))),
        Ok(Collision::CollidesWithEdgeAfter(v(1, 1)))
    );
    assert_eq!(
        vertex_moving_towards_edge(v(0, 0), v(3, 3), ls(v(0, 5), v(5, 0))),
        Ok(Collision::CollidesWithEdgeAfter(v(2, 2)))
    );
    assert_eq!(
        vertex_moving_towards_edge(v(0, 0), v(2, 2), ls(v(0, 5), v(5, 0))),
        Err(NoCollision::NonParallelNonIntersecting)
    );
}

#[test]
fn parallel() {
    assert_eq!(
        vertex_moving_towards_edge(v(0, 0), v(2, 1), ls(v(1, 1), v(3, 2))),
        Err(NoCollision::ParallelNonColinear)
    );
    assert_eq!(
        vertex_moving_towards_edge(v(0, 0), v(2, 1), ls(v(4, 2), v(8, 4))),
        Err(NoCollision::ColinearNonOverlapping)
    );
    assert_eq!(
        vertex_moving_towards_edge(v(0, 0), v(2, 1), ls(v(2, 1), v(8, 4))),
        Ok(Collision::CollidesWithEdgeAfter(v(1, 0)))
    );
    assert_eq!(
        vertex_moving_towards_edge(v(2, 1), v(2, 1), ls(v(0, 0), v(8, 4))),
        Ok(Collision::StartInsideEdge)
    );
}

#[test]
fn perpendicular() {
    assert_eq!(
        vertex_moving_towards_edge(v(0, 0), v(10, 0), ls(v(5, 5), v(5, -5))),
        Ok(Collision::CollidesWithEdgeAfter(v(4, 0)))
    );
}

#[test]
fn zero_movement_reports_start_inside() {
    // With no movement the sweep degenerates to the colinear branch and
    // never returns a nonzero allowed movement.
    assert_eq!(
        vertex_moving_towards_edge(v(0, 0), v(0, 0), ls(v(5, 5), v(6, 6))),
        Ok(Collision::StartInsideEdge)
    );
    assert_eq!(
        vertex_moving_towards_edge(v(3, 3), v(0, 0), ls(v(0, 4), v(4, 0))),
        Ok(Collision::StartInsideEdge)
    );
}

#[test]
fn start_exactly_on_edge_general_branch() {
    // A vertex sitting exactly on a non-parallel edge reports contact at
    // the start, not a movement.
    assert_eq!(
        vertex_moving_towards_edge(v(1, 1), v(1, 0), ls(v(0, 4), v(4, 0))),
        Err(NoCollision::NonParallelNonIntersecting)
    );
    assert_eq!(
        vertex_moving_towards_edge(v(2, 2), v(1, 1), ls(v(0, 4), v(4, 0))),
        Ok(Collision::StartInsideEdge)
    );
}

#[test]
fn epsilon_stops_one_unit_short() {
    // Movement (256, 0) sub-pixels toward a wall 256 units away: allowed
    // movement stops at 255, one raw unit before contact.
    assert_eq!(
        vertex_moving_towards_edge(v(0, 0), v(256, 0), ls(v(256, -128), v(256, 128))),
        Ok(Collision::CollidesWithEdgeAfter(v(255, 0)))
    );
}
