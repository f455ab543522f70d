use swept_collision::axis_aligned_rect::AxisAlignedRect;
use swept_collision::line_segment::LineSegment;
use swept_collision::shape::{CollisionInfo, Shape};
use swept_collision::vector2::Vector2;

fn v(x: i64, y: i64) -> Vector2 {
    Vector2::new(x, y)
}

fn ls(start: Vector2, end: Vector2) -> LineSegment {
    LineSegment::new(start, end)
}

#[test]
fn rect_into_diagonal_segment() {
    // A 10x10 rectangle moving (20, 20) toward a diagonal wall: the
    // bottom-right corner strikes first, allowed movement (4, 4).
    let moving = Shape::AxisAlignedRect(AxisAlignedRect::new(v(10, 10)));
    let wall = Shape::LineSegment(ls(v(25, 5), v(5, 25)));
    let result = moving.movement_collision_test(v(0, 0), &wall, v(0, 0), v(20, 20));
    assert_eq!(
        result,
        Some(CollisionInfo { magnitude2: 32, line_segment: ls(v(25, 5), v(5, 25)) })
    );
}

#[test]
fn rect_far_from_segment_reports_nothing() {
    let moving = Shape::AxisAlignedRect(AxisAlignedRect::new(v(10, 10)));
    let wall = Shape::LineSegment(ls(v(25, 5), v(5, 25)));
    let result = moving.movement_collision_test(v(0, 0), &wall, v(0, 0), v(1, 1));
    assert_eq!(result, None);
}

#[test]
fn rect_vs_rect_tie_breaks_to_latest_candidate() {
    // Sliding a 10x10 rectangle straight right into another one 15 units
    // away: several vertex/edge pairs allow the same movement (14, 0)
    // (squared magnitude 196). Among equal keys the latest-enumerated
    // candidate wins, which is the bottom-right vertex against the
    // stationary rectangle's left edge.
    let moving = Shape::AxisAlignedRect(AxisAlignedRect::new(v(10, 10)));
    let stationary = Shape::AxisAlignedRect(AxisAlignedRect::new(v(10, 10)));
    let result = moving.movement_collision_test(v(0, 0), &stationary, v(25, 0), v(20, 0));
    assert_eq!(
        result,
        Some(CollisionInfo { magnitude2: 196, line_segment: ls(v(25, 10), v(25, 0)) })
    );
}

#[test]
fn overlapping_rects_report_zero_movement() {
    // Already-overlapping rectangles: some vertex starts on (or inside)
    // the other's boundary interval, so the earliest contact is at zero.
    let moving = Shape::AxisAlignedRect(AxisAlignedRect::new(v(10, 10)));
    let stationary = Shape::AxisAlignedRect(AxisAlignedRect::new(v(10, 10)));
    let result = moving.movement_collision_test(v(0, 0), &stationary, v(10, 0), v(5, 0));
    let info = result.expect("touching rectangles must report a contact");
    assert_eq!(info.magnitude2, 0);
}

#[test]
fn shape_aabb_of_both_variants() {
    let rect = Shape::AxisAlignedRect(AxisAlignedRect::new(v(10, 20)));
    let rect_box = rect.aabb(v(5, 6));
    assert_eq!(rect_box.size(), v(10, 20));
    let seg = Shape::LineSegment(ls(v(4, 9), v(-2, 3)));
    let seg_box = seg.aabb(v(10, 10));
    assert_eq!(seg_box.size(), v(6, 6));
    let expected = swept_collision::aabb::Aabb::new(v(8, 13), v(6, 6));
    assert_eq!(seg_box, expected);
}
