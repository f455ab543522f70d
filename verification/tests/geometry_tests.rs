use swept_collision::aabb::Aabb;
use swept_collision::game::{EntityIdAllocator, InputModel};
use swept_collision::physics_num::{clamp, dot, magnitude2, two, PhysicsNum};
use swept_collision::pixel_num::{PixelI64, SubPixelI64};
use swept_collision::vector2::Vector2;

fn v(x: i64, y: i64) -> Vector2 {
    Vector2::new(x, y)
}

#[test]
fn union_is_symmetric_and_contains_both() {
    let a = Aabb::new(v(0, 0), v(10, 20));
    let b = Aabb::new(v(-5, 7), v(3, 40));
    let u1 = a.union(&b);
    let u2 = b.union(&a);
    assert_eq!(u1, u2);
    assert_eq!(u1, Aabb::new(v(-5, 0), v(15, 47)));
    assert!(u1.is_intersecting(&a));
    assert!(u1.is_intersecting(&b));
}

#[test]
fn split_four_rejoins_even_sizes() {
    let a = Aabb::new(v(4, 6), v(10, 8));
    let parts = a.split_four();
    assert_eq!(parts.top_left, Aabb::new(v(4, 6), v(5, 4)));
    assert_eq!(parts.top_right, Aabb::new(v(9, 6), v(5, 4)));
    assert_eq!(parts.bottom_left, Aabb::new(v(4, 10), v(5, 4)));
    assert_eq!(parts.bottom_right, Aabb::new(v(9, 10), v(5, 4)));
    let rejoined = parts
        .top_left
        .union(&parts.top_right)
        .union(&parts.bottom_left)
        .union(&parts.bottom_right);
    assert_eq!(rejoined, a);
}

#[test]
fn split_four_truncates_odd_sizes() {
    // An odd size halves toward zero, so the quarters undercover the box
    // by exactly one unit on that axis.
    let a = Aabb::new(v(0, 0), v(9, 7));
    let parts = a.split_four();
    let rejoined = parts
        .top_left
        .union(&parts.top_right)
        .union(&parts.bottom_left)
        .union(&parts.bottom_right);
    assert_eq!(rejoined, Aabb::new(v(0, 0), v(8, 6)));
}

#[test]
fn intersection_is_inclusive_at_touching_edges() {
    let a = Aabb::new(v(0, 0), v(10, 10));
    let touching = Aabb::new(v(10, 0), v(5, 10));
    let apart = Aabb::new(v(11, 0), v(5, 10));
    assert!(a.is_intersecting(&touching));
    assert!(touching.is_intersecting(&a));
    assert!(!a.is_intersecting(&apart));
}

#[test]
fn centred_construction_and_doubling() {
    let a = Aabb::from_centre_and_half_size(v(10, 10), v(3, 4));
    assert_eq!(a, Aabb::new(v(7, 6), v(6, 8)));
    let doubled = a.double_about_centre();
    assert_eq!(doubled, Aabb::new(v(4, 2), v(12, 16)));
    assert_eq!(a.centre(), v(10, 10));
}

#[test]
fn vector_arithmetic() {
    assert_eq!(v(1, 2).add(v(10, 20)), v(11, 22));
    assert_eq!(v(1, 2).sub(v(10, 20)), v(-9, -18));
    assert_eq!(v(1, -2).neg(), v(-1, 2));
    assert_eq!(v(3, -4).scale(5), v(15, -20));
    assert_eq!(magnitude2(v(3, 4)), 25);
    assert_eq!(dot(v(1, 2), v(3, 4)), 11);
}

#[test]
fn scalar_contract_on_i64() {
    assert_eq!(two::<i64>(), 2);
    assert_eq!(clamp(7i64, 0, 5), 5);
    assert_eq!(clamp(-7i64, 0, 5), 0);
    assert_eq!(clamp(3i64, 0, 5), 3);
    assert_eq!(PhysicsNum::div(-7i64, 2), -3);
    assert_eq!(PhysicsNum::div(7i64, -2), -3);
    assert_eq!(PhysicsNum::div(-7i64, -2), 3);
    assert_eq!(PhysicsNum::abs(-9i64), 9);
    assert_eq!(PhysicsNum::signum(-9i64), -1);
    assert_eq!(PhysicsNum::signum(0i64), 0);
    assert_eq!(PhysicsNum::min(4i64, -1), -1);
    assert_eq!(PhysicsNum::max(4i64, -1), 4);
    assert_eq!(3i64.clamp_zero_one(), 1);
}

#[test]
fn pixel_granularity_conversion() {
    // 256 sub-pixel units make one pixel; conversion truncates toward zero.
    assert_eq!(SubPixelI64::new(700).approx_pixel(), PixelI64::new(2));
    assert_eq!(SubPixelI64::new(-700).approx_pixel(), PixelI64::new(-2));
    assert_eq!(SubPixelI64::new(255).approx_pixel(), PixelI64::new(0));
    assert_eq!(SubPixelI64::new(-255).approx_pixel(), PixelI64::new(0));
    assert_eq!(SubPixelI64::new(300).clamp_zero_one_pixel(), SubPixelI64::new(256));
    assert_eq!(SubPixelI64::new(-3).clamp_zero_one_pixel(), SubPixelI64::new(0));
    assert_eq!(SubPixelI64::new(77).clamp_zero_one_pixel(), SubPixelI64::new(77));
    assert_eq!(SubPixelI64::new(2).mul(SubPixelI64::new(3)), SubPixelI64::new(6));
    assert_eq!(PixelI64::new(9).sub(PixelI64::new(4)), PixelI64::new(5));
}

#[test]
fn input_model_clamps_and_combines() {
    let mut input = InputModel::default();
    assert_eq!(input.horizontal(), SubPixelI64::new(0));
    input.set_right(SubPixelI64::new(1000));
    input.set_left(SubPixelI64::new(-50));
    input.set_down(SubPixelI64::new(100));
    input.set_up(SubPixelI64::new(30));
    assert_eq!(input.horizontal(), SubPixelI64::new(256));
    assert_eq!(input.vertical(), SubPixelI64::new(70));
}

#[test]
fn entity_id_allocation() {
    let mut allocator = EntityIdAllocator::default();
    assert_eq!(allocator.allocate(), 0);
    assert_eq!(allocator.allocate(), 1);
    assert_eq!(allocator.allocate(), 2);
    allocator.reset();
    assert_eq!(allocator.allocate(), 0);
}
