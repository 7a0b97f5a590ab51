//! The open quad intersection test and its boundary.

use pong_core::Quad;
use pong_core::Vec2;

fn quad_at(x: i64, y: i64, w: i64, h: i64) -> Quad {
    Quad::new(Vec2::new(x, y), Vec2::new(w, h))
}

#[test]
fn centers_exactly_half_width_apart_do_not_intersect() {
    // Half-width sum is 25_000 + 25_000 = 50_000.
    let a = quad_at(0, 0, 50_000, 50_000);
    let b = quad_at(50_000, 0, 50_000, 50_000);
    assert!(!a.interects(&b));
    let c = quad_at(50_000, 30_000, 50_000, 50_000);
    assert!(!a.interects(&c));
}

#[test]
fn centers_one_step_closer_do_intersect() {
    let a = quad_at(0, 0, 50_000, 50_000);
    let b = quad_at(49_999, 0, 50_000, 50_000);
    assert!(a.interects(&b));
}

#[test]
fn touching_on_y_does_not_intersect() {
    // Half-height sum is 100_000 + 25_000 = 125_000.
    let paddle = quad_at(0, 0, 50_000, 200_000);
    let ball = quad_at(0, 125_000, 50_000, 50_000);
    assert!(!paddle.interects(&ball));
    let ball_in = quad_at(0, 124_999, 50_000, 50_000);
    assert!(paddle.interects(&ball_in));
}

#[test]
fn quad_overlaps_itself() {
    let a = quad_at(-7000, 4000, 10_000, 20_000);
    assert!(a.interects(&a));
}
