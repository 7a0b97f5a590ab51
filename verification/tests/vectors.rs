//! Vector arithmetic, integer square root, and normalization.

use pong_core::Vec2;
use pong_core::Vec2i;
use pong_core::vec2::isqrt;

#[test]
fn isqrt_exact_squares() {
    assert_eq!(isqrt(0), 0);
    assert_eq!(isqrt(1), 1);
    assert_eq!(isqrt(24), 4);
    assert_eq!(isqrt(25), 5);
    assert_eq!(isqrt(1_000_000_000_000), 1_000_000);
}

#[test]
fn isqrt_rounds_down() {
    assert_eq!(isqrt(2), 1);
    assert_eq!(isqrt(2_000_000_000_000), 1_414_213);
    assert_eq!(isqrt(9_223_372_036_854_775_807), 3_037_000_499);
}

#[test]
fn new_and_zero() {
    let v = Vec2::new(3, -4);
    assert_eq!(v.x, 3);
    assert_eq!(v.y, -4);
    let z = Vec2::zero();
    assert_eq!(z.x, 0);
    assert_eq!(z.y, 0);
}

#[test]
fn scaled_multiplies_componentwise() {
    let v = Vec2::new(3, -4).scaled(20);
    assert_eq!(v.x, 60);
    assert_eq!(v.y, -80);
}

#[test]
fn plus_adds_componentwise() {
    let v = Vec2::new(100, -50).plus(Vec2::new(-30, 20));
    assert_eq!(v.x, 70);
    assert_eq!(v.y, -30);
}

#[test]
fn vec2i_scaled_enters_fixed_point() {
    let v = Vec2i::new(800, 500).scaled(1000);
    assert_eq!(v.x, 800_000);
    assert_eq!(v.y, 500_000);
}

#[test]
fn normalize_three_four_five() {
    let mut v = Vec2::new(3000, 4000);
    let r = v.normalize();
    assert_eq!(v.x, 600);
    assert_eq!(v.y, 800);
    assert_eq!(r, v);
}

#[test]
fn normalize_negative_components() {
    let mut v = Vec2::new(-3000, 4000);
    v.normalize();
    assert_eq!(v.x, -600);
    assert_eq!(v.y, 800);
}

#[test]
fn normalize_zero_is_noop() {
    let mut v = Vec2::zero();
    v.normalize();
    assert_eq!(v.x, 0);
    assert_eq!(v.y, 0);
}

#[test]
fn normalize_unit_vector_is_fixed() {
    let mut v = Vec2::new(-1000, 0);
    v.normalize();
    assert_eq!(v.x, -1000);
    assert_eq!(v.y, 0);
}

#[test]
fn normalize_forty_five_degrees() {
    let mut v = Vec2::new(1000, -1000);
    v.normalize();
    assert_eq!(v.x, 707);
    assert_eq!(v.y, -707);
}

#[test]
fn normalize_magnitude_near_unit() {
    let mut v = Vec2::new(1234, 987_654);
    v.normalize();
    let sq = v.x * v.x + v.y * v.y;
    assert!(995_998 <= sq && sq <= 1_002_000);
}
