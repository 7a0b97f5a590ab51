//! The simulation: clock accumulation, the tick pipeline, scoring, the
//! opponent controller, and input mapping.

use pong_core::Entity;
use pong_core::GameState;
use pong_core::InputEvent;
use pong_core::Quad;
use pong_core::Vec2;
use pong_core::game::TICK_NANOS;

/// A timestamp safely past one tick.
const ONE_TICK: u64 = TICK_NANOS + 1_000_000;

#[test]
fn entity_add_position_translates() {
    let mut e = Entity {
        quad: Quad::new(Vec2::new(5, 6), Vec2::new(10, 10)),
        dir: Vec2::zero(),
    };
    e.add_position(Vec2::new(100, -200));
    assert_eq!(e.quad.pos.x, 105);
    assert_eq!(e.quad.pos.y, -194);
    assert_eq!(e.quad.size.x, 10);
    assert_eq!(e.dir.x, 0);
}

#[test]
fn new_initial_state() {
    let s = GameState::new(5);
    assert_eq!(s.player.quad.pos.x, -700_000);
    assert_eq!(s.player.quad.pos.y, 0);
    assert_eq!(s.com.quad.pos.x, 700_000);
    assert_eq!(s.com.quad.pos.y, 0);
    assert_eq!(s.ball.quad.pos.x, 0);
    assert_eq!(s.ball.quad.pos.y, 0);
    assert_eq!(s.ball.dir.x, -1000);
    assert_eq!(s.ball.dir.y, 0);
    assert_eq!(s.player.quad.size.x, 50_000);
    assert_eq!(s.player.quad.size.y, 200_000);
    assert_eq!(s.ball.quad.size.x, 50_000);
    assert_eq!(s.ball.quad.size.y, 50_000);
    assert_eq!(s.score, 0);
    assert_eq!(s.previous_time, 5);
    assert_eq!(s.tick, 0);
}

#[test]
fn update_accumulates_without_tick() {
    let mut s = GameState::new(0);
    s.update(10_000_000);
    assert_eq!(s.tick, 10_000_000);
    assert_eq!(s.previous_time, 10_000_000);
    assert_eq!(s.ball.quad.pos.x, 0);
    assert_eq!(s.player.quad.pos.y, 0);
}

#[test]
fn update_fires_one_tick_past_threshold() {
    let mut s = GameState::new(0);
    s.update(ONE_TICK);
    assert_eq!(s.tick, ONE_TICK - TICK_NANOS);
    // The ball moved one tick leftward at 20 units.
    assert_eq!(s.ball.quad.pos.x, -20_000);
    assert_eq!(s.ball.quad.pos.y, 0);
}

#[test]
fn update_caps_at_one_tick_per_call() {
    let mut s = GameState::new(0);
    // A long stall: many ticks' worth of time, but only one tick runs and
    // the backlog is carried forward.
    s.update(100_000_000);
    assert_eq!(s.tick, 100_000_000 - TICK_NANOS);
    assert_eq!(s.ball.quad.pos.x, -20_000);
}

#[test]
fn update_split_equals_direct() {
    // Feeding elapsed time in one call or split across two calls with the
    // same total yields the same state, when the first call fires no tick.
    let mut split = GameState::new(0);
    split.update(8_000_000);
    split.update(ONE_TICK);
    let mut direct = GameState::new(0);
    direct.update(ONE_TICK);
    assert_eq!(split, direct);
}

#[test]
fn update_deterministic_on_equal_states() {
    let mut a = GameState::new(0);
    let mut b = GameState::new(0);
    for i in 1..20u64 {
        a.update(i * TICK_NANOS);
        b.update(i * TICK_NANOS);
    }
    assert_eq!(a, b);
}

#[test]
fn paddle_moves_up_and_clamps() {
    let mut s = GameState::new(0);
    assert!(s.input(InputEvent::UpPressed));
    s.update(ONE_TICK);
    assert_eq!(s.player.quad.pos.y, 9_000);
    // Push the paddle near the top edge: the clamp holds it at the band.
    s.player.quad.pos.y = 395_000;
    s.update(2 * ONE_TICK);
    assert_eq!(s.player.quad.pos.y, 400_000);
    s.update(3 * ONE_TICK);
    assert_eq!(s.player.quad.pos.y, 400_000);
}

#[test]
fn paddle_moves_down_and_clamps() {
    let mut s = GameState::new(0);
    assert!(s.input(InputEvent::DownPressed));
    s.update(ONE_TICK);
    assert_eq!(s.player.quad.pos.y, -9_000);
    s.player.quad.pos.y = -395_000;
    s.update(2 * ONE_TICK);
    assert_eq!(s.player.quad.pos.y, -400_000);
}

#[test]
fn input_mapping() {
    let mut s = GameState::new(0);
    assert!(s.input(InputEvent::UpPressed));
    assert_eq!(s.player.dir.x, 0);
    assert_eq!(s.player.dir.y, 1000);
    assert!(s.input(InputEvent::DownPressed));
    assert_eq!(s.player.dir.y, -1000);
    // A confirm press is reported but leaves the intent alone.
    assert!(s.input(InputEvent::ConfirmPressed));
    assert_eq!(s.player.dir.y, -1000);
    // Any other event clears the intent and is not handled.
    assert!(!s.input(InputEvent::Other));
    assert_eq!(s.player.dir.x, 0);
    assert_eq!(s.player.dir.y, 0);
}

#[test]
fn scoring_right_boundary() {
    let mut s = GameState::new(0);
    s.ball.quad.pos = Vec2::new(840_000, 0);
    s.ball.dir = Vec2::new(1000, 0);
    s.update(ONE_TICK);
    // 840_000 + 20_000 crosses the 850_000 boundary: one point, reset,
    // serve leftward.
    assert_eq!(s.score, 1);
    assert_eq!(s.ball.quad.pos.x, 0);
    assert_eq!(s.ball.quad.pos.y, 0);
    assert_eq!(s.ball.dir.x, -1000);
    assert_eq!(s.ball.dir.y, 0);
}

#[test]
fn left_boundary_serves_without_scoring() {
    let mut s = GameState::new(0);
    s.ball.quad.pos = Vec2::new(-840_000, 0);
    s.ball.dir = Vec2::new(-1000, 0);
    s.update(ONE_TICK);
    assert_eq!(s.score, 0);
    assert_eq!(s.ball.quad.pos.x, 0);
    assert_eq!(s.ball.quad.pos.y, 0);
    assert_eq!(s.ball.dir.x, 1000);
    assert_eq!(s.ball.dir.y, 0);
}

#[test]
fn ball_at_boundary_does_not_score() {
    let mut s = GameState::new(0);
    s.ball.quad.pos = Vec2::new(830_000, 0);
    s.ball.dir = Vec2::new(1000, 0);
    s.update(ONE_TICK);
    // Landing exactly on the boundary is not a crossing.
    assert_eq!(s.score, 0);
    assert_eq!(s.ball.quad.pos.x, 850_000);
}

#[test]
fn wall_bounce_top() {
    let mut s = GameState::new(0);
    s.ball.quad.pos = Vec2::new(0, 460_000);
    s.ball.dir = Vec2::new(600, 800);
    s.update(ONE_TICK);
    // Beyond the top band the vertical direction flips, x is unchanged,
    // and the ball moves within the same tick.
    assert_eq!(s.ball.dir.x, 600);
    assert_eq!(s.ball.dir.y, -800);
    assert_eq!(s.ball.quad.pos.x, 12_000);
    assert_eq!(s.ball.quad.pos.y, 444_000);
}

#[test]
fn wall_bounce_bottom() {
    let mut s = GameState::new(0);
    s.ball.quad.pos = Vec2::new(0, -460_000);
    s.ball.dir = Vec2::new(600, -800);
    s.update(ONE_TICK);
    assert_eq!(s.ball.dir.y, 800);
    assert_eq!(s.ball.quad.pos.y, -444_000);
}

#[test]
fn reflection_center_hit_leaves_horizontally() {
    let mut s = GameState::new(0);
    s.ball.quad.pos = Vec2::new(-660_000, 0);
    s.ball.dir = Vec2::new(-1000, 0);
    s.update(ONE_TICK);
    // A hit level with the paddle center returns exactly horizontally,
    // away from the player's paddle.
    assert_eq!(s.ball.dir.x, 1000);
    assert_eq!(s.ball.dir.y, 0);
    assert_eq!(s.ball.quad.pos.x, -640_000);
    assert_eq!(s.ball.quad.pos.y, 0);
}

#[test]
fn reflection_edge_hit_leaves_at_forty_five_degrees() {
    let mut s = GameState::new(0);
    // The ball's center sits exactly half a paddle height below the
    // paddle's center.
    s.ball.quad.pos = Vec2::new(-660_000, -100_000);
    s.ball.dir = Vec2::new(-1000, 0);
    s.update(ONE_TICK);
    assert_eq!(s.ball.dir.x, 707);
    assert_eq!(s.ball.dir.y, -707);
    assert_eq!(s.ball.quad.pos.x, -660_000 + 707 * 20);
    assert_eq!(s.ball.quad.pos.y, -100_000 - 707 * 20);
}

#[test]
fn reflection_keeps_direction_near_unit() {
    let mut s = GameState::new(0);
    s.ball.quad.pos = Vec2::new(-660_000, -60_000);
    s.ball.dir = Vec2::new(-1000, 0);
    s.update(ONE_TICK);
    let sq = s.ball.dir.x * s.ball.dir.x + s.ball.dir.y * s.ball.dir.y;
    assert!(995_998 <= sq && sq <= 1_002_000);
}

#[test]
fn corner_overlap_reflects_steeper_than_forty_five() {
    let mut s = GameState::new(0);
    // Corner contact: the ball's center sits below the paddle's vertical
    // extent, so the deflection exceeds the paddle-face maximum.
    s.ball.quad.pos = Vec2::new(-660_000, -110_000);
    s.ball.dir = Vec2::new(-1000, 0);
    s.update(ONE_TICK);
    assert!(s.ball.dir.x > 0);
    assert!(s.ball.dir.y < -707);
    assert!(s.ball.dir.y.abs() > s.ball.dir.x.abs());
    let sq = s.ball.dir.x * s.ball.dir.x + s.ball.dir.y * s.ball.dir.y;
    assert!(995_998 <= sq && sq <= 1_002_000);
}

#[test]
fn update_with_unchanged_time_is_a_no_op() {
    let mut s = GameState::new(0);
    let before = s;
    s.update(0);
    assert_eq!(s, before);
}

#[test]
fn opponent_holds_inside_dead_zone() {
    let mut s = GameState::new(0);
    s.ball.quad.pos = Vec2::new(0, 10_000);
    s.ball.dir = Vec2::new(1000, 0);
    s.update(ONE_TICK);
    // Ball toward the opponent, 10 units off its center: inside the
    // 20-unit dead zone the opponent holds still.
    assert_eq!(s.com.dir.x, 0);
    assert_eq!(s.com.dir.y, 0);
    assert_eq!(s.com.quad.pos.y, 0);
}

#[test]
fn opponent_tracks_ball_upward() {
    let mut s = GameState::new(0);
    s.ball.quad.pos = Vec2::new(0, 50_000);
    s.ball.dir = Vec2::new(1000, 0);
    s.update(ONE_TICK);
    assert_eq!(s.com.dir.y, 1000);
    assert_eq!(s.com.quad.pos.y, 9_000);
}

#[test]
fn opponent_tracks_ball_downward() {
    let mut s = GameState::new(0);
    s.ball.quad.pos = Vec2::new(0, -50_000);
    s.ball.dir = Vec2::new(1000, 0);
    s.update(ONE_TICK);
    assert_eq!(s.com.dir.y, -1000);
    assert_eq!(s.com.quad.pos.y, -9_000);
}

#[test]
fn opponent_disengages_when_ball_moves_away() {
    let mut s = GameState::new(0);
    s.ball.quad.pos = Vec2::new(0, 50_000);
    s.ball.dir = Vec2::new(-1000, 0);
    s.com.quad.pos.y = 9_000;
    s.update(ONE_TICK);
    // Ball moving toward the player: the opponent zeroes its intent and
    // stays where it is.
    assert_eq!(s.com.dir.y, 0);
    assert_eq!(s.com.quad.pos.y, 9_000);
}

#[test]
fn score_accumulates_across_points() {
    let mut s = GameState::new(0);
    let mut now: u64 = 0;
    for point in 1..4u64 {
        s.ball.quad.pos = Vec2::new(840_000, 0);
        s.ball.dir = Vec2::new(1000, 0);
        now += ONE_TICK;
        s.update(now);
        assert_eq!(s.score, point);
    }
}
