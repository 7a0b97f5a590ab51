//! The general laws of the simulation, stated over the same spec functions
//! that the executable contracts use.

use vstd::prelude::*;
use crate::vec2::MILLI;
use crate::vec2::iabs;
use crate::vec2::is_sqrt_of;
use crate::vec2::lemma_sqrt_floor;
use crate::vec2::lemma_sqrt_unique;
use crate::vec2::norm_m;
use crate::vec2::unit_dir;
use crate::game::AI_DEAD_ZONE;
use crate::game::GameState;
use crate::game::PADDLE_BOUNDS_MAX;
use crate::game::PADDLE_BOUNDS_MIN;
use crate::game::TICK_NANOS;
use crate::game::bounce_dir_x;
use crate::game::bounce_dir_y;
use crate::game::bounce_nd;
use crate::game::bounce_vx;
use crate::game::tick_ai_dir_y;
use crate::game::tick_final_ball_y;
use crate::game::tick_final_dir_x;
use crate::game::tick_left;
use crate::game::tick_rel;
use crate::game::tick_right;
use crate::game::update_rel;

verus! {

/// `update_rel` is a function of the starting state and the timestamp: it
/// pins every field of the resulting state, so equal states fed equal
/// timestamps follow identical trajectories.
pub proof fn lemma_update_deterministic(s: GameState, now: u64, t1: GameState, t2: GameState)
    requires
        update_rel(s, now, t1),
        update_rel(s, now, t2),
    ensures
        t1 == t2,
{
    assert(t1.player.quad.pos == t2.player.quad.pos);
    assert(t1.player == t2.player);
    assert(t1.com.quad.pos == t2.com.quad.pos);
    assert(t1.com == t2.com);
    assert(t1.ball.quad.pos == t2.ball.quad.pos);
    assert(t1.ball.dir == t2.ball.dir);
    assert(t1.ball == t2.ball);
}

/// Fixed-step determinism: an extra `update` call whose elapsed time leaves
/// the accumulator at or under one tick changes nothing about where the
/// state ends up by the next timestamp — feeding elapsed time in one call
/// or split across two calls with the same total yields the same state.
pub proof fn lemma_update_split(
    s: GameState,
    t1: u64,
    t2: u64,
    s1: GameState,
    s2: GameState,
    d: GameState,
)
    requires
        s.previous_time <= t1 <= t2,
        s.tick as int + (t1 as int - s.previous_time as int) <= TICK_NANOS as int,
        update_rel(s, t1, s1),
        update_rel(s1, t2, s2),
        update_rel(s, t2, d),
    ensures
        s2 == d,
{
    assert(s1.player == s.player && s1.com == s.com && s1.ball == s.ball && s1.score == s.score);
    let acc = s1.tick as int + (t2 as int - s1.previous_time as int);
    assert(acc == s.tick as int + (t2 as int - s.previous_time as int));
    if acc > TICK_NANOS as int {
        assert(tick_rel(s1, s2));
        assert(tick_rel(s, d));
        assert(crate::game::tick_hit_player(s1) == crate::game::tick_hit_player(s));
        assert(crate::game::tick_hit_com(s1) == crate::game::tick_hit_com(s));
        assert(crate::game::tick_dir_x(s1) == crate::game::tick_dir_x(s));
        assert(crate::game::tick_dir_y(s1) == crate::game::tick_dir_y(s));
        assert(crate::game::tick_ball_x(s1) == crate::game::tick_ball_x(s));
        assert(crate::game::tick_ball_y(s1) == crate::game::tick_ball_y(s));
        assert(tick_right(s1) == tick_right(s));
        assert(tick_left(s1) == tick_left(s));
        assert(tick_final_dir_x(s1) == tick_final_dir_x(s));
        assert(tick_final_ball_y(s1) == tick_final_ball_y(s));
        assert(tick_ai_dir_y(s1) == tick_ai_dir_y(s));
        assert(crate::game::tick_com_y(s1) == crate::game::tick_com_y(s));
    }
    assert(s2.player.quad.pos == d.player.quad.pos);
    assert(s2.player == d.player);
    assert(s2.com == d.com);
    assert(s2.ball == d.ball);
    assert(s2 == d);
}

/// Paddle containment: in every completed state, both paddle centers lie
/// inside the legal vertical band.  `update` and `input` keep `wf`, so by
/// induction this holds after any sequence of inputs and ticks.
pub proof fn lemma_paddle_containment(s: GameState)
    requires
        s.wf(),
    ensures
        PADDLE_BOUNDS_MIN as int <= s.player.quad.pos.y as int <= PADDLE_BOUNDS_MAX as int,
        PADDLE_BOUNDS_MIN as int <= s.com.quad.pos.y as int <= PADDLE_BOUNDS_MAX as int,
{
}

/// Direction normalization: in every completed state, the ball's direction
/// is a unit vector up to fixed-point rounding.  `update` and `input` keep
/// `wf`, so this holds after every tick.
pub proof fn lemma_ball_direction_unit(s: GameState)
    requires
        s.wf(),
    ensures
        unit_dir(s.ball.dir.x as int, s.ball.dir.y as int),
{
}

/// Reflection symmetry, center hit: a ball whose center is level with the
/// paddle center leaves the bounce purely horizontally, at full unit
/// length.
pub proof fn lemma_reflection_center(paddle_x: int, paddle_y: int, ball_x: int, ball_y: int)
    requires
        paddle_y == ball_y,
    ensures
        bounce_dir_y(paddle_x, paddle_y, ball_x, ball_y) == 0,
        iabs(bounce_dir_x(paddle_x, paddle_y, ball_x, ball_y)) == MILLI as int,
{
    assert(0int / 100int == 0) by (nonlinear_arith);
    assert(bounce_nd(paddle_y, ball_y) == 0);
    let vx: int = bounce_vx(paddle_x, ball_x);
    assert(vx == 1000 || vx == -1000);
    assert((vx * 1000) * (vx * 1000) == 1_000_000_000_000) by (nonlinear_arith)
        requires vx == 1000 || vx == -1000;
    assert((0int * 1000) * (0int * 1000) == 0) by (nonlinear_arith);
    assert(crate::vec2::norm_scale_sq(vx, 0) == 1_000_000_000_000);
    assert(is_sqrt_of(1_000_000_000_000, 1_000_000)) by (nonlinear_arith);
    lemma_sqrt_floor(1_000_000_000_000);
    lemma_sqrt_unique(1_000_000_000_000, norm_m(vx, 0), 1_000_000);
    assert(1_000_000_000int / 1_000_000int == 1000) by (nonlinear_arith);
    assert(0int / 1_000_000int == 0) by (nonlinear_arith);
}

/// Reflection symmetry, edge hit: a ball whose center sits exactly half a
/// paddle height from the paddle center leaves the bounce at exactly
/// forty-five degrees — equal horizontal and vertical components — headed
/// away from the side of the paddle it struck.
pub proof fn lemma_reflection_edge(paddle_x: int, paddle_y: int, ball_x: int, ball_y: int)
    requires
        iabs(paddle_y - ball_y) == 100_000,
    ensures
        iabs(bounce_dir_x(paddle_x, paddle_y, ball_x, ball_y))
            == iabs(bounce_dir_y(paddle_x, paddle_y, ball_x, ball_y)),
        iabs(bounce_dir_y(paddle_x, paddle_y, ball_x, ball_y)) == 707,
        ball_y < paddle_y ==> bounce_dir_y(paddle_x, paddle_y, ball_x, ball_y) == -707,
        ball_y > paddle_y ==> bounce_dir_y(paddle_x, paddle_y, ball_x, ball_y) == 707,
{
    let nd: int = bounce_nd(paddle_y, ball_y);
    assert(100_000int / 100int == 1000) by (nonlinear_arith);
    assert(nd == 1000 || nd == -1000);
    let vx: int = bounce_vx(paddle_x, ball_x);
    assert(vx == 1000 || vx == -1000);
    assert((vx * 1000) * (vx * 1000) == 1_000_000_000_000) by (nonlinear_arith)
        requires vx == 1000 || vx == -1000;
    assert(((-nd) * 1000) * ((-nd) * 1000) == 1_000_000_000_000) by (nonlinear_arith)
        requires nd == 1000 || nd == -1000;
    assert(crate::vec2::norm_scale_sq(vx, -nd)
        == (vx * 1000) * (vx * 1000) + ((-nd) * 1000) * ((-nd) * 1000));
    assert(crate::vec2::norm_scale_sq(vx, -nd) == 2_000_000_000_000);
    assert(is_sqrt_of(2_000_000_000_000, 1_414_213)) by (nonlinear_arith);
    lemma_sqrt_floor(2_000_000_000_000);
    lemma_sqrt_unique(2_000_000_000_000, norm_m(vx, -nd), 1_414_213);
    assert(1_000_000_000int / 1_414_213int == 707) by (nonlinear_arith);
}

/// Scoring reset: a tick in which the ball crosses the right boundary
/// raises the score by exactly one and resets the ball to the center,
/// serving leftward at unit speed.
pub proof fn lemma_scoring_reset(s: GameState, t: GameState)
    requires
        tick_rel(s, t),
        tick_right(s),
    ensures
        t.score as int == s.score as int + 1,
        t.ball.quad.pos.x == 0,
        t.ball.quad.pos.y == 0,
        t.ball.dir.x as int == -(MILLI as int),
        t.ball.dir.y == 0,
{
}

/// Serve reset: a tick in which the ball crosses the mirrored left
/// boundary resets the ball to the center serving rightward, and the score
/// does not change.
pub proof fn lemma_serve_reset_left(s: GameState, t: GameState)
    requires
        tick_rel(s, t),
        tick_left(s),
        !tick_right(s),
    ensures
        t.score == s.score,
        t.ball.quad.pos.x == 0,
        t.ball.quad.pos.y == 0,
        t.ball.dir.x as int == MILLI as int,
        t.ball.dir.y == 0,
{
}

/// The score never decreases, and a single `update` call raises it by at
/// most one: exactly one point per scoring event.
pub proof fn lemma_score_monotonic(s: GameState, now: u64, t: GameState)
    requires
        update_rel(s, now, t),
    ensures
        s.score <= t.score,
        t.score as int <= s.score as int + 1,
{
}

/// Opponent dead zone: on any tick that ends with the ball moving toward
/// the opponent and the ball's center within the dead-zone tolerance of
/// the opponent paddle's center, the opponent's direction is exactly zero
/// and its paddle does not move.
pub proof fn lemma_opponent_dead_zone(s: GameState, t: GameState)
    requires
        s.wf(),
        tick_rel(s, t),
        tick_final_dir_x(s) > 0,
        iabs(tick_final_ball_y(s) - s.com.quad.pos.y as int) <= AI_DEAD_ZONE as int,
    ensures
        t.com.dir.x == 0,
        t.com.dir.y == 0,
        t.com.quad.pos.y == s.com.quad.pos.y,
{
    assert(tick_ai_dir_y(s) == 0);
}

} // verus!
