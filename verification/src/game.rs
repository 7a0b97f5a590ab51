//! The simulation core: entities, the fixed-step clock, the per-tick physics
//! and rules pipeline, the opponent controller, and input-to-intent mapping.
//!
//! One tick runs, in order: player paddle move and clamp, ball wall bounce,
//! ball-paddle reflection, ball move, scoring and serve reset, opponent
//! controller and opponent paddle move.  `update` executes at most one tick
//! per call, carrying any backlog of elapsed time forward.

use vstd::prelude::*;
use crate::vec2::Vec2;
use crate::vec2::MILLI;
use crate::vec2::iabs;
use crate::vec2::norm_x;
use crate::vec2::norm_y;
use crate::vec2::unit_dir;
use crate::quad::Quad;
use crate::quad::intersect_int;
use crate::quad::quads_intersect;

verus! {

/// Screen half-extent on x, in fixed-point steps (800 units).
pub const SCREEN_HALF_WIDTH: i64 = 800_000;

/// Screen half-extent on y, in fixed-point steps (500 units).
pub const SCREEN_HALF_HEIGHT: i64 = 500_000;

/// Paddle size, in fixed-point steps (50 by 200 units).
pub const PADDLE_WIDTH: i64 = 50_000;
pub const PADDLE_HEIGHT: i64 = 200_000;

/// Ball size, in fixed-point steps (50 by 50 units).
pub const BALL_WIDTH: i64 = 50_000;
pub const BALL_HEIGHT: i64 = 50_000;

/// Paddle travel per tick, in whole units.
pub const PADDLE_SPEED: i64 = 9;

/// Ball travel per tick, in whole units.
pub const BALL_SPEED: i64 = 20;

/// The band a paddle center may occupy so that the paddle stays fully
/// on-screen vertically: the screen half-height less half the paddle
/// height.
pub const PADDLE_BOUNDS_MIN: i64 = -400_000;
pub const PADDLE_BOUNDS_MAX: i64 = 400_000;

/// Starting x positions of the two paddles (700 units from the center).
pub const PLAYER_START_X: i64 = -700_000;
pub const COM_START_X: i64 = 700_000;

/// Vertical tolerance within which the opponent controller holds still
/// (20 units).
pub const AI_DEAD_ZONE: i64 = 20_000;

/// Tick duration in nanoseconds: one sixtieth of a second, rounded up to a
/// whole nanosecond.
pub const TICK_NANOS: u64 = 16_666_667;

/// Divisor taking the fixed-point offset from a paddle center to a per-mill
/// deflection of the bounce: half the paddle height per `MILLI`.
pub const ND_UNIT: i64 = 100;

/// Farthest the ball's center ever strays vertically: the deepest possible
/// paddle contact (the paddle band plus the half-height sum, 525 units)
/// plus one tick of travel (20 units).
pub const BALL_Y_LIMIT: i64 = 545_000;

/// Farthest the ball's center rests horizontally after scoring is settled:
/// the screen half-width plus the ball's full width.
pub const BALL_X_LIMIT: i64 = 850_000;

/// A movable rectangle with a movement-intent direction; paddles and the
/// ball are all entities.  `dir` is a unit (or zero) vector in fixed-point
/// steps, combined with a speed constant to produce per-tick displacement.
#[derive(Clone, Copy, PartialEq, Eq, Structural, Debug)]
pub struct Entity {
    pub quad: Quad,
    pub dir: Vec2,
}

/// One discrete input event, as the core understands it: press transitions
/// of the three recognized keys, and a catch-all bucket for everything else.
#[derive(Clone, Copy, PartialEq, Eq, Structural, Debug)]
pub enum InputEvent {
    UpPressed,
    DownPressed,
    ConfirmPressed,
    Other,
}

/// The whole game: both paddles, the ball, the score counter, and the
/// fixed-step clock (last update timestamp and accumulated unsimulated
/// time, both in nanoseconds).
#[derive(Clone, Copy, PartialEq, Eq, Structural, Debug)]
pub struct GameState {
    pub player: Entity,
    pub com: Entity,
    pub ball: Entity,
    pub score: u64,
    pub previous_time: u64,
    pub tick: u64,
}

/// `v` clamped into `[lo, hi]`.
pub open spec fn clamp_int(v: int, lo: int, hi: int) -> int {
    if v < lo {
        lo
    } else if v > hi {
        hi
    } else {
        v
    }
}

/// A paddle's x after one tick of movement (no clamp on x).
pub open spec fn paddle_moved_x(e: Entity) -> int {
    e.quad.pos.x as int + e.dir.x as int * PADDLE_SPEED as int
}

/// A paddle's y after one tick of movement and the hard clamp into the
/// legal band.
pub open spec fn paddle_moved_y(e: Entity) -> int {
    clamp_int(
        e.quad.pos.y as int + e.dir.y as int * PADDLE_SPEED as int,
        PADDLE_BOUNDS_MIN as int,
        PADDLE_BOUNDS_MAX as int,
    )
}

/// The ball sits beyond the top or bottom wall band, measured against the
/// screen half-height less the ball's full height.
pub open spec fn wall_hit(ball: Entity) -> bool {
    ||| ball.quad.pos.y as int > SCREEN_HALF_HEIGHT as int - ball.quad.size.y as int
    ||| (ball.quad.pos.y as int) < -(SCREEN_HALF_HEIGHT as int) + ball.quad.size.y as int
}

/// Vertical offset of the ball from a paddle center, in per-mill of the
/// paddle's half-height; positive when the ball is below the center.
pub open spec fn bounce_nd(paddle_y: int, ball_y: int) -> int {
    let dist = paddle_y - ball_y;
    if dist < 0 {
        -((-dist) / ND_UNIT as int)
    } else {
        dist / ND_UNIT as int
    }
}

/// Horizontal component of a paddle bounce before normalization: one unit
/// pointing away from the paddle that was hit.
pub open spec fn bounce_vx(paddle_x: int, ball_x: int) -> int {
    if paddle_x > ball_x {
        -(MILLI as int)
    } else {
        MILLI as int
    }
}

/// The x component of the ball's direction right after a paddle bounce:
/// the vector of one unit away from the paddle and the per-mill deflection,
/// rescaled to unit length.  A center hit leaves horizontally; an edge hit
/// leaves at forty-five degrees.
pub open spec fn bounce_dir_x(paddle_x: int, paddle_y: int, ball_x: int, ball_y: int) -> int {
    norm_x(bounce_vx(paddle_x, ball_x), -bounce_nd(paddle_y, ball_y))
}

/// The y component of the ball's direction right after a paddle bounce.
pub open spec fn bounce_dir_y(paddle_x: int, paddle_y: int, ball_x: int, ball_y: int) -> int {
    norm_y(bounce_vx(paddle_x, ball_x), -bounce_nd(paddle_y, ball_y))
}

/// The ball overlaps the player's paddle (tested first: first match wins).
pub open spec fn hits_player(s: GameState) -> bool {
    quads_intersect(s.player.quad, s.ball.quad)
}

/// The ball overlaps the opponent's paddle and not the player's.
pub open spec fn hits_com(s: GameState) -> bool {
    !hits_player(s) && quads_intersect(s.com.quad, s.ball.quad)
}

/// The ball's direction x after the wall-bounce and paddle-bounce steps,
/// for the state `s` as the bounce step sees it (player already moved).
pub open spec fn post_bounce_dir_x(s: GameState) -> int {
    if hits_player(s) {
        bounce_dir_x(
            s.player.quad.pos.x as int, s.player.quad.pos.y as int,
            s.ball.quad.pos.x as int, s.ball.quad.pos.y as int,
        )
    } else if hits_com(s) {
        bounce_dir_x(
            s.com.quad.pos.x as int, s.com.quad.pos.y as int,
            s.ball.quad.pos.x as int, s.ball.quad.pos.y as int,
        )
    } else {
        s.ball.dir.x as int
    }
}

/// The ball's direction y after the wall-bounce and paddle-bounce steps.
pub open spec fn post_bounce_dir_y(s: GameState) -> int {
    if hits_player(s) {
        bounce_dir_y(
            s.player.quad.pos.x as int, s.player.quad.pos.y as int,
            s.ball.quad.pos.x as int, s.ball.quad.pos.y as int,
        )
    } else if hits_com(s) {
        bounce_dir_y(
            s.com.quad.pos.x as int, s.com.quad.pos.y as int,
            s.ball.quad.pos.x as int, s.ball.quad.pos.y as int,
        )
    } else if wall_hit(s.ball) {
        -(s.ball.dir.y as int)
    } else {
        s.ball.dir.y as int
    }
}

// --- One whole tick, staged over the state at tick start ---

/// Whether the ball, after the bounce step, overlaps the moved player
/// paddle.
pub open spec fn tick_hit_player(s: GameState) -> bool {
    intersect_int(
        paddle_moved_x(s.player), paddle_moved_y(s.player),
        s.player.quad.size.x as int, s.player.quad.size.y as int,
        s.ball.quad.pos.x as int, s.ball.quad.pos.y as int,
        s.ball.quad.size.x as int, s.ball.quad.size.y as int,
    )
}

/// Whether the ball overlaps the (not yet moved) opponent paddle, the
/// player's having missed.
pub open spec fn tick_hit_com(s: GameState) -> bool {
    !tick_hit_player(s) && quads_intersect(s.com.quad, s.ball.quad)
}

/// Ball direction x after this tick's bounce step.
pub open spec fn tick_dir_x(s: GameState) -> int {
    if tick_hit_player(s) {
        bounce_dir_x(
            paddle_moved_x(s.player), paddle_moved_y(s.player),
            s.ball.quad.pos.x as int, s.ball.quad.pos.y as int,
        )
    } else if tick_hit_com(s) {
        bounce_dir_x(
            s.com.quad.pos.x as int, s.com.quad.pos.y as int,
            s.ball.quad.pos.x as int, s.ball.quad.pos.y as int,
        )
    } else {
        s.ball.dir.x as int
    }
}

/// Ball direction y after this tick's bounce step.
pub open spec fn tick_dir_y(s: GameState) -> int {
    if tick_hit_player(s) {
        bounce_dir_y(
            paddle_moved_x(s.player), paddle_moved_y(s.player),
            s.ball.quad.pos.x as int, s.ball.quad.pos.y as int,
        )
    } else if tick_hit_com(s) {
        bounce_dir_y(
            s.com.quad.pos.x as int, s.com.quad.pos.y as int,
            s.ball.quad.pos.x as int, s.ball.quad.pos.y as int,
        )
    } else if wall_hit(s.ball) {
        -(s.ball.dir.y as int)
    } else {
        s.ball.dir.y as int
    }
}

/// Ball x after this tick's move, before scoring is settled.
pub open spec fn tick_ball_x(s: GameState) -> int {
    s.ball.quad.pos.x as int + tick_dir_x(s) * BALL_SPEED as int
}

/// Ball y after this tick's move, before scoring is settled.
pub open spec fn tick_ball_y(s: GameState) -> int {
    s.ball.quad.pos.y as int + tick_dir_y(s) * BALL_SPEED as int
}

/// The ball crossed the right boundary this tick: the point that scores.
pub open spec fn tick_right(s: GameState) -> bool {
    tick_ball_x(s) > SCREEN_HALF_WIDTH as int + s.ball.quad.size.x as int
}

/// The ball crossed the mirrored left boundary this tick: a serve reset
/// with no score change.
pub open spec fn tick_left(s: GameState) -> bool {
    tick_ball_x(s) < -(SCREEN_HALF_WIDTH as int + s.ball.quad.size.x as int)
}

/// Ball direction x once scoring is settled: a crossing serves the ball
/// back toward the side it left from.
pub open spec fn tick_final_dir_x(s: GameState) -> int {
    if tick_right(s) {
        -(MILLI as int)
    } else if tick_left(s) {
        MILLI as int
    } else {
        tick_dir_x(s)
    }
}

/// Ball direction y once scoring is settled.
pub open spec fn tick_final_dir_y(s: GameState) -> int {
    if tick_right(s) || tick_left(s) {
        0
    } else {
        tick_dir_y(s)
    }
}

/// Ball x once scoring is settled (a crossing resets to the center).
pub open spec fn tick_final_ball_x(s: GameState) -> int {
    if tick_right(s) || tick_left(s) {
        0
    } else {
        tick_ball_x(s)
    }
}

/// Ball y once scoring is settled.
pub open spec fn tick_final_ball_y(s: GameState) -> int {
    if tick_right(s) || tick_left(s) {
        0
    } else {
        tick_ball_y(s)
    }
}

/// The score after this tick: exactly one point per right-boundary
/// crossing; the left boundary never scores.
pub open spec fn tick_score(s: GameState) -> int {
    s.score as int + if tick_right(s) { 1int } else { 0int }
}

/// The opponent controller's choice of direction, from the settled ball:
/// track the ball only while it moves toward the opponent, and hold still
/// inside the dead zone.
pub open spec fn tick_ai_dir_y(s: GameState) -> int {
    if tick_final_dir_x(s) > 0 {
        if tick_final_ball_y(s) > s.com.quad.pos.y as int + AI_DEAD_ZONE as int {
            MILLI as int
        } else if tick_final_ball_y(s) < s.com.quad.pos.y as int - AI_DEAD_ZONE as int {
            -(MILLI as int)
        } else {
            0
        }
    } else {
        0
    }
}

/// The opponent paddle's y after its own move and clamp.
pub open spec fn tick_com_y(s: GameState) -> int {
    clamp_int(
        s.com.quad.pos.y as int + tick_ai_dir_y(s) * PADDLE_SPEED as int,
        PADDLE_BOUNDS_MIN as int,
        PADDLE_BOUNDS_MAX as int,
    )
}

/// How one simulation tick takes the state `s` to the state `t`; the clock
/// fields are related by `update_rel`, not here.
pub open spec fn tick_rel(s: GameState, t: GameState) -> bool {
    &&& t.player.quad.pos.x as int == paddle_moved_x(s.player)
    &&& t.player.quad.pos.y as int == paddle_moved_y(s.player)
    &&& t.player.quad.size == s.player.quad.size
    &&& t.player.dir == s.player.dir
    &&& t.com.quad.pos.x == s.com.quad.pos.x
    &&& t.com.quad.pos.y as int == tick_com_y(s)
    &&& t.com.quad.size == s.com.quad.size
    &&& t.com.dir.x == 0
    &&& t.com.dir.y as int == tick_ai_dir_y(s)
    &&& t.ball.quad.pos.x as int == tick_final_ball_x(s)
    &&& t.ball.quad.pos.y as int == tick_final_ball_y(s)
    &&& t.ball.quad.size == s.ball.quad.size
    &&& t.ball.dir.x as int == tick_final_dir_x(s)
    &&& t.ball.dir.y as int == tick_final_dir_y(s)
    &&& t.score as int == tick_score(s)
}

/// How one `update` call takes the state `s` at wall-clock time `now` to
/// the state `t`: elapsed time joins the accumulator, and exactly one tick
/// runs if more than one tick's worth has accumulated — any further backlog
/// is carried forward, not drained.
pub open spec fn update_rel(s: GameState, now: u64, t: GameState) -> bool {
    let acc = s.tick as int + (now as int - s.previous_time as int);
    &&& t.previous_time == now
    &&& if acc > TICK_NANOS as int {
        &&& t.tick as int == acc - TICK_NANOS as int
        &&& tick_rel(s, t)
    } else {
        &&& t.tick as int == acc
        &&& t.player == s.player
        &&& t.com == s.com
        &&& t.ball == s.ball
        &&& t.score == s.score
    }
}

/// The ball rests beyond the right boundary: the point that scores.
pub open spec fn scored_right(s: GameState) -> bool {
    s.ball.quad.pos.x as int > SCREEN_HALF_WIDTH as int + s.ball.quad.size.x as int
}

/// The ball rests beyond the mirrored left boundary: a serve reset with no
/// score change.
pub open spec fn scored_left(s: GameState) -> bool {
    (s.ball.quad.pos.x as int) < -(SCREEN_HALF_WIDTH as int + s.ball.quad.size.x as int)
}

/// The opponent controller's choice for the current state: track the ball
/// vertically only while it moves toward the opponent, and hold still
/// inside the dead zone around the paddle's center.
pub open spec fn ai_dir_y(s: GameState) -> int {
    if s.ball.dir.x > 0 {
        if s.ball.quad.pos.y as int > s.com.quad.pos.y as int + AI_DEAD_ZONE as int {
            MILLI as int
        } else if (s.ball.quad.pos.y as int) < s.com.quad.pos.y as int - AI_DEAD_ZONE as int {
            -(MILLI as int)
        } else {
            0
        }
    } else {
        0
    }
}

/// A paddle entity in its legal region: fixed size, fixed x, center y in
/// the on-screen band, and a purely vertical unit-or-zero intent.
pub open spec fn paddle_wf(e: Entity, x: int) -> bool {
    &&& e.quad.pos.x as int == x
    &&& PADDLE_BOUNDS_MIN as int <= e.quad.pos.y as int <= PADDLE_BOUNDS_MAX as int
    &&& e.quad.size.x as int == PADDLE_WIDTH as int
    &&& e.quad.size.y as int == PADDLE_HEIGHT as int
    &&& e.dir.x == 0
    &&& (e.dir.y == 0 || e.dir.y as int == MILLI as int || e.dir.y as int == -(MILLI as int))
}

/// The ball in its legal region: fixed size, center within the play bands,
/// a unit direction, and one tick of backtracked travel also within the
/// vertical band (which is what keeps the wall bounce from creeping).
pub open spec fn ball_wf(e: Entity) -> bool {
    &&& e.quad.size.x as int == BALL_WIDTH as int
    &&& e.quad.size.y as int == BALL_HEIGHT as int
    &&& iabs(e.quad.pos.x as int) <= BALL_X_LIMIT as int
    &&& iabs(e.quad.pos.y as int) <= BALL_Y_LIMIT as int
    &&& iabs(e.quad.pos.y as int - BALL_SPEED as int * e.dir.y as int) <= BALL_Y_LIMIT as int
    &&& unit_dir(e.dir.x as int, e.dir.y as int)
}

impl Entity {
    /// Translate this entity by `pos`.
    pub fn add_position(&mut self, pos: Vec2)
        requires
            i64::MIN <= old(self).quad.pos.x as int + pos.x as int <= i64::MAX,
            i64::MIN <= old(self).quad.pos.y as int + pos.y as int <= i64::MAX,
        ensures
            final(self).quad.pos.x as int == old(self).quad.pos.x as int + pos.x as int,
            final(self).quad.pos.y as int == old(self).quad.pos.y as int + pos.y as int,
            final(self).quad.size == old(self).quad.size,
            final(self).dir == old(self).dir,
    {
        self.quad.pos = self.quad.pos.plus(pos);
    }
}

/// `v` clamped into `[lo, hi]` (the small numeric helper paddle movement
/// uses for its hard position correction).
pub fn clamp_i64(v: i64, lo: i64, hi: i64) -> (r: i64)
    requires
        lo <= hi,
    ensures
        r as int == clamp_int(v as int, lo as int, hi as int),
{
    if v < lo {
        lo
    } else if v > hi {
        hi
    } else {
        v
    }
}

impl GameState {
    /// Every completed state of the game: paddles in their bands, the ball
    /// in its region with a unit direction, and no more than `score` ticks'
    /// worth of consumed time behind the last timestamp.
    pub open spec fn wf(self) -> bool {
        &&& paddle_wf(self.player, PLAYER_START_X as int)
        &&& paddle_wf(self.com, COM_START_X as int)
        &&& ball_wf(self.ball)
        &&& self.score as int * TICK_NANOS as int + self.tick as int
            <= self.previous_time as int
    }

    /// The starting state at wall-clock time `now`: paddles at their edges,
    /// the ball at the center moving left, score zero, empty tick budget.
    pub fn new(now: u64) -> (s: GameState)
        ensures
            s.wf(),
            s.player.quad.pos == (Vec2 { x: PLAYER_START_X, y: 0 }),
            s.com.quad.pos == (Vec2 { x: COM_START_X, y: 0 }),
            s.ball.quad.pos == (Vec2 { x: 0, y: 0 }),
            s.player.quad.size == (Vec2 { x: PADDLE_WIDTH, y: PADDLE_HEIGHT }),
            s.com.quad.size == (Vec2 { x: PADDLE_WIDTH, y: PADDLE_HEIGHT }),
            s.ball.quad.size == (Vec2 { x: BALL_WIDTH, y: BALL_HEIGHT }),
            s.player.dir == (Vec2 { x: 0, y: 0 }),
            s.com.dir == (Vec2 { x: 0, y: 0 }),
            s.ball.dir.x as int == -(MILLI as int),
            s.ball.dir.y == 0,
            s.score == 0,
            s.previous_time == now,
            s.tick == 0,
    {
        let player = Entity {
            quad: Quad::new(Vec2::new(PLAYER_START_X, 0), Vec2::new(PADDLE_WIDTH, PADDLE_HEIGHT)),
            dir: Vec2::zero(),
        };

        let com = Entity {
            quad: Quad::new(Vec2::new(COM_START_X, 0), Vec2::new(PADDLE_WIDTH, PADDLE_HEIGHT)),
            dir: Vec2::zero(),
        };

        let ball = Entity {
            quad: Quad::new(Vec2::new(0, 0), Vec2::new(BALL_WIDTH, BALL_HEIGHT)),
            dir: Vec2::new(-MILLI, 0),
        };

        GameState { player, com, ball, score: 0, previous_time: now, tick: 0 }
    }

    /// Move a paddle one tick along its intent and clamp its center back
    /// into the legal vertical band.
    fn paddle_move(paddle: &mut Entity)
        requires
            iabs(old(paddle).quad.pos.x as int) <= 1_000_000,
            iabs(old(paddle).quad.pos.y as int) <= 1_000_000,
            iabs(old(paddle).dir.x as int) <= MILLI as int,
            iabs(old(paddle).dir.y as int) <= MILLI as int,
        ensures
            final(paddle).quad.pos.x as int == paddle_moved_x(*old(paddle)),
            final(paddle).quad.pos.y as int == paddle_moved_y(*old(paddle)),
            final(paddle).quad.size == old(paddle).quad.size,
            final(paddle).dir == old(paddle).dir,
    {
        let d = paddle.dir.scaled(PADDLE_SPEED);
        paddle.add_position(d);
        paddle.quad.pos.y = clamp_i64(paddle.quad.pos.y, PADDLE_BOUNDS_MIN, PADDLE_BOUNDS_MAX);
    }

    /// Which paddle the ball overlaps, the player's checked first; a copy
    /// of that paddle's quad, or `None` for a clear ball.
    fn check_ball_collision(&self) -> (r: Option<Quad>)
        requires
            iabs(self.player.quad.pos.x as int) <= 1_000_000,
            iabs(self.player.quad.pos.y as int) <= 1_000_000,
            iabs(self.com.quad.pos.x as int) <= 1_000_000,
            iabs(self.com.quad.pos.y as int) <= 1_000_000,
            iabs(self.ball.quad.pos.x as int) <= 1_000_000,
            iabs(self.ball.quad.pos.y as int) <= 1_000_000,
            0 <= self.player.quad.size.x as int <= 1_000_000,
            0 <= self.player.quad.size.y as int <= 1_000_000,
            0 <= self.com.quad.size.x as int <= 1_000_000,
            0 <= self.com.quad.size.y as int <= 1_000_000,
            0 <= self.ball.quad.size.x as int <= 1_000_000,
            0 <= self.ball.quad.size.y as int <= 1_000_000,
        ensures
            r == if hits_player(*self) {
                Some(self.player.quad)
            } else if quads_intersect(self.com.quad, self.ball.quad) {
                Some(self.com.quad)
            } else {
                None::<Quad>
            },
    {
        if self.player.quad.interects(&self.ball.quad) {
            Some(self.player.quad)
        } else if self.com.quad.interects(&self.ball.quad) {
            Some(self.com.quad)
        } else {
            None
        }
    }

    /// One tick of ball physics: invert the vertical direction beyond the
    /// wall bands, reflect off a hit paddle at an angle set by the contact
    /// offset, then move the ball one tick along the resulting direction
    /// (a bounce and a move happen within the same tick).
    fn ball_bounce(&mut self)
        requires
            old(self).wf(),
        ensures
            final(self).ball.dir.x as int == post_bounce_dir_x(*old(self)),
            final(self).ball.dir.y as int == post_bounce_dir_y(*old(self)),
            final(self).ball.quad.pos.x as int == old(self).ball.quad.pos.x as int
                + post_bounce_dir_x(*old(self)) * BALL_SPEED as int,
            final(self).ball.quad.pos.y as int == old(self).ball.quad.pos.y as int
                + post_bounce_dir_y(*old(self)) * BALL_SPEED as int,
            final(self).ball.quad.size == old(self).ball.quad.size,
            final(self).player == old(self).player,
            final(self).com == old(self).com,
            final(self).score == old(self).score,
            final(self).previous_time == old(self).previous_time,
            final(self).tick == old(self).tick,
            unit_dir(final(self).ball.dir.x as int, final(self).ball.dir.y as int),
            iabs(final(self).ball.quad.pos.x as int) <= BALL_X_LIMIT as int + 20_000,
            iabs(final(self).ball.quad.pos.y as int) <= BALL_Y_LIMIT as int,
            iabs(final(self).ball.quad.pos.y as int
                - BALL_SPEED as int * final(self).ball.dir.y as int) <= BALL_Y_LIMIT as int,
    {
        if self.ball.quad.pos.y > SCREEN_HALF_HEIGHT - self.ball.quad.size.y
            || self.ball.quad.pos.y < -SCREEN_HALF_HEIGHT + self.ball.quad.size.y
        {
            self.ball.dir = Vec2::new(self.ball.dir.x, -self.ball.dir.y);
        }

        let col = self.check_ball_collision();
        if let Some(colq) = col {
            let dist: i64 = colq.pos.y - self.ball.quad.pos.y;
            proof {
                assert(iabs(dist as int) < 125_000);
                vstd::arithmetic::div_mod::lemma_fundamental_div_mod(dist as int, ND_UNIT as int);
                vstd::arithmetic::div_mod::lemma_mod_bound(dist as int, ND_UNIT as int);
                vstd::arithmetic::div_mod::lemma_fundamental_div_mod(-(dist as int), ND_UNIT as int);
                vstd::arithmetic::div_mod::lemma_mod_bound(-(dist as int), ND_UNIT as int);
            }
            let nd: i64 = if dist < 0 { -((-dist) / ND_UNIT) } else { dist / ND_UNIT };
            assert(nd as int == bounce_nd(colq.pos.y as int, self.ball.quad.pos.y as int));
            assert(iabs(nd as int) <= 1250);
            let mut bounce_x: i64 = MILLI;
            if colq.pos.x > self.ball.quad.pos.x {
                bounce_x = -MILLI;
            }
            let bounce_y: i64 = -nd;
            let mut v = Vec2::new(bounce_x, bounce_y);
            let d = v.normalize();
            self.ball.dir = d;
        }
        let ghost mid: GameState = *self;
        proof {
            assert(mid.ball.dir.x as int == post_bounce_dir_x(*old(self)));
            assert(mid.ball.dir.y as int == post_bounce_dir_y(*old(self)));
            if !(hits_player(*old(self)) || hits_com(*old(self))) {
                let oy: int = old(self).ball.dir.y as int;
                assert((-oy) * (-oy) == oy * oy) by (nonlinear_arith);
            }
            assert(unit_dir(mid.ball.dir.x as int, mid.ball.dir.y as int));
        }
        let step = self.ball.dir.scaled(BALL_SPEED);
        self.ball.add_position(step);
        proof {
            let s0 = *old(self);
            let dy1: int = post_bounce_dir_y(s0);
            let y0: int = s0.ball.quad.pos.y as int;
            if hits_player(s0) {
                assert(iabs(s0.player.quad.pos.y as int - y0) < 125_000);
                assert(iabs(y0) < 525_000);
            } else if hits_com(s0) {
                assert(iabs(s0.com.quad.pos.y as int - y0) < 125_000);
                assert(iabs(y0) < 525_000);
            } else if wall_hit(s0.ball) {
                assert(dy1 == -(s0.ball.dir.y as int));
                assert(y0 + dy1 * BALL_SPEED as int
                    == y0 - BALL_SPEED as int * s0.ball.dir.y as int);
            } else {
                assert(iabs(y0) <= 450_000);
            }
        }
    }

    /// Settle scoring for this tick: a ball beyond the right boundary
    /// scores one point and serves leftward from the center; a ball beyond
    /// the mirrored left boundary serves rightward from the center with no
    /// score change (only the right boundary awards a point).
    fn score_keep(&mut self)
        requires
            iabs(old(self).ball.quad.pos.x as int) <= 900_000,
            0 <= old(self).ball.quad.size.x as int <= 1_000_000,
            old(self).score < u64::MAX,
        ensures
            final(self).ball.quad.pos.x as int
                == if scored_right(*old(self)) || scored_left(*old(self)) {
                    0int
                } else {
                    old(self).ball.quad.pos.x as int
                },
            final(self).ball.quad.pos.y as int
                == if scored_right(*old(self)) || scored_left(*old(self)) {
                    0int
                } else {
                    old(self).ball.quad.pos.y as int
                },
            final(self).ball.dir.x as int == if scored_right(*old(self)) {
                -(MILLI as int)
            } else if scored_left(*old(self)) {
                MILLI as int
            } else {
                old(self).ball.dir.x as int
            },
            final(self).ball.dir.y as int
                == if scored_right(*old(self)) || scored_left(*old(self)) {
                    0int
                } else {
                    old(self).ball.dir.y as int
                },
            final(self).score as int == old(self).score as int
                + if scored_right(*old(self)) { 1int } else { 0int },
            final(self).ball.quad.size == old(self).ball.quad.size,
            final(self).player == old(self).player,
            final(self).com == old(self).com,
            final(self).previous_time == old(self).previous_time,
            final(self).tick == old(self).tick,
    {
        if self.ball.quad.pos.x > SCREEN_HALF_WIDTH + self.ball.quad.size.x {
            self.score = self.score + 1;
            self.ball.quad.pos = Vec2::zero();
            self.ball.dir = Vec2::new(-MILLI, 0);
        }

        if self.ball.quad.pos.x < -(SCREEN_HALF_WIDTH + self.ball.quad.size.x) {
            self.ball.quad.pos = Vec2::zero();
            self.ball.dir = Vec2::new(MILLI, 0);
        }
    }

    /// The opponent controller plus the opponent's own move: pick a
    /// vertical intent from the settled ball (engage only while the ball
    /// travels toward the opponent, hold still inside the dead zone), then
    /// move and clamp the opponent paddle like any other.
    fn super_advanced_ai(&mut self)
        requires
            iabs(old(self).com.quad.pos.x as int) <= 1_000_000,
            iabs(old(self).com.quad.pos.y as int) <= 1_000_000,
            iabs(old(self).ball.quad.pos.y as int) <= 1_000_000,
        ensures
            final(self).com.dir.x == 0,
            final(self).com.dir.y as int == ai_dir_y(*old(self)),
            final(self).com.quad.pos.x == old(self).com.quad.pos.x,
            final(self).com.quad.pos.y as int == clamp_int(
                old(self).com.quad.pos.y as int + ai_dir_y(*old(self)) * PADDLE_SPEED as int,
                PADDLE_BOUNDS_MIN as int,
                PADDLE_BOUNDS_MAX as int,
            ),
            final(self).com.quad.size == old(self).com.quad.size,
            final(self).player == old(self).player,
            final(self).ball == old(self).ball,
            final(self).score == old(self).score,
            final(self).previous_time == old(self).previous_time,
            final(self).tick == old(self).tick,
    {
        if self.ball.dir.x > 0 {
            if self.ball.quad.pos.y > self.com.quad.pos.y + AI_DEAD_ZONE {
                self.com.dir = Vec2::new(0, MILLI);
            } else if self.ball.quad.pos.y < self.com.quad.pos.y - AI_DEAD_ZONE {
                self.com.dir = Vec2::new(0, -MILLI);
            } else {
                self.com.dir = Vec2::zero();
            }
        } else {
            self.com.dir = Vec2::zero();
        }

        GameState::paddle_move(&mut self.com);
    }

    /// Advance the clock to `now` and run at most one simulation tick.
    /// The elapsed wall-clock time joins the tick accumulator; once more
    /// than one tick's worth is pending, a single tick runs and one tick
    /// duration is subtracted — any further backlog is carried forward to
    /// later calls rather than drained in a loop, so the physics advances
    /// in fixed steps however often this is polled.
    pub fn update(&mut self, now: u64)
        requires
            old(self).wf(),
            old(self).previous_time <= now,
        ensures
            update_rel(*old(self), now, *final(self)),
            final(self).wf(),
    {
        let ghost s0: GameState = *old(self);
        let elapsed: u64 = now - self.previous_time;
        self.previous_time = now;
        self.tick = self.tick + elapsed;

        if self.tick > TICK_NANOS {
            GameState::paddle_move(&mut self.player);
            proof {
                assert(self.wf());
            }
            let ghost mid1: GameState = *self;
            self.ball_bounce();
            let ghost mid2: GameState = *self;
            proof {
                assert(tick_hit_player(s0) == hits_player(mid1));
                assert(tick_hit_com(s0) == hits_com(mid1));
                assert(tick_dir_x(s0) == post_bounce_dir_x(mid1));
                assert(tick_dir_y(s0) == post_bounce_dir_y(mid1));
                assert(mid2.ball.quad.pos.x as int == tick_ball_x(s0));
                assert(mid2.ball.quad.pos.y as int == tick_ball_y(s0));
                assert(mid2.score as int * TICK_NANOS as int <= mid2.previous_time as int);
            }
            self.score_keep();
            let ghost mid3: GameState = *self;
            proof {
                assert(scored_right(mid2) == tick_right(s0));
                assert(scored_left(mid2) == tick_left(s0));
                assert(mid3.ball.quad.pos.x as int == tick_final_ball_x(s0));
                assert(mid3.ball.quad.pos.y as int == tick_final_ball_y(s0));
                assert(mid3.ball.dir.x as int == tick_final_dir_x(s0));
                assert(mid3.ball.dir.y as int == tick_final_dir_y(s0));
            }
            self.super_advanced_ai();
            self.tick = self.tick - TICK_NANOS;
            proof {
                assert(ai_dir_y(mid3) == tick_ai_dir_y(s0));
                assert(tick_rel(s0, *self));
                if tick_right(s0) || tick_left(s0) {
                    assert(unit_dir(self.ball.dir.x as int, self.ball.dir.y as int))
                        by (nonlinear_arith)
                        requires
                            self.ball.dir.x as int == MILLI as int
                                || self.ball.dir.x as int == -(MILLI as int),
                            self.ball.dir.y == 0i64;
                }
                assert(ball_wf(self.ball));
                assert(self.wf());
            }
        }
    }

    /// Consume one discrete input event: an up or down press sets the
    /// player's vertical intent, a confirm press is only reported back to
    /// the caller, and any other event clears the intent.  Returns whether
    /// the event was recognized.
    pub fn input(&mut self, event: InputEvent) -> (handled: bool)
        ensures
            final(self).player.quad == old(self).player.quad,
            final(self).com == old(self).com,
            final(self).ball == old(self).ball,
            final(self).score == old(self).score,
            final(self).previous_time == old(self).previous_time,
            final(self).tick == old(self).tick,
            handled == (event != InputEvent::Other),
            event == InputEvent::ConfirmPressed ==> final(self).player.dir
                == old(self).player.dir,
            event == InputEvent::UpPressed ==> final(self).player.dir.x == 0
                && final(self).player.dir.y as int == MILLI as int,
            event == InputEvent::DownPressed ==> final(self).player.dir.x == 0
                && final(self).player.dir.y as int == -(MILLI as int),
            event == InputEvent::Other ==> final(self).player.dir.x == 0
                && final(self).player.dir.y == 0,
            old(self).wf() ==> final(self).wf(),
    {
        match event {
            InputEvent::ConfirmPressed => true,
            InputEvent::DownPressed => {
                self.player.dir = Vec2::new(0, -MILLI);
                true
            }
            InputEvent::UpPressed => {
                self.player.dir = Vec2::new(0, MILLI);
                true
            }
            InputEvent::Other => {
                self.player.dir = Vec2::zero();
                false
            }
        }
    }
}

} // verus!
