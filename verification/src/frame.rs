//! The frame driver: the per-tick context the host fills in once per
//! frame, the whole game state, and one tick that runs the systems in
//! their required order — movement before collision, scoring strictly
//! after movement's event emission and before the next movement tick.
//! Scoring events are drained exactly once per tick, in emission order.

use crate::collision::{collision_step, spec_paddle_bounce_vx};
use crate::entities::{Ball, Paddle, ScoreEvent, Side, BALL_SPEED, MAX_DT_MS, PADDLE_MARGIN};
use crate::geom::{half_of, is_bounce_of, speed_sq, Vec2i, MAX_COORD};
use crate::input::{control_dy, paddle_x, step_paddle};
use crate::movement::{bounced_vy, exit_event, move_ball};
use crate::resize::{anchor_x, anchor_y, apply_resize, score_anchor, ResizeNotice};
use crate::scoring::{handle_score, lemma_event_credits_only_matching_side, ScoreCounter};
use vstd::prelude::*;

verus! {

/// The held state of the four logical controls.
#[derive(Clone, Copy, PartialEq, Eq, Structural, Debug)]
pub struct Controls {
    pub left_up: bool,
    pub left_down: bool,
    pub right_up: bool,
    pub right_down: bool,
}

/// The per-tick context: elapsed time, live window size, held controls and
/// the resize notifications that arrived since the last tick.  The host
/// populates it once per frame; nothing in it is ever cached inside
/// entities.
pub struct FrameContext {
    pub dt: i64,
    pub width: i64,
    pub height: i64,
    pub controls: Controls,
    pub resizes: Vec<ResizeNotice>,
}

impl FrameContext {
    /// The bounds the host guarantees for one frame's inputs.
    pub open spec fn wf(self) -> bool {
        &&& 0 <= self.dt <= MAX_DT_MS
        &&& 0 <= self.width <= MAX_COORD
        &&& 0 <= self.height <= MAX_COORD
        &&& self.resizes@.len() > 0 ==> self.resizes@[0].wf()
    }
}

/// Clamp a host-supplied frame time into the range a tick accepts: a
/// negative reading (a degenerate clock) becomes zero, so that frame skips
/// integration instead of corrupting positions, and a reading beyond the
/// bound is cut to the bound.
pub fn clamp_dt(dt: i64) -> (r: i64)
    ensures
        0 <= r <= MAX_DT_MS,
        r as int == if dt < 0 {
            0int
        } else if dt > MAX_DT_MS {
            MAX_DT_MS as int
        } else {
            dt as int
        },
{
    if dt < 0 {
        0
    } else if dt > MAX_DT_MS {
        MAX_DT_MS
    } else {
        dt
    }
}

/// The whole simulation state: exactly one ball, one paddle per side and
/// one score counter per side, created once per session.
pub struct GameState {
    pub ball: Ball,
    pub left_paddle: Paddle,
    pub right_paddle: Paddle,
    pub left_score: ScoreCounter,
    pub right_score: ScoreCounter,
}

/// What the movement system does to the ball, and which event it emits.
pub open spec fn spec_moved_ball(b: Ball, dt: int, half_w: int, half_h: int) -> (Ball, Option<
    ScoreEvent,
>) {
    let cand_x = b.pos.x + b.vel.x * dt;
    let vy2 = bounced_vy(b.vel.y as int, b.pos.y + b.vel.y * dt, half_h);
    let vel2 = Vec2i { x: b.vel.x, y: vy2 as i64 };
    let ev = exit_event(cand_x, half_w);
    if ev is Some {
        (Ball { pos: b.pos, vel: vel2 }, ev)
    } else {
        (Ball { pos: Vec2i { x: cand_x as i64, y: (b.pos.y + vy2 * dt) as i64 }, vel: vel2 }, ev)
    }
}

/// What the collision system does to the ball: resolve against the left
/// paddle, then against the right one.
pub open spec fn spec_collided_ball(b: Ball, left: Paddle, right: Paddle) -> Ball {
    let b1 = Ball {
        pos: b.pos,
        vel: Vec2i { x: spec_paddle_bounce_vx(b, left) as i64, y: b.vel.y },
    };
    Ball { pos: b.pos, vel: Vec2i { x: spec_paddle_bounce_vx(b1, right) as i64, y: b.vel.y } }
}

/// What the input system does to one paddle.
pub open spec fn spec_stepped_paddle(
    p: Paddle,
    up: bool,
    down: bool,
    dt: int,
    half_w: int,
    half_h: int,
) -> Paddle {
    let ny = p.pos.y + control_dy(up, down, dt);
    let y2: int = if -half_h < ny < half_h {
        ny
    } else {
        p.pos.y as int
    };
    Paddle { side: p.side, pos: Vec2i { x: paddle_x(p.side, half_w) as i64, y: y2 as i64 } }
}

impl GameState {
    /// Well-formedness: sides are paired one-to-one, every coordinate is
    /// in range, and each display shows its points.
    pub open spec fn wf(self) -> bool {
        &&& self.ball.pos.in_range()
        &&& self.ball.vel_in_range()
        &&& self.left_paddle.side == Side::Left
        &&& self.right_paddle.side == Side::Right
        &&& self.left_paddle.pos.in_range()
        &&& self.right_paddle.pos.in_range()
        &&& self.left_score.side == Side::Left
        &&& self.right_score.side == Side::Right
        &&& self.left_score.wf()
        &&& self.right_score.wf()
    }

    /// A fresh session for a window of the given size: the ball serves
    /// diagonally from the origin, the paddles sit centered a margin
    /// inside their walls, and both counters start at zero with their
    /// displays anchored for this window.
    pub fn new(width: i64, height: i64) -> (s: GameState)
        requires
            0 <= width <= MAX_COORD,
            0 <= height <= MAX_COORD,
        ensures
            s.wf(),
            s.ball.pos == (Vec2i { x: 0, y: 0 }),
            s.ball.vel == (Vec2i { x: BALL_SPEED, y: BALL_SPEED }),
            s.left_paddle.pos.y == 0,
            s.right_paddle.pos.y == 0,
            s.left_paddle.pos.x as int == paddle_x(Side::Left, width as int / 2),
            s.right_paddle.pos.x as int == paddle_x(Side::Right, width as int / 2),
            s.left_score.points == 0,
            s.right_score.points == 0,
            s.left_score.anchor.x as int == anchor_x(Side::Left, width as int),
            s.right_score.anchor.x as int == anchor_x(Side::Right, width as int),
            s.left_score.anchor.y as int == anchor_y(height as int),
            s.right_score.anchor.y as int == anchor_y(height as int),
    {
        let half_w = half_of(width);
        let ball = Ball {
            pos: Vec2i { x: 0, y: 0 },
            vel: Vec2i { x: BALL_SPEED, y: BALL_SPEED },
        };
        let left_paddle = Paddle {
            side: Side::Left,
            pos: Vec2i { x: -(half_w - PADDLE_MARGIN), y: 0 },
        };
        let right_paddle = Paddle {
            side: Side::Right,
            pos: Vec2i { x: half_w - PADDLE_MARGIN, y: 0 },
        };
        let left_score = ScoreCounter::new(Side::Left, score_anchor(Side::Left, width, height));
        let right_score = ScoreCounter::new(Side::Right, score_anchor(Side::Right, width, height));
        GameState { ball, left_paddle, right_paddle, left_score, right_score }
    }
}

/// Run one frame: movement, then input, then collision, then resize
/// synchronization, then scoring over the events this frame emitted.
///
/// The contract pins the whole frame down as the composition of the
/// systems' transition functions, and restates the two headline laws:
/// the ball's speed is conserved by a whole frame, and a paddle strictly
/// inside the vertical band stays strictly inside it.
pub fn tick(state: &mut GameState, ctx: &FrameContext)
    requires
        old(state).wf(),
        ctx.wf(),
        old(state).left_score.points < u64::MAX,
        old(state).right_score.points < u64::MAX,
    ensures
        final(state).wf(),
        ({
            let half_w = ctx.width as int / 2;
            let half_h = ctx.height as int / 2;
            let dt = ctx.dt as int;
            let mv = spec_moved_ball(old(state).ball, dt, half_w, half_h);
            let ev = mv.1;
            let lp = spec_stepped_paddle(
                old(state).left_paddle,
                ctx.controls.left_up,
                ctx.controls.left_down,
                dt,
                half_w,
                half_h,
            );
            let rp = spec_stepped_paddle(
                old(state).right_paddle,
                ctx.controls.right_up,
                ctx.controls.right_down,
                dt,
                half_w,
                half_h,
            );
            let collided = spec_collided_ball(mv.0, lp, rp);
            &&& final(state).left_paddle == lp
            &&& final(state).right_paddle == rp
            &&& final(state).ball.vel == collided.vel
            &&& (ev is None ==> {
                &&& final(state).ball.pos == collided.pos
                &&& final(state).left_score.points == old(state).left_score.points
                &&& final(state).right_score.points == old(state).right_score.points
            })
            &&& (ev is Some ==> {
                &&& final(state).ball.pos == (Vec2i { x: 0, y: 0 })
                &&& final(state).left_score.points == old(state).left_score.points + (
                if ev == Some(ScoreEvent { side: Side::Left }) {
                    1int
                } else {
                    0int
                })
                &&& final(state).right_score.points == old(state).right_score.points + (
                if ev == Some(ScoreEvent { side: Side::Right }) {
                    1int
                } else {
                    0int
                })
            })
        }),
        ctx.resizes@.len() == 0 ==> final(state).left_score.anchor == old(state).left_score.anchor
            && final(state).right_score.anchor == old(state).right_score.anchor,
        ctx.resizes@.len() > 0 ==> ({
            let first = ctx.resizes@[0];
            &&& final(state).left_score.anchor.x as int == anchor_x(Side::Left, first.width as int)
            &&& final(state).left_score.anchor.y as int == anchor_y(first.height as int)
            &&& final(state).right_score.anchor.x as int == anchor_x(
                Side::Right,
                first.width as int,
            )
            &&& final(state).right_score.anchor.y as int == anchor_y(first.height as int)
        }),
        is_bounce_of(final(state).ball.vel, old(state).ball.vel),
        speed_sq(final(state).ball.vel) == speed_sq(old(state).ball.vel),
        ({
            let half_h = ctx.height as int / 2;
            let ly0 = old(state).left_paddle.pos.y;
            let ry0 = old(state).right_paddle.pos.y;
            let ly1 = final(state).left_paddle.pos.y;
            let ry1 = final(state).right_paddle.pos.y;
            &&& (-half_h < ly0 < half_h ==> -half_h < ly1 < half_h)
            &&& (-half_h < ry0 < half_h ==> -half_h < ry1 < half_h)
        }),
{
    let half_w = half_of(ctx.width);
    let half_h = half_of(ctx.height);
    let ev = move_ball(&mut state.ball, ctx.dt, half_w, half_h);
    step_paddle(
        &mut state.left_paddle,
        ctx.controls.left_up,
        ctx.controls.left_down,
        ctx.dt,
        half_w,
        half_h,
    );
    step_paddle(
        &mut state.right_paddle,
        ctx.controls.right_up,
        ctx.controls.right_down,
        ctx.dt,
        half_w,
        half_h,
    );
    collision_step(&mut state.ball, &state.left_paddle, &state.right_paddle);
    apply_resize(&ctx.resizes, &mut state.left_score, &mut state.right_score);
    match ev {
        Some(e) => {
            let batch: Vec<ScoreEvent> = vec![e];
            proof {
                assert(batch@ =~= seq![e]);
                lemma_event_credits_only_matching_side(e);
            }
            handle_score(&batch, &mut state.left_score, &mut state.right_score, &mut state.ball);
        },
        None => {},
    }
}

} // verus!
