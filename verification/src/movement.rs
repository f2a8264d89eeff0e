//! The movement system: integrates the ball's position by `velocity * dt`,
//! reflects the vertical velocity on the vertical bounds, and on a
//! horizontal exit emits a scoring event instead of moving the ball.

use crate::entities::{Ball, ScoreEvent, Side, MAX_DT_MS, MAX_SPEED};
use crate::geom::{is_bounce_of, lemma_bounce_preserves_speed, speed_sq, MAX_COORD};
use vstd::math::abs;
use vstd::prelude::*;

verus! {

/// The vertical bounce rule: if the candidate position is below the field,
/// the vertical velocity is forced upward; if above, forced downward;
/// otherwise it is untouched.  Forcing the sign (rather than negating)
/// keeps the rule correct even when the velocity sign was already wrong.
pub open spec fn bounced_vy(vy: int, cand_y: int, half_h: int) -> int {
    if cand_y < -half_h {
        abs(vy) as int
    } else if cand_y > half_h {
        -(abs(vy) as int)
    } else {
        vy
    }
}

/// Which scoring event a horizontal exit emits: leaving past the left wall
/// credits the right player, and the other way round.  No event inside the
/// bounds (boundary contact included).
pub open spec fn exit_event(cand_x: int, half_w: int) -> Option<ScoreEvent> {
    if cand_x < -half_w {
        Some(ScoreEvent { side: Side::Right })
    } else if cand_x > half_w {
        Some(ScoreEvent { side: Side::Left })
    } else {
        None
    }
}

/// A product of a bounded velocity component and a bounded frame time stays
/// within the product of the bounds.
pub proof fn lemma_displacement_bounds(v: int, d: int, vm: int, dm: int)
    requires
        -vm <= v <= vm,
        0 <= d <= dm,
        0 <= vm,
    ensures
        -(vm * dm) <= v * d <= vm * dm,
{
    assert(-(vm * dm) <= v * d <= vm * dm) by (nonlinear_arith)
        requires
            -vm <= v <= vm,
            0 <= d <= dm,
            0 <= vm,
    ;
}

/// Negating one factor negates the product.
proof fn lemma_neg_mul(a: int, b: int)
    ensures
        (-a) * b == -(a * b),
{
    assert((-a) * b == -(a * b)) by (nonlinear_arith);
}

/// With a nonnegative second factor, the product keeps the first factor's
/// sign.
proof fn lemma_mul_sign(a: int, b: int)
    requires
        0 <= b,
    ensures
        a >= 0 ==> a * b >= 0,
        a <= 0 ==> a * b <= 0,
{
    assert(a >= 0 ==> a * b >= 0) by (nonlinear_arith)
        requires
            0 <= b,
    ;
    assert(a <= 0 ==> a * b <= 0) by (nonlinear_arith)
        requires
            0 <= b,
    ;
}

/// Advance the ball by one frame.
///
/// With `cand` the position the old velocity would reach, the vertical
/// velocity becomes `bounced_vy`, and:
/// - if `cand.x` exits a horizontal bound, the matching scoring event is
///   returned and the ball freezes in place for this frame;
/// - otherwise the ball commits to `cand.x` and to the vertical position
///   reached by the *post-bounce* vertical velocity, so a wall bounce
///   already changes this frame's displacement.
///
/// The horizontal velocity is never touched here, and the ball's speed is
/// conserved exactly.
pub fn move_ball(ball: &mut Ball, dt: i64, half_w: i64, half_h: i64) -> (ev: Option<ScoreEvent>)
    requires
        0 <= dt <= MAX_DT_MS,
        old(ball).pos.in_range(),
        old(ball).vel_in_range(),
        0 <= half_w <= MAX_COORD,
        0 <= half_h <= MAX_COORD,
    ensures
        final(ball).vel.x == old(ball).vel.x,
        final(ball).vel.y as int == bounced_vy(
            old(ball).vel.y as int,
            old(ball).pos.y + old(ball).vel.y * dt,
            half_h as int,
        ),
        ev == exit_event(old(ball).pos.x + old(ball).vel.x * dt, half_w as int),
        ev is Some ==> final(ball).pos == old(ball).pos,
        ev is None ==> final(ball).pos.x as int == old(ball).pos.x + old(ball).vel.x * dt,
        ev is None ==> final(ball).pos.y as int == old(ball).pos.y + final(ball).vel.y * dt,
        is_bounce_of(final(ball).vel, old(ball).vel),
        speed_sq(final(ball).vel) == speed_sq(old(ball).vel),
        final(ball).pos.in_range(),
        final(ball).vel_in_range(),
{
    proof {
        lemma_displacement_bounds(
            old(ball).vel.x as int,
            dt as int,
            MAX_SPEED as int,
            MAX_DT_MS as int,
        );
        lemma_displacement_bounds(
            old(ball).vel.y as int,
            dt as int,
            MAX_SPEED as int,
            MAX_DT_MS as int,
        );
    }
    let cand_x: i64 = ball.pos.x + ball.vel.x * dt;
    let cand_y: i64 = ball.pos.y + ball.vel.y * dt;
    if cand_y < -half_h {
        ball.vel.y = if ball.vel.y < 0 {
            -ball.vel.y
        } else {
            ball.vel.y
        };
    } else if cand_y > half_h {
        ball.vel.y = if ball.vel.y < 0 {
            ball.vel.y
        } else {
            -ball.vel.y
        };
    }
    proof {
        lemma_bounce_preserves_speed(old(ball).vel, ball.vel);
        lemma_displacement_bounds(
            ball.vel.y as int,
            dt as int,
            MAX_SPEED as int,
            MAX_DT_MS as int,
        );
        lemma_neg_mul(old(ball).vel.y as int, dt as int);
        lemma_mul_sign(old(ball).vel.y as int, dt as int);
        lemma_mul_sign(ball.vel.y as int, dt as int);
    }
    if cand_x < -half_w {
        Some(ScoreEvent { side: Side::Right })
    } else if cand_x > half_w {
        Some(ScoreEvent { side: Side::Left })
    } else {
        ball.pos.x = cand_x;
        ball.pos.y = ball.pos.y + ball.vel.y * dt;
        None
    }
}

} // verus!
