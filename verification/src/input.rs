//! The input system: maps the held controls of one side to a signed
//! vertical paddle velocity, integrates the paddle position, and refuses
//! any move that would leave the open vertical band.

use crate::entities::{Paddle, Side, MAX_DT_MS, PADDLE_MARGIN, PADDLE_SPEED};
use crate::geom::MAX_COORD;
use vstd::prelude::*;

verus! {

/// The paddle's horizontal anchor: a fixed margin inside its own wall,
/// recomputed from the live half-width every frame.
pub open spec fn paddle_x(side: Side, half_w: int) -> int {
    match side {
        Side::Left => -(half_w - PADDLE_MARGIN),
        Side::Right => half_w - PADDLE_MARGIN,
    }
}

/// The vertical displacement one frame of held controls produces: the up
/// control moves by `PADDLE_SPEED * dt`, the down control by its negation,
/// and holding both or neither moves by nothing.
pub open spec fn control_dy(up: bool, down: bool, dt: int) -> int {
    if up && !down {
        PADDLE_SPEED * dt
    } else if down && !up {
        -(PADDLE_SPEED * dt)
    } else {
        0
    }
}

/// Advance one paddle by one frame.
///
/// The horizontal position snaps to `paddle_x` unconditionally, so paddles
/// track the window width live.  The vertical position commits to
/// `y + control_dy` only when that value lies strictly inside
/// `(-half_h, half_h)`; otherwise the paddle does not move this frame.
/// This is a hard stop, not a clamp: a paddle can come arbitrarily close
/// to a wall but never lands exactly on it.
pub fn step_paddle(paddle: &mut Paddle, up: bool, down: bool, dt: i64, half_w: i64, half_h: i64)
    requires
        0 <= dt <= MAX_DT_MS,
        old(paddle).pos.in_range(),
        0 <= half_w <= MAX_COORD,
        0 <= half_h <= MAX_COORD,
    ensures
        final(paddle).side == old(paddle).side,
        final(paddle).pos.x as int == paddle_x(old(paddle).side, half_w as int),
        final(paddle).pos.y as int == ({
            let ny = old(paddle).pos.y + control_dy(up, down, dt as int);
            if -half_h < ny < half_h {
                ny
            } else {
                old(paddle).pos.y as int
            }
        }),
        -half_h < old(paddle).pos.y < half_h ==> -half_h < final(paddle).pos.y < half_h,
        final(paddle).pos.in_range(),
{
    match paddle.side {
        Side::Left => {
            paddle.pos.x = -(half_w - PADDLE_MARGIN);
        },
        Side::Right => {
            paddle.pos.x = half_w - PADDLE_MARGIN;
        },
    }
    let dy: i64 = if up && !down {
        PADDLE_SPEED * dt
    } else if down && !up {
        -(PADDLE_SPEED * dt)
    } else {
        0
    };
    let ny: i64 = paddle.pos.y + dy;
    if -half_h < ny && ny < half_h {
        paddle.pos.y = ny;
    }
}

} // verus!
