//! The collision system: tests the ball against each paddle and, on
//! overlap, forces the ball's horizontal velocity away from the struck
//! face.
//!
//! Canonical policy: the side-aware rule.  A hit on the paddle's left face
//! forces the horizontal velocity negative, a hit on the right face forces
//! it positive; top or bottom grazes leave it alone.  Forcing a sign
//! instead of toggling it makes the rule idempotent, so a ball that still
//! overlaps after being resolved is never reflected back into the paddle.

use crate::entities::{Ball, Paddle, BALL_HALF_EXTENT, PADDLE_HALF_HEIGHT, PADDLE_HALF_WIDTH};
use crate::geom::{
    is_bounce_of, lemma_bounce_preserves_speed, spec_collide_aabb, speed_sq, Edge, Vec2i,
};
use vstd::math::abs;
use vstd::prelude::*;

verus! {

/// The ball's half-extents as a vector.
pub open spec fn ball_half() -> Vec2i {
    Vec2i { x: BALL_HALF_EXTENT, y: BALL_HALF_EXTENT }
}

/// A paddle's half-extents as a vector.
pub open spec fn paddle_half() -> Vec2i {
    Vec2i { x: PADDLE_HALF_WIDTH, y: PADDLE_HALF_HEIGHT }
}

/// The side-aware resolution rule applied to a horizontal velocity.
pub open spec fn resolved_vx(vx: int, hit: Option<Edge>) -> int {
    match hit {
        Some(Edge::Left) => -(abs(vx) as int),
        Some(Edge::Right) => abs(vx) as int,
        _ => vx,
    }
}

/// What one ball-against-paddle test resolves the ball's velocity to.
pub open spec fn spec_paddle_bounce_vx(ball: Ball, paddle: Paddle) -> int {
    resolved_vx(
        ball.vel.x as int,
        spec_collide_aabb(ball.pos, ball_half(), paddle.pos, paddle_half()),
    )
}

/// Resolve the ball against one paddle: on overlap the horizontal velocity
/// is forced away from the struck face; position and vertical velocity are
/// never touched, and the ball's speed is conserved.
pub fn paddle_bounce(ball: &mut Ball, paddle: &Paddle)
    requires
        old(ball).pos.near_range(),
        old(ball).vel_in_range(),
        paddle.pos.near_range(),
    ensures
        final(ball).pos == old(ball).pos,
        final(ball).vel.y == old(ball).vel.y,
        final(ball).vel.x as int == spec_paddle_bounce_vx(*old(ball), *paddle),
        is_bounce_of(final(ball).vel, old(ball).vel),
        speed_sq(final(ball).vel) == speed_sq(old(ball).vel),
        final(ball).vel_in_range(),
{
    let b_half = Vec2i { x: BALL_HALF_EXTENT, y: BALL_HALF_EXTENT };
    let p_half = Vec2i { x: PADDLE_HALF_WIDTH, y: PADDLE_HALF_HEIGHT };
    let hit = crate::geom::collide_aabb(&ball.pos, &b_half, &paddle.pos, &p_half);
    match hit {
        Some(Edge::Left) => {
            ball.vel.x = if ball.vel.x < 0 {
                ball.vel.x
            } else {
                -ball.vel.x
            };
        },
        Some(Edge::Right) => {
            ball.vel.x = if ball.vel.x < 0 {
                -ball.vel.x
            } else {
                ball.vel.x
            };
        },
        _ => {},
    }
    proof {
        lemma_bounce_preserves_speed(old(ball).vel, ball.vel);
    }
}

/// Resolve the ball against both paddles, left first.  This mirrors one
/// frame of the collision system.
pub fn collision_step(ball: &mut Ball, left: &Paddle, right: &Paddle)
    requires
        old(ball).pos.near_range(),
        old(ball).vel_in_range(),
        left.pos.near_range(),
        right.pos.near_range(),
    ensures
        final(ball).pos == old(ball).pos,
        final(ball).vel.y == old(ball).vel.y,
        final(ball).vel.x as int == ({
            let after_left = Ball {
                pos: old(ball).pos,
                vel: Vec2i { x: spec_paddle_bounce_vx(*old(ball), *left) as i64, y: old(ball).vel.y },
            };
            spec_paddle_bounce_vx(after_left, *right)
        }),
        is_bounce_of(final(ball).vel, old(ball).vel),
        speed_sq(final(ball).vel) == speed_sq(old(ball).vel),
        final(ball).vel_in_range(),
{
    paddle_bounce(ball, left);
    paddle_bounce(ball, right);
}

/// The side-aware rule is idempotent: resolving an already-resolved overlap
/// a second time in the same frame leaves the velocity as it is.
pub proof fn lemma_side_aware_idempotent(ball: Ball, paddle: Paddle)
    requires
        ball.vel_in_range(),
    ensures
        ({
            let once = Ball {
                pos: ball.pos,
                vel: Vec2i { x: spec_paddle_bounce_vx(ball, paddle) as i64, y: ball.vel.y },
            };
            spec_paddle_bounce_vx(once, paddle) == once.vel.x as int
        }),
{
}

} // verus!
