//! The entity model: the ball, the two paddles, the scoring event, and the
//! fixed game constants.
//!
//! Exactly one ball, one paddle per side and one score counter per side
//! exist for the life of a session; only their mutable fields change.  The
//! score counter itself lives in `scoring`, beside the rules that update it.

use crate::geom::Vec2i;
use vstd::prelude::*;

verus! {

/// Half of the ball's square extent (the ball is 25 by 25 units).
pub const BALL_HALF_EXTENT: i64 = 12_500;

/// Half of a paddle's width (paddles are 25 by 100 units).
pub const PADDLE_HALF_WIDTH: i64 = 12_500;

/// Half of a paddle's height.
pub const PADDLE_HALF_HEIGHT: i64 = 50_000;

/// Distance from the side wall to a paddle's center (25 units).
pub const PADDLE_MARGIN: i64 = 25_000;

/// The ball's serve speed per axis, in units per second.
pub const BALL_SPEED: i64 = 400;

/// The paddle speed in units per second.  Canonical choice: 300, the value
/// a held control moves a paddle by per second.
pub const PADDLE_SPEED: i64 = 300;

/// Upper bound on one frame's elapsed time, in milliseconds.  The host
/// clamps or drops longer frames before handing them to the core.
pub const MAX_DT_MS: i64 = 1_000_000;

/// Upper bound on the magnitude of a velocity component, in units per
/// second, so that one frame's displacement fits comfortably in an `i64`.
pub const MAX_SPEED: i64 = 1_000_000;

/// The player identity shared by a paddle and its score counter.
#[derive(Clone, Copy, PartialEq, Eq, Structural, Debug)]
pub enum Side {
    Left,
    Right,
}

/// The bouncing ball: a position in milli-units and a velocity in units per
/// second.  Its extent is the fixed `BALL_HALF_EXTENT` square.
#[derive(Clone, Copy, PartialEq, Eq, Structural, Debug)]
pub struct Ball {
    pub pos: Vec2i,
    pub vel: Vec2i,
}

impl Ball {
    /// Both velocity components stay within the speed bound.
    pub open spec fn vel_in_range(self) -> bool {
        &&& -MAX_SPEED <= self.vel.x <= MAX_SPEED
        &&& -MAX_SPEED <= self.vel.y <= MAX_SPEED
    }
}

/// A paddle: its side never changes; its `x` is recomputed from the live
/// half-width every frame, its `y` is the one truly mutable axis.
#[derive(Clone, Copy, PartialEq, Eq, Structural, Debug)]
pub struct Paddle {
    pub side: Side,
    pub pos: Vec2i,
}

/// A transient scoring message: which player is credited.  Emitted by the
/// movement system when the ball exits a horizontal bound, consumed exactly
/// once by the scoring system, then discarded.
#[derive(Clone, Copy, PartialEq, Eq, Structural, Debug)]
pub struct ScoreEvent {
    pub side: Side,
}

} // verus!
