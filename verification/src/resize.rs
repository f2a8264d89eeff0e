//! Resize synchronization: when the window changes size, the score
//! displays' screen anchors are recomputed.  Only the first notification
//! observed in a tick is applied; later ones in the same batch are
//! silently dropped (a deliberate latency/consistency trade-off).  The
//! movement and input systems need no notification at all: they read the
//! live half-extents from the per-tick context.

use crate::entities::Side;
use crate::geom::{quarter_of, Vec2i, MAX_COORD};
use crate::scoring::ScoreCounter;
use vstd::prelude::*;

verus! {

/// The score text sits this far (100 units) below the top edge.
pub const SCORE_ANCHOR_DROP: i64 = 100_000;

/// A window-resize notification carrying the new size in milli-units.
#[derive(Clone, Copy, PartialEq, Eq, Structural, Debug)]
pub struct ResizeNotice {
    pub width: i64,
    pub height: i64,
}

impl ResizeNotice {
    /// Window dimensions are nonnegative and within the coordinate range.
    pub open spec fn wf(self) -> bool {
        &&& 0 <= self.width <= MAX_COORD
        &&& 0 <= self.height <= MAX_COORD
    }
}

/// The horizontal anchor of a score display: a quarter of the window width
/// toward the display's own side.
pub open spec fn anchor_x(side: Side, width: int) -> int {
    match side {
        Side::Left => -(width / 4),
        Side::Right => width / 4,
    }
}

/// The vertical anchor of a score display: 100 units below the top edge.
pub open spec fn anchor_y(height: int) -> int {
    height / 2 - SCORE_ANCHOR_DROP
}

/// The anchor position of a score display for a window of the given size.
pub fn score_anchor(side: Side, width: i64, height: i64) -> (a: Vec2i)
    requires
        0 <= width <= MAX_COORD,
        0 <= height <= MAX_COORD,
    ensures
        a.x as int == anchor_x(side, width as int),
        a.y as int == anchor_y(height as int),
{
    let qw = quarter_of(width);
    let x = match side {
        Side::Left => -qw,
        Side::Right => qw,
    };
    let y = crate::geom::half_of(height) - SCORE_ANCHOR_DROP;
    Vec2i { x, y }
}

/// Apply one tick's batch of resize notifications to the two score
/// displays: the first notification repositions both anchors, every later
/// one in the batch is dropped, and an empty batch changes nothing.
/// Points, display text and sides are never touched here.
pub fn apply_resize(batch: &Vec<ResizeNotice>, left: &mut ScoreCounter, right: &mut ScoreCounter)
    requires
        batch@.len() > 0 ==> batch@[0].wf(),
    ensures
        batch@.len() == 0 ==> final(left).anchor == old(left).anchor && final(right).anchor
            == old(right).anchor,
        batch@.len() > 0 ==> ({
            let first = batch@[0];
            &&& final(left).anchor.x as int == anchor_x(old(left).side, first.width as int)
            &&& final(left).anchor.y as int == anchor_y(first.height as int)
            &&& final(right).anchor.x as int == anchor_x(old(right).side, first.width as int)
            &&& final(right).anchor.y as int == anchor_y(first.height as int)
        }),
        final(left).side == old(left).side,
        final(left).points == old(left).points,
        final(left).display == old(left).display,
        final(right).side == old(right).side,
        final(right).points == old(right).points,
        final(right).display == old(right).display,
{
    if batch.len() > 0 {
        let first = batch[0];
        left.anchor = score_anchor(left.side, first.width, first.height);
        right.anchor = score_anchor(right.side, first.width, first.height);
    }
}

} // verus!
