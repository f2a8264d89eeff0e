//! The scoring system: per-player counters with their decimal display
//! text, and the rule that consumes a batch of scoring events and recenters
//! the ball.

use crate::entities::{Ball, ScoreEvent, Side};
use crate::geom::Vec2i;
use crate::text::{dec_seq, decimal_string};
use vstd::prelude::*;

verus! {

/// A per-player score counter.  `points` only ever grows, by exactly one
/// per consumed event of the matching side; `display` always shows the
/// decimal text of `points`; `anchor` is the screen position of the
/// display, owned here and rewritten on resize.
pub struct ScoreCounter {
    pub side: Side,
    pub points: u64,
    pub display: String,
    pub anchor: Vec2i,
}

impl ScoreCounter {
    /// The display text shows exactly the decimal value of the points.
    pub open spec fn wf(self) -> bool {
        self.display@ == dec_seq(self.points as nat)
    }

    /// A fresh counter for `side`: zero points, showing "0".
    pub fn new(side: Side, anchor: Vec2i) -> (c: ScoreCounter)
        ensures
            c.side == side,
            c.points == 0,
            c.anchor == anchor,
            c.wf(),
    {
        ScoreCounter { side, points: 0, display: decimal_string(0), anchor }
    }

    /// Credit one point and rewrite the display text.
    pub fn credit(&mut self)
        requires
            old(self).points < u64::MAX,
            old(self).wf(),
        ensures
            final(self).points == old(self).points + 1,
            final(self).side == old(self).side,
            final(self).anchor == old(self).anchor,
            final(self).wf(),
    {
        self.points = self.points + 1;
        self.display = decimal_string(self.points);
    }
}

/// How many events of a batch credit `side`, counted in emission order.
pub open spec fn count_side(events: Seq<ScoreEvent>, side: Side) -> nat
    decreases events.len(),
{
    if events.len() == 0 {
        0
    } else {
        count_side(events.drop_last(), side) + if events.last().side == side {
            1nat
        } else {
            0nat
        }
    }
}

/// Counting one more event extends the count by one exactly when the event
/// credits the counted side.
proof fn lemma_count_take_step(events: Seq<ScoreEvent>, side: Side, i: int)
    requires
        0 <= i < events.len(),
    ensures
        count_side(events.take(i + 1), side) == count_side(events.take(i), side) + (
        if events[i].side == side {
            1int
        } else {
            0int
        }),
{
    assert(events.take(i + 1).drop_last() =~= events.take(i));
    assert(events.take(i + 1).last() == events[i]);
}

/// A prefix never counts more than the whole batch.
proof fn lemma_count_take_le(events: Seq<ScoreEvent>, side: Side, i: int)
    requires
        0 <= i <= events.len(),
    ensures
        count_side(events.take(i), side) <= count_side(events, side),
    decreases events.len() - i,
{
    if i == events.len() {
        assert(events.take(i) =~= events);
    } else {
        lemma_count_take_step(events, side, i);
        lemma_count_take_le(events, side, i + 1);
    }
}

/// One event credits exactly its own side and no other: a batch of that
/// single event counts one for the event's side and zero for any other.
pub proof fn lemma_event_credits_only_matching_side(e: ScoreEvent)
    ensures
        count_side(seq![e], e.side) == 1,
        forall|s: Side| s != e.side ==> count_side(seq![e], s) == 0,
{
    let single = seq![e];
    assert(single.drop_last() =~= Seq::<ScoreEvent>::empty());
    assert(count_side(Seq::<ScoreEvent>::empty(), e.side) == 0);
    assert(count_side(single, e.side) == 1);
    assert forall|s: Side| s != e.side implies count_side(seq![e], s) == 0 by {
        assert(count_side(Seq::<ScoreEvent>::empty(), s) == 0);
        assert(count_side(single, s) == 0);
    }
}

/// Consume a batch of scoring events in emission order: each event credits
/// exactly the counter of its own side and rewrites that counter's display
/// text; afterwards the ball is recentered at the field origin exactly,
/// with its velocity untouched.
pub fn handle_score(
    events: &Vec<ScoreEvent>,
    left: &mut ScoreCounter,
    right: &mut ScoreCounter,
    ball: &mut Ball,
)
    requires
        old(left).side == Side::Left,
        old(right).side == Side::Right,
        old(left).wf(),
        old(right).wf(),
        old(left).points + count_side(events@, Side::Left) <= u64::MAX,
        old(right).points + count_side(events@, Side::Right) <= u64::MAX,
    ensures
        final(left).points == old(left).points + count_side(events@, Side::Left),
        final(right).points == old(right).points + count_side(events@, Side::Right),
        final(left).side == Side::Left,
        final(right).side == Side::Right,
        final(left).anchor == old(left).anchor,
        final(right).anchor == old(right).anchor,
        final(left).wf(),
        final(right).wf(),
        final(ball).pos == (Vec2i { x: 0, y: 0 }),
        final(ball).vel == old(ball).vel,
{
    let n = events.len();
    let mut i: usize = 0;
    while i < n
        invariant
            i <= n,
            n == events@.len(),
            left.side == Side::Left,
            right.side == Side::Right,
            left.wf(),
            right.wf(),
            left.anchor == old(left).anchor,
            right.anchor == old(right).anchor,
            left.points == old(left).points + count_side(events@.take(i as int), Side::Left),
            right.points == old(right).points + count_side(events@.take(i as int), Side::Right),
            old(left).points + count_side(events@, Side::Left) <= u64::MAX,
            old(right).points + count_side(events@, Side::Right) <= u64::MAX,
        decreases n - i,
    {
        proof {
            lemma_count_take_step(events@, Side::Left, i as int);
            lemma_count_take_step(events@, Side::Right, i as int);
            lemma_count_take_le(events@, Side::Left, i as int + 1);
            lemma_count_take_le(events@, Side::Right, i as int + 1);
        }
        match events[i].side {
            Side::Left => left.credit(),
            Side::Right => right.credit(),
        }
        i = i + 1;
    }
    proof {
        assert(events@.take(n as int) =~= events@);
    }
    ball.pos.x = 0;
    ball.pos.y = 0;
}

} // verus!
