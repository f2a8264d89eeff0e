//! Geometry and physics primitives: integer 2D vectors, the squared-speed
//! measure, and the axis-aligned bounding-box overlap test with side
//! classification.  Pure functions, no state.

use vstd::math::abs;
use vstd::prelude::*;

verus! {

/// Coordinates handed to the simulation stay within this bound (milli-units),
/// so that every sum or difference of two coordinates still fits in an `i64`.
pub const MAX_COORD: i64 = 0x2000_0000_0000_0000;

/// How far beyond `MAX_COORD` a coordinate may land after one frame of
/// movement.  One frame displaces the ball by at most the speed bound times
/// the frame-time bound, which is far below this.
pub const MAX_DRIFT: i64 = 0x0100_0000_0000_0000;

/// A coordinate the simulation accepts as input.
pub open spec fn in_range(c: int) -> bool {
    -MAX_COORD <= c <= MAX_COORD
}

/// A coordinate that may additionally carry one frame of drift; geometry
/// queries still do their arithmetic on it without overflow.
pub open spec fn near_range(c: int) -> bool {
    -(MAX_COORD + MAX_DRIFT) <= c <= MAX_COORD + MAX_DRIFT
}

/// A 2D integer vector.  Used both for positions (milli-units) and for
/// velocities (world units per second).
#[derive(Clone, Copy, PartialEq, Eq, Structural, Debug)]
pub struct Vec2i {
    pub x: i64,
    pub y: i64,
}

impl Vec2i {
    /// Both components lie within the input coordinate range.
    pub open spec fn in_range(self) -> bool {
        in_range(self.x as int) && in_range(self.y as int)
    }

    /// Both components lie within the drift-tolerant coordinate range.
    pub open spec fn near_range(self) -> bool {
        near_range(self.x as int) && near_range(self.y as int)
    }
}

/// The squared magnitude of a vector: the bounce laws conserve this measure,
/// which is equivalent to conserving the speed itself.
pub open spec fn speed_sq(v: Vec2i) -> int {
    v.x * v.x + v.y * v.y
}

/// `v2` comes out of `v1` by bouncing: on each axis the component is either
/// untouched or forced to one sign with its magnitude kept.  Every velocity
/// change the simulation ever makes (wall reflection, paddle bounce) has
/// this shape.
pub open spec fn is_bounce_of(v2: Vec2i, v1: Vec2i) -> bool {
    &&& (v2.x == v1.x || v2.x as int == abs(v1.x as int) || v2.x as int == -abs(v1.x as int))
    &&& (v2.y == v1.y || v2.y as int == abs(v1.y as int) || v2.y as int == -abs(v1.y as int))
}

/// Squaring forgets the sign.
proof fn lemma_sq_of_signed(a: int, b: int)
    requires
        b == a || b == -a,
    ensures
        b * b == a * a,
{
    assert(b * b == a * a) by (nonlinear_arith)
        requires
            b == a || b == -a,
    ;
}

/// One bounce conserves the ball's speed: the squared magnitude of the
/// velocity is unchanged.
pub proof fn lemma_bounce_preserves_speed(v1: Vec2i, v2: Vec2i)
    requires
        is_bounce_of(v2, v1),
    ensures
        speed_sq(v2) == speed_sq(v1),
{
    lemma_sq_of_signed(v1.x as int, v2.x as int);
    lemma_sq_of_signed(v1.y as int, v2.y as int);
}

/// Ball speed is invariant across any number of bounces: along any chain of
/// velocities in which each entry is a bounce of the one before it, the last
/// velocity has exactly the squared magnitude of the first.
pub proof fn lemma_speed_invariant_across_bounces(vs: Seq<Vec2i>)
    requires
        vs.len() > 0,
        forall|i: int| 0 <= i < vs.len() - 1 ==> #[trigger] is_bounce_of(vs[i + 1], vs[i]),
    ensures
        speed_sq(vs[vs.len() - 1]) == speed_sq(vs[0]),
    decreases vs.len(),
{
    if vs.len() > 1 {
        let prefix = vs.subrange(0, vs.len() - 1);
        assert forall|i: int| 0 <= i < prefix.len() - 1 implies #[trigger] is_bounce_of(
            prefix[i + 1],
            prefix[i],
        ) by {
            assert(is_bounce_of(vs[i + 1], vs[i]));
        }
        lemma_speed_invariant_across_bounces(prefix);
        let n = vs.len() - 2;
        assert(is_bounce_of(vs[n + 1], vs[n]));
        lemma_bounce_preserves_speed(vs[n], vs[n + 1]);
    }
}

/// The face of the second box that the first box struck.
#[derive(Clone, Copy, PartialEq, Eq, Structural, Debug)]
pub enum Edge {
    Left,
    Right,
    Top,
    Bottom,
}

/// Overlap test between box `a` (center `a_pos`, half-extents `a_half`) and
/// box `b`, classifying which face of `b` was struck.
///
/// The boxes collide only when they overlap strictly on both axes.  The
/// struck face lies on the axis of least penetration; ties go to the
/// vertical faces (`Top`/`Bottom`).  On the chosen axis the face is the one
/// on `a`'s side of `b`'s center, with `Right`/`Top` when the centers
/// coincide on that axis.
pub open spec fn spec_collide_aabb(a_pos: Vec2i, a_half: Vec2i, b_pos: Vec2i, b_half: Vec2i) -> Option<Edge> {
    let dx = a_pos.x - b_pos.x;
    let dy = a_pos.y - b_pos.y;
    let x_over = a_half.x + b_half.x - abs(dx);
    let y_over = a_half.y + b_half.y - abs(dy);
    if x_over <= 0 || y_over <= 0 {
        None
    } else if x_over < y_over {
        if dx < 0 {
            Some(Edge::Left)
        } else {
            Some(Edge::Right)
        }
    } else {
        if dy < 0 {
            Some(Edge::Bottom)
        } else {
            Some(Edge::Top)
        }
    }
}

/// Half of a nonnegative coordinate, rounding toward zero.
pub fn half_of(v: i64) -> (r: i64)
    requires
        0 <= v,
    ensures
        r == v as int / 2,
{
    ((v as u64) / 2) as i64
}

/// A quarter of a nonnegative coordinate, rounding toward zero.
pub fn quarter_of(v: i64) -> (r: i64)
    requires
        0 <= v,
    ensures
        r == v as int / 4,
{
    ((v as u64) / 4) as i64
}

/// Executable overlap test; returns exactly what `spec_collide_aabb` says.
pub fn collide_aabb(a_pos: &Vec2i, a_half: &Vec2i, b_pos: &Vec2i, b_half: &Vec2i) -> (r: Option<Edge>)
    requires
        a_pos.near_range(),
        b_pos.near_range(),
        0 <= a_half.x <= MAX_DRIFT,
        0 <= a_half.y <= MAX_DRIFT,
        0 <= b_half.x <= MAX_DRIFT,
        0 <= b_half.y <= MAX_DRIFT,
    ensures
        r == spec_collide_aabb(*a_pos, *a_half, *b_pos, *b_half),
{
    let dx = a_pos.x - b_pos.x;
    let dy = a_pos.y - b_pos.y;
    let adx = if dx < 0 { -dx } else { dx };
    let ady = if dy < 0 { -dy } else { dy };
    let x_over = a_half.x + b_half.x - adx;
    let y_over = a_half.y + b_half.y - ady;
    if x_over <= 0 || y_over <= 0 {
        None
    } else if x_over < y_over {
        if dx < 0 {
            Some(Edge::Left)
        } else {
            Some(Edge::Right)
        }
    } else {
        if dy < 0 {
            Some(Edge::Bottom)
        } else {
            Some(Edge::Top)
        }
    }
}

} // verus!
