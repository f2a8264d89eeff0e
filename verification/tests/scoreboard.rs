use pong_core::entities::{Ball, ScoreEvent, Side};
use pong_core::geom::Vec2i;
use pong_core::resize::{apply_resize, score_anchor, ResizeNotice};
use pong_core::scoring::{handle_score, ScoreCounter};
use pong_core::text::decimal_string;

fn counters() -> (ScoreCounter, ScoreCounter) {
    let origin = Vec2i { x: 0, y: 0 };
    (ScoreCounter::new(Side::Left, origin), ScoreCounter::new(Side::Right, origin))
}

fn resting_ball() -> Ball {
    Ball { pos: Vec2i { x: 77_000, y: -5_000 }, vel: Vec2i { x: 400, y: -400 } }
}

#[test]
fn decimal_text_is_exact() {
    assert_eq!(decimal_string(0), "0");
    assert_eq!(decimal_string(7), "7");
    assert_eq!(decimal_string(10), "10");
    assert_eq!(decimal_string(305), "305");
    assert_eq!(decimal_string(1_234_567_890), "1234567890");
    assert_eq!(decimal_string(u64::MAX), "18446744073709551615");
}

#[test]
fn new_counter_shows_zero() {
    let (left, right) = counters();
    assert_eq!(left.points, 0);
    assert_eq!(left.display, "0");
    assert_eq!(right.points, 0);
    assert_eq!(right.display, "0");
}

#[test]
fn credit_increments_and_rewrites_display() {
    let (mut left, _) = counters();
    left.credit();
    assert_eq!(left.points, 1);
    assert_eq!(left.display, "1");
    for _ in 0..11 {
        left.credit();
    }
    assert_eq!(left.points, 12);
    assert_eq!(left.display, "12");
}

#[test]
fn event_credits_only_its_own_side() {
    let (mut left, mut right) = counters();
    let mut ball = resting_ball();
    let events = vec![ScoreEvent { side: Side::Left }];
    handle_score(&events, &mut left, &mut right, &mut ball);
    assert_eq!(left.points, 1);
    assert_eq!(left.display, "1");
    assert_eq!(right.points, 0);
    assert_eq!(right.display, "0");
}

#[test]
fn batch_is_consumed_in_order_per_side() {
    let (mut left, mut right) = counters();
    let mut ball = resting_ball();
    let events = vec![
        ScoreEvent { side: Side::Left },
        ScoreEvent { side: Side::Right },
        ScoreEvent { side: Side::Left },
    ];
    handle_score(&events, &mut left, &mut right, &mut ball);
    assert_eq!(left.points, 2);
    assert_eq!(left.display, "2");
    assert_eq!(right.points, 1);
    assert_eq!(right.display, "1");
}

#[test]
fn ball_resets_to_origin_with_velocity_kept() {
    let (mut left, mut right) = counters();
    let mut ball = resting_ball();
    let events = vec![ScoreEvent { side: Side::Right }];
    handle_score(&events, &mut left, &mut right, &mut ball);
    assert_eq!(ball.pos.x, 0);
    assert_eq!(ball.pos.y, 0);
    assert_eq!(ball.vel.x, 400);
    assert_eq!(ball.vel.y, -400);
}

#[test]
fn empty_batch_changes_no_score_and_still_recenters() {
    let (mut left, mut right) = counters();
    let mut ball = resting_ball();
    let events: Vec<ScoreEvent> = vec![];
    handle_score(&events, &mut left, &mut right, &mut ball);
    assert_eq!(left.points, 0);
    assert_eq!(right.points, 0);
    assert_eq!(ball.pos.x, 0);
    assert_eq!(ball.pos.y, 0);
}

#[test]
fn anchor_formula_places_displays() {
    // Window of 1000 by 800 units: a quarter width to each side, 100 units
    // below the top edge.
    let a = score_anchor(Side::Left, 1_000_000, 800_000);
    assert_eq!(a.x, -250_000);
    assert_eq!(a.y, 300_000);
    let a = score_anchor(Side::Right, 1_000_000, 800_000);
    assert_eq!(a.x, 250_000);
    assert_eq!(a.y, 300_000);
}

#[test]
fn only_first_resize_of_a_tick_applies() {
    let (mut left, mut right) = counters();
    let batch = vec![
        ResizeNotice { width: 1_000_000, height: 800_000 },
        ResizeNotice { width: 400_000, height: 200_000 },
    ];
    apply_resize(&batch, &mut left, &mut right);
    assert_eq!(left.anchor.x, -250_000);
    assert_eq!(left.anchor.y, 300_000);
    assert_eq!(right.anchor.x, 250_000);
    assert_eq!(right.anchor.y, 300_000);
}

#[test]
fn empty_resize_batch_changes_nothing() {
    let (mut left, mut right) = counters();
    let batch: Vec<ResizeNotice> = vec![];
    apply_resize(&batch, &mut left, &mut right);
    assert_eq!(left.anchor.x, 0);
    assert_eq!(left.anchor.y, 0);
    assert_eq!(right.anchor.x, 0);
    assert_eq!(right.anchor.y, 0);
}

#[test]
fn resize_leaves_points_and_text_alone() {
    let (mut left, mut right) = counters();
    left.credit();
    let batch = vec![ResizeNotice { width: 600_000, height: 400_000 }];
    apply_resize(&batch, &mut left, &mut right);
    assert_eq!(left.points, 1);
    assert_eq!(left.display, "1");
    assert_eq!(right.points, 0);
    assert_eq!(right.display, "0");
}
