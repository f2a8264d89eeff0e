use pong_core::entities::MAX_DT_MS;
use pong_core::frame::{clamp_dt, tick, Controls, FrameContext, GameState};
use pong_core::geom::Vec2i;
use pong_core::resize::ResizeNotice;

const WIDTH: i64 = 800_000;
const HEIGHT: i64 = 600_000;

fn no_controls() -> Controls {
    Controls { left_up: false, left_down: false, right_up: false, right_down: false }
}

fn quiet_ctx(dt: i64) -> FrameContext {
    FrameContext { dt, width: WIDTH, height: HEIGHT, controls: no_controls(), resizes: vec![] }
}

#[test]
fn fresh_session_is_centered() {
    let s = GameState::new(WIDTH, HEIGHT);
    assert_eq!(s.ball.pos, Vec2i { x: 0, y: 0 });
    assert_eq!(s.ball.vel, Vec2i { x: 400, y: 400 });
    assert_eq!(s.left_paddle.pos.x, -375_000);
    assert_eq!(s.right_paddle.pos.x, 375_000);
    assert_eq!(s.left_paddle.pos.y, 0);
    assert_eq!(s.right_paddle.pos.y, 0);
    assert_eq!(s.left_score.points, 0);
    assert_eq!(s.right_score.points, 0);
    assert_eq!(s.left_score.display, "0");
    assert_eq!(s.left_score.anchor, Vec2i { x: -200_000, y: 200_000 });
    assert_eq!(s.right_score.anchor, Vec2i { x: 200_000, y: 200_000 });
}

#[test]
fn quiet_tick_just_integrates_the_ball() {
    let mut s = GameState::new(WIDTH, HEIGHT);
    tick(&mut s, &quiet_ctx(16));
    assert_eq!(s.ball.pos, Vec2i { x: 6_400, y: 6_400 });
    assert_eq!(s.ball.vel, Vec2i { x: 400, y: 400 });
    assert_eq!(s.left_score.points, 0);
    assert_eq!(s.right_score.points, 0);
    assert_eq!(s.left_paddle.pos.y, 0);
}

#[test]
fn exit_scores_and_recenters_within_one_tick() {
    let mut s = GameState::new(WIDTH, HEIGHT);
    s.ball.pos = Vec2i { x: 399_000, y: 0 };
    s.ball.vel = Vec2i { x: 400, y: 0 };
    tick(&mut s, &quiet_ctx(10));
    assert_eq!(s.left_score.points, 1);
    assert_eq!(s.left_score.display, "1");
    assert_eq!(s.right_score.points, 0);
    assert_eq!(s.ball.pos, Vec2i { x: 0, y: 0 });
    assert_eq!(s.ball.vel, Vec2i { x: 400, y: 0 });
}

#[test]
fn held_control_moves_paddle_during_tick() {
    let mut s = GameState::new(WIDTH, HEIGHT);
    let ctx = FrameContext {
        dt: 100,
        width: WIDTH,
        height: HEIGHT,
        controls: Controls { left_up: true, left_down: false, right_up: false, right_down: true },
        resizes: vec![],
    };
    tick(&mut s, &ctx);
    assert_eq!(s.left_paddle.pos.y, 30_000);
    assert_eq!(s.right_paddle.pos.y, -30_000);
}

#[test]
fn tick_applies_first_resize_only() {
    let mut s = GameState::new(WIDTH, HEIGHT);
    let ctx = FrameContext {
        dt: 16,
        width: WIDTH,
        height: HEIGHT,
        controls: no_controls(),
        resizes: vec![
            ResizeNotice { width: 1_200_000, height: 1_000_000 },
            ResizeNotice { width: 300_000, height: 300_000 },
        ],
    };
    tick(&mut s, &ctx);
    assert_eq!(s.left_score.anchor, Vec2i { x: -300_000, y: 400_000 });
    assert_eq!(s.right_score.anchor, Vec2i { x: 300_000, y: 400_000 });
}

#[test]
fn speed_squared_is_conserved_by_whole_ticks() {
    let mut s = GameState::new(WIDTH, HEIGHT);
    s.ball.pos = Vec2i { x: 0, y: 295_000 };
    s.ball.vel = Vec2i { x: 300, y: 400 };
    let before = s.ball.vel.x * s.ball.vel.x + s.ball.vel.y * s.ball.vel.y;
    for _ in 0..50 {
        tick(&mut s, &quiet_ctx(16));
        let now = s.ball.vel.x * s.ball.vel.x + s.ball.vel.y * s.ball.vel.y;
        assert_eq!(now, before);
    }
}

#[test]
fn degenerate_frame_times_are_clamped() {
    assert_eq!(clamp_dt(-5), 0);
    assert_eq!(clamp_dt(0), 0);
    assert_eq!(clamp_dt(16), 16);
    assert_eq!(clamp_dt(MAX_DT_MS), MAX_DT_MS);
    assert_eq!(clamp_dt(MAX_DT_MS + 1), MAX_DT_MS);
}

#[test]
fn paddle_never_reaches_the_wall_over_many_ticks() {
    let mut s = GameState::new(WIDTH, HEIGHT);
    let ctx = FrameContext {
        dt: 100,
        width: WIDTH,
        height: HEIGHT,
        controls: Controls { left_up: true, left_down: false, right_up: false, right_down: false },
        resizes: vec![],
    };
    for _ in 0..100 {
        tick(&mut s, &ctx);
        assert!(s.left_paddle.pos.y < 300_000);
        assert!(s.left_paddle.pos.y > -300_000);
    }
    // 10 moves of 30 units fit below the wall; the 10th move to exactly
    // 300_000 is refused, so the paddle parks at 270_000.
    assert_eq!(s.left_paddle.pos.y, 270_000);
}
