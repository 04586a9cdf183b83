use pong::bounce::{touches_paddle, BounceSystem};
use pong::move_balls::MoveBallsSystem;
use pong::paddles::PaddleSystem;
use pong::pong::{
    Ball, BallState, Paddle, Pong, ScoreBoard, Side, ARENA_HEIGHT, ARENA_WIDTH, BALL_RADIUS,
    BALL_VELOCITY_X, BALL_VELOCITY_Y, PADDLE_HEIGHT, RESPAWN_DELAY,
};
use pong::schedule::TickInput;
use pong::winner::WinnerSystem;

/// One world unit in micro-units.
const UNIT: i64 = 1_000_000;

fn with_ball(x: i64, y: i64, vx: i64, vy: i64) -> Pong {
    let mut p = Pong::new();
    p.set_ball(Ball::new(x, y, vx, vy));
    p
}

#[test]
fn session_starts_without_ball() {
    let p = Pong::new();
    assert_eq!(p.ball(), None);
    assert_eq!(p.respawn_timer(), Some(RESPAWN_DELAY));
    assert_eq!(p.score, ScoreBoard { score_left: 0, score_right: 0 });
    assert_eq!(p.left_paddle, Paddle { side: Side::Left, y: 50 * UNIT });
    assert_eq!(p.right_paddle, Paddle { side: Side::Right, y: 50 * UNIT });
    assert_eq!(p.paddle(Side::Left).x(), 2 * UNIT);
    assert_eq!(p.paddle(Side::Right).x(), 98 * UNIT);
    let both = p.paddles();
    assert_eq!(both[0].side, Side::Left);
    assert_eq!(both[1].side, Side::Right);
}

#[test]
fn paddle_moves_ten_ticks() {
    let mut p = Pong::new();
    assert_eq!(p.left_paddle.y, 50 * UNIT);
    for i in 1..=10i64 {
        PaddleSystem.run(&mut p, Some(1000), None);
        assert_eq!(p.left_paddle.y, 50 * UNIT + i * 1_200_000);
    }
    assert_eq!(p.left_paddle.y, 62 * UNIT);
    assert_eq!(p.right_paddle.y, 50 * UNIT);
}

#[test]
fn paddle_clamped_to_arena() {
    let mut p = Pong::new();
    for _ in 0..100 {
        PaddleSystem.run(&mut p, Some(i32::MAX), Some(i32::MIN));
        assert!(p.left_paddle.y >= PADDLE_HEIGHT / 2);
        assert!(p.left_paddle.y <= ARENA_HEIGHT - PADDLE_HEIGHT / 2);
        assert!(p.right_paddle.y >= PADDLE_HEIGHT / 2);
        assert!(p.right_paddle.y <= ARENA_HEIGHT - PADDLE_HEIGHT / 2);
    }
    assert_eq!(p.left_paddle.y, 92 * UNIT);
    assert_eq!(p.right_paddle.y, 8 * UNIT);
}

#[test]
fn paddle_half_axis_and_no_input() {
    let mut p = Pong::new();
    PaddleSystem.run(&mut p, Some(-500), None);
    assert_eq!(p.left_paddle.y, 50 * UNIT - 600_000);
    assert_eq!(p.right_paddle.y, 50 * UNIT);
}

#[test]
fn ball_motion_integrates_velocity() {
    let mut p = with_ball(50 * UNIT, 50 * UNIT, 75, -50);
    MoveBallsSystem.run(&mut p, 16_000);
    assert_eq!(p.ball(), Some(Ball::new(51_200_000, 49_200_000, 75, -50)));
}

#[test]
fn ball_motion_zero_dt_keeps_position() {
    let mut p = with_ball(13 * UNIT, 77 * UNIT, -75, 50);
    let before = p;
    MoveBallsSystem.run(&mut p, 0);
    assert_eq!(p, before);
}

#[test]
fn ball_motion_without_ball_is_noop() {
    let mut p = Pong::new();
    MoveBallsSystem.run(&mut p, 500_000);
    assert_eq!(p, Pong::new());
}

#[test]
fn ball_bounces_off_left_paddle() {
    let mut p = with_ball(10 * UNIT, 50 * UNIT, -75, 0);
    p.tick(None, None, 100_000);
    let b = p.ball().unwrap();
    assert_eq!(b.vx, 75);
    assert_eq!(b.vy, 0);
    assert!(b.x >= 4 * UNIT + BALL_RADIUS);
    assert_eq!(b.x, 6 * UNIT + 1);
}

#[test]
fn ball_bounces_off_left_paddle_long_step() {
    for dt in [110_000u32, 150_000u32] {
        let mut p = with_ball(10 * UNIT, 50 * UNIT, -75, 0);
        p.tick(None, None, dt);
        let b = p.ball().unwrap();
        assert_eq!(b.vx, 75);
        assert_eq!(b.y, 50 * UNIT);
        assert!(b.x >= 4 * UNIT + BALL_RADIUS);
        assert_eq!(p.score, ScoreBoard { score_left: 0, score_right: 0 });
    }
}

#[test]
fn ball_moving_left_past_paddle_centre_returns_to_front() {
    let mut p = with_ball(UNIT, 50 * UNIT, -75, 0);
    BounceSystem.run(&mut p);
    assert_eq!(p.ball(), Some(Ball::new(6 * UNIT + 1, 50 * UNIT, 75, 0)));
}

#[test]
fn bounced_ball_does_not_bounce_again() {
    let mut p = with_ball(10 * UNIT, 50 * UNIT, -75, 0);
    p.tick(None, None, 100_000);
    let after_bounce = p;
    p.tick(None, None, 0);
    assert_eq!(p, after_bounce);
    p.tick(None, None, 16_000);
    let b = p.ball().unwrap();
    assert_eq!(b.vx, 75);
    assert_eq!(b.x, 6 * UNIT + 1 + 75 * 16_000);
}

#[test]
fn ball_without_horizontal_motion_goes_to_its_side() {
    let mut p = with_ball(UNIT, 50 * UNIT, 0, 50);
    BounceSystem.run(&mut p);
    assert_eq!(p.ball(), Some(Ball::new(-2 * UNIT - 1, 50 * UNIT, 0, 50)));
}

#[test]
fn ball_bounces_off_right_paddle() {
    let mut p = with_ball(95 * UNIT, 45 * UNIT, 75, 0);
    BounceSystem.run(&mut p);
    let b = p.ball().unwrap();
    assert_eq!(b, Ball::new(94 * UNIT - 1, 45 * UNIT, -75, 0));
}

#[test]
fn ball_bounces_off_bottom_wall() {
    let mut p = with_ball(50 * UNIT, UNIT, 0, -50);
    p.tick(None, None, 16_000);
    let b = p.ball().unwrap();
    assert_eq!(b.vy, 50);
    assert!(b.y >= BALL_RADIUS);
    assert_eq!(b.y, BALL_RADIUS);
}

#[test]
fn ball_bounces_off_top_wall() {
    let mut p = with_ball(30 * UNIT, 99 * UNIT, 75, 50);
    BounceSystem.run(&mut p);
    assert_eq!(p.ball(), Some(Ball::new(30 * UNIT, 98 * UNIT, 75, -50)));
}

#[test]
fn ball_in_open_field_is_not_bounced() {
    let mut p = with_ball(50 * UNIT, 50 * UNIT, 75, 50);
    let before = p;
    BounceSystem.run(&mut p);
    assert_eq!(p, before);
}

#[test]
fn bounced_ball_overlaps_nothing() {
    let mut p = with_ball(3 * UNIT, 43 * UNIT, -75, -50);
    BounceSystem.run(&mut p);
    let b = p.ball().unwrap();
    assert_eq!(b.vx, 75);
    assert!(b.x - 4 * UNIT >= BALL_RADIUS);
    assert!(b.y >= BALL_RADIUS && b.y + BALL_RADIUS <= ARENA_HEIGHT);
}

#[test]
fn touch_includes_boundary() {
    let paddle = Paddle::new(Side::Left);
    assert!(touches_paddle(&Ball::new(6 * UNIT, 50 * UNIT, 0, 0), &paddle));
    assert!(!touches_paddle(&Ball::new(6 * UNIT + 1, 50 * UNIT, 0, 0), &paddle));
    assert!(touches_paddle(&Ball::new(2 * UNIT, 60 * UNIT, 0, 0), &paddle));
    assert!(!touches_paddle(&Ball::new(6 * UNIT, 60 * UNIT, 0, 0), &paddle));
}

#[test]
fn ball_exiting_left_scores_right() {
    let mut p = with_ball(-UNIT, 50 * UNIT, -75, 0);
    assert_eq!(p.score.score_right, 0);
    WinnerSystem.run(&mut p, 16_000);
    assert_eq!(p.score.score_right, 1);
    assert_eq!(p.score.score_left, 0);
    assert_eq!(p.ball(), None);
    assert_eq!(p.respawn_timer(), Some(1_000_000));
}

#[test]
fn ball_exiting_right_scores_left() {
    let mut p = with_ball(ARENA_WIDTH + 1, 30 * UNIT, 75, 0);
    WinnerSystem.run(&mut p, 16_000);
    assert_eq!(p.score, ScoreBoard { score_left: 1, score_right: 0 });
    assert_eq!(p.ball, BallState::AwaitingRespawn(RESPAWN_DELAY));
}

#[test]
fn ball_on_arena_edge_stays() {
    let mut p = with_ball(0, 30 * UNIT, -75, 0);
    let before = p;
    WinnerSystem.run(&mut p, 16_000);
    assert_eq!(p, before);
}

#[test]
fn respawn_after_one_second() {
    let mut p = with_ball(-UNIT, 20 * UNIT, -75, 0);
    p.tick(None, None, 0);
    assert_eq!(p.ball(), None);
    let ticks = [
        TickInput { left_axis: None, right_axis: None, dt: 400_000 },
        TickInput { left_axis: Some(1000), right_axis: None, dt: 400_000 },
        TickInput { left_axis: None, right_axis: Some(-1000), dt: 199_999 },
    ];
    for t in ticks.iter() {
        p.tick(t.left_axis, t.right_axis, t.dt);
        assert_eq!(p.ball(), None);
    }
    assert_eq!(p.respawn_timer(), Some(1));
    p.tick(None, None, 1);
    assert_eq!(
        p.ball(),
        Some(Ball::new(ARENA_WIDTH / 2, ARENA_HEIGHT / 2, BALL_VELOCITY_X, BALL_VELOCITY_Y))
    );
    assert_eq!(p.ball(), Some(Ball::new(50 * UNIT, 50 * UNIT, 75, 50)));
    assert_eq!(p.score.score_right, 1);
}

#[test]
fn first_ball_after_session_start() {
    let mut p = Pong::new();
    p.tick(None, None, 999_999);
    assert_eq!(p.ball(), None);
    p.tick(None, None, 16_000);
    assert_eq!(p.ball(), Some(Ball::spawn()));
    assert_eq!(p.respawn_timer(), None);
}

#[test]
fn full_rally_keeps_ball_in_bounds() {
    let mut p = Pong::new();
    let mut points = 0u64;
    for i in 0..5000u32 {
        let axis = if i % 7 < 3 { Some(1000) } else { Some(-1000) };
        p.tick(axis, axis, 16_667);
        if let Some(b) = p.ball() {
            assert!(b.y >= BALL_RADIUS && b.y + BALL_RADIUS <= ARENA_HEIGHT);
            assert!(b.x >= 0 && b.x <= ARENA_WIDTH);
            assert!(b.vx == 75 || b.vx == -75);
            assert!(b.vy == 50 || b.vy == -50);
        }
        let total = p.score.score_left + p.score.score_right;
        assert!(total >= points);
        points = total;
    }
}
