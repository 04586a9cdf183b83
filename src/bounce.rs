use vstd::prelude::*;
use crate::pong::{
    paddle_x, Ball, BallState, Paddle, Pong, Side, ARENA_HEIGHT, ARENA_WIDTH, BALL_RADIUS,
    MAX_SPEED, PADDLE_HEIGHT, PADDLE_WIDTH,
};

verus! {

/// `v` limited to `[lo, hi]`.
pub open spec fn clamp(v: int, lo: int, hi: int) -> int {
    if v < lo {
        lo
    } else if v > hi {
        hi
    } else {
        v
    }
}

pub open spec fn paddle_left(p: Paddle) -> int {
    paddle_x(p.side) - PADDLE_WIDTH / 2
}

pub open spec fn paddle_right(p: Paddle) -> int {
    paddle_x(p.side) + PADDLE_WIDTH / 2
}

pub open spec fn paddle_bottom(p: Paddle) -> int {
    p.y - PADDLE_HEIGHT / 2
}

pub open spec fn paddle_top(p: Paddle) -> int {
    p.y + PADDLE_HEIGHT / 2
}

/// Squared distance from the ball's centre to the nearest point of the
/// paddle's rectangle (zero when the centre lies inside it).
pub open spec fn gap_sq(b: Ball, p: Paddle) -> int {
    let dx = b.x - clamp(b.x as int, paddle_left(p), paddle_right(p));
    let dy = b.y - clamp(b.y as int, paddle_bottom(p), paddle_top(p));
    dx * dx + dy * dy
}

/// The ball's closed disc meets the paddle's closed rectangle: a contact on
/// the boundary counts.
pub open spec fn touches(b: Ball, p: Paddle) -> bool {
    gap_sq(b, p) <= BALL_RADIUS * BALL_RADIUS
}

/// The interiors of the ball's disc and the paddle's rectangle intersect.
pub open spec fn overlaps(b: Ball, p: Paddle) -> bool {
    gap_sq(b, p) < BALL_RADIUS * BALL_RADIUS
}

/// The ball's circle lies between the bottom and the top wall.
pub open spec fn inside_walls(b: Ball) -> bool {
    BALL_RADIUS <= b.y && b.y + BALL_RADIUS <= ARENA_HEIGHT
}

/// Wall response: a ball that reaches the bottom or top wall is put back
/// against it and its vertical velocity is negated.
pub open spec fn bounce_walls(b: Ball) -> Ball {
    if b.y <= BALL_RADIUS {
        Ball { x: b.x, y: BALL_RADIUS, vx: b.vx, vy: (-b.vy) as i64 }
    } else if b.y >= ARENA_HEIGHT - BALL_RADIUS {
        Ball { x: b.x, y: (ARENA_HEIGHT - BALL_RADIUS) as i64, vx: b.vx, vy: (-b.vy) as i64 }
    } else {
        b
    }
}

/// Horizontal centre at which a ball that touched the paddle is put: one
/// micro-unit clear of the face it approached from. A ball moving left came
/// from the right face, one moving right from the left face; a ball without
/// horizontal motion goes to the face on its centre's side.
pub open spec fn rebound_x(b: Ball, p: Paddle) -> int {
    if b.vx < 0 {
        paddle_right(p) + BALL_RADIUS + 1
    } else if b.vx > 0 {
        paddle_left(p) - BALL_RADIUS - 1
    } else if b.x >= paddle_x(p.side) {
        paddle_right(p) + BALL_RADIUS + 1
    } else {
        paddle_left(p) - BALL_RADIUS - 1
    }
}

/// Paddle response: a ball that touches the paddle is put just outside the
/// face it approached from, out of contact, and its horizontal velocity is
/// negated.
pub open spec fn bounce_paddle(b: Ball, p: Paddle) -> Ball {
    if touches(b, p) {
        let x = rebound_x(b, p);
        Ball { x: x as i64, y: b.y, vx: (-b.vx) as i64, vy: b.vy }
    } else {
        b
    }
}

/// The ball after the walls, then the left paddle, then the right paddle.
pub open spec fn bounced(b: Ball, left: Paddle, right: Paddle) -> Ball {
    bounce_paddle(bounce_paddle(bounce_walls(b), left), right)
}

/// The state after collision and bounce.
pub open spec fn bounce_step(s: Pong) -> Pong {
    match s.ball {
        BallState::InPlay(b) => Pong {
            ball: BallState::InPlay(bounced(b, s.left_paddle, s.right_paddle)),
            ..s
        },
        BallState::AwaitingRespawn(_) => s,
    }
}

/// Both paddles are on their own side and inside the arena.
pub open spec fn paddles_wf(s: Pong) -> bool {
    &&& s.left_paddle.side == Side::Left
    &&& s.right_paddle.side == Side::Right
    &&& s.left_paddle.wf()
    &&& s.right_paddle.wf()
}

proof fn lemma_square_above(a: int, c: int)
    requires
        c >= 0,
        a > c || a < -c,
    ensures
        a * a > c * c,
{
    if a > c {
        assert(a * a > c * c) by (nonlinear_arith)
            requires
                a > c,
                c >= 0,
        ;
    } else {
        assert(a * a > c * c) by (nonlinear_arith)
            requires
                a < -c,
                c >= 0,
        ;
    }
}

proof fn lemma_square_nonneg(a: int)
    ensures
        a * a >= 0,
{
    assert(a * a >= 0) by (nonlinear_arith);
}

proof fn lemma_square_below(a: int, c: int)
    requires
        -c <= a <= c,
    ensures
        a * a <= c * c,
{
    assert(a * a <= c * c) by (nonlinear_arith)
        requires
            -c <= a <= c,
    ;
}

/// A ball whose centre is more than a radius away from the paddle's
/// rectangle along one axis does not touch it.
proof fn lemma_far_apart(b: Ball, p: Paddle)
    requires
        b.x < paddle_left(p) - BALL_RADIUS || b.x > paddle_right(p) + BALL_RADIUS
            || b.y < paddle_bottom(p) - BALL_RADIUS || b.y > paddle_top(p) + BALL_RADIUS,
    ensures
        !touches(b, p),
{
    let dx = b.x - clamp(b.x as int, paddle_left(p), paddle_right(p));
    let dy = b.y - clamp(b.y as int, paddle_bottom(p), paddle_top(p));
    if b.x < paddle_left(p) - BALL_RADIUS || b.x > paddle_right(p) + BALL_RADIUS {
        lemma_square_above(dx, BALL_RADIUS as int);
        lemma_square_nonneg(dy);
    } else {
        lemma_square_above(dy, BALL_RADIUS as int);
        lemma_square_nonneg(dx);
    }
}

/// After collision and bounce the ball's circle lies between the walls and
/// neither overlaps nor touches either paddle, and its speed components keep
/// their size.
pub proof fn lemma_bounced_clear(b: Ball, left: Paddle, right: Paddle)
    requires
        left.side == Side::Left,
        right.side == Side::Right,
        b.speed_ok(),
    ensures
        inside_walls(bounced(b, left, right)),
        !overlaps(bounced(b, left, right), left),
        !overlaps(bounced(b, left, right), right),
        !touches(bounced(b, left, right), left),
        !touches(bounced(b, left, right), right),
        bounced(b, left, right).speed_ok(),
        bounced(b, left, right).vx == b.vx || bounced(b, left, right).vx == -b.vx,
        bounced(b, left, right).vy == b.vy || bounced(b, left, right).vy == -b.vy,
{
    let w = bounce_walls(b);
    let b1 = bounce_paddle(w, left);
    let b2 = bounce_paddle(b1, right);
    if touches(w, left) {
        lemma_far_apart(b1, left);
        lemma_far_apart(b1, right);
    } else if touches(w, right) {
        lemma_far_apart(b2, right);
        lemma_far_apart(b2, left);
    }
}

/// Whether the ball touches the paddle, contact on the boundary included.
pub fn touches_paddle(b: &Ball, p: &Paddle) -> (r: bool)
    requires
        p.wf(),
    ensures
        r == touches(*b, *p),
{
    let px = p.x();
    let left = px - PADDLE_WIDTH / 2;
    let right = px + PADDLE_WIDTH / 2;
    let bottom = p.y - PADDLE_HEIGHT / 2;
    let top = p.y + PADDLE_HEIGHT / 2;
    if b.x < left - BALL_RADIUS || b.x > right + BALL_RADIUS || b.y < bottom - BALL_RADIUS || b.y
        > top + BALL_RADIUS {
        proof {
            lemma_far_apart(*b, *p);
        }
        false
    } else {
        let cx = if b.x < left {
            left
        } else if b.x > right {
            right
        } else {
            b.x
        };
        let cy = if b.y < bottom {
            bottom
        } else if b.y > top {
            top
        } else {
            b.y
        };
        let dx = b.x - cx;
        let dy = b.y - cy;
        proof {
            lemma_square_below(dx as int, BALL_RADIUS as int);
            lemma_square_below(dy as int, BALL_RADIUS as int);
            lemma_square_nonneg(dx as int);
            lemma_square_nonneg(dy as int);
        }
        dx * dx + dy * dy <= BALL_RADIUS * BALL_RADIUS
    }
}

/// Collision and bounce of the ball against the walls and the paddles.
pub struct BounceSystem;

impl BounceSystem {
    /// Bounces a ball in play off the top and bottom walls, then off the left
    /// and the right paddle. Without a ball nothing changes.
    pub fn run(&self, pong: &mut Pong)
        requires
            paddles_wf(*old(pong)),
            old(pong).ball matches BallState::InPlay(b) ==> b.speed_ok(),
        ensures
            *final(pong) == bounce_step(*old(pong)),
            final(pong).ball matches BallState::InPlay(b) ==> {
                &&& inside_walls(b)
                &&& !overlaps(b, final(pong).left_paddle)
                &&& !overlaps(b, final(pong).right_paddle)
                &&& !touches(b, final(pong).left_paddle)
                &&& !touches(b, final(pong).right_paddle)
                &&& b.speed_ok()
            },
    {
        match pong.ball {
            BallState::InPlay(b) => {
                let mut ball = b;
                if ball.y <= BALL_RADIUS {
                    ball.y = BALL_RADIUS;
                    ball.vy = -ball.vy;
                } else if ball.y >= ARENA_HEIGHT - BALL_RADIUS {
                    ball.y = ARENA_HEIGHT - BALL_RADIUS;
                    ball.vy = -ball.vy;
                }
                assert(ball == bounce_walls(b));
                ball = bounce_off(ball, &pong.left_paddle);
                ball = bounce_off(ball, &pong.right_paddle);
                proof {
                    lemma_bounced_clear(b, pong.left_paddle, pong.right_paddle);
                }
                pong.ball = BallState::InPlay(ball);
            },
            BallState::AwaitingRespawn(_) => {},
        }
    }
}

/// The ball after it meets one paddle.
fn bounce_off(b: Ball, p: &Paddle) -> (r: Ball)
    requires
        p.wf(),
        -MAX_SPEED <= b.vx <= MAX_SPEED,
    ensures
        r == bounce_paddle(b, *p),
{
    if touches_paddle(&b, p) {
        let px = p.x();
        let past_right_face = px + PADDLE_WIDTH / 2 + BALL_RADIUS + 1;
        let past_left_face = px - PADDLE_WIDTH / 2 - BALL_RADIUS - 1;
        let x = if b.vx < 0 {
            past_right_face
        } else if b.vx > 0 {
            past_left_face
        } else if b.x >= px {
            past_right_face
        } else {
            past_left_face
        };
        Ball { x, y: b.y, vx: (-b.vx) as i64, vy: b.vy }
    } else {
        b
    }
}

} // verus!
