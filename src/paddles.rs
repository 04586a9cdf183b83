use vstd::prelude::*;
use crate::bounce::clamp;
use crate::pong::{
    paddle_y_max, paddle_y_min, Paddle, Pong, ARENA_HEIGHT, PADDLE_HEIGHT, PADDLE_STEP_PER_AXIS,
};

verus! {

/// New centre height of a paddle at `y` that receives `axis` (thousandths of
/// full deflection): moved by `PADDLE_STEP_PER_AXIS` per thousandth and kept
/// inside the arena; unchanged without input.
pub open spec fn paddle_y_after(y: int, axis: Option<i32>) -> int {
    match axis {
        Some(a) => clamp(y + PADDLE_STEP_PER_AXIS * a, paddle_y_min(), paddle_y_max()),
        None => y,
    }
}

/// The state after paddle control.
pub open spec fn paddle_step(s: Pong, left_axis: Option<i32>, right_axis: Option<i32>) -> Pong {
    Pong {
        left_paddle: Paddle {
            side: s.left_paddle.side,
            y: paddle_y_after(s.left_paddle.y as int, left_axis) as i64,
        },
        right_paddle: Paddle {
            side: s.right_paddle.side,
            y: paddle_y_after(s.right_paddle.y as int, right_axis) as i64,
        },
        ..s
    }
}

/// The paddle moved by one tick of input.
fn steer(p: Paddle, axis: Option<i32>) -> (r: Paddle)
    requires
        p.wf(),
    ensures
        r.side == p.side,
        r.y == paddle_y_after(p.y as int, axis),
        r.wf(),
{
    match axis {
        Some(a) => {
            let target = p.y + PADDLE_STEP_PER_AXIS * (a as i64);
            let lo = PADDLE_HEIGHT / 2;
            let hi = ARENA_HEIGHT - PADDLE_HEIGHT / 2;
            let y = if target < lo {
                lo
            } else if target > hi {
                hi
            } else {
                target
            };
            Paddle { side: p.side, y }
        },
        None => p,
    }
}

/// Paddle control.
pub struct PaddleSystem;

impl PaddleSystem {
    /// Moves each paddle by its axis value, if any, and keeps it inside the
    /// arena whatever the value.
    pub fn run(&self, pong: &mut Pong, left_axis: Option<i32>, right_axis: Option<i32>)
        requires
            old(pong).left_paddle.wf(),
            old(pong).right_paddle.wf(),
        ensures
            *final(pong) == paddle_step(*old(pong), left_axis, right_axis),
            final(pong).left_paddle.y == paddle_y_after(old(pong).left_paddle.y as int, left_axis),
            final(pong).right_paddle.y == paddle_y_after(
                old(pong).right_paddle.y as int,
                right_axis,
            ),
            paddle_y_min() <= final(pong).left_paddle.y <= paddle_y_max(),
            paddle_y_min() <= final(pong).right_paddle.y <= paddle_y_max(),
    {
        pong.left_paddle = steer(pong.left_paddle, left_axis);
        pong.right_paddle = steer(pong.right_paddle, right_axis);
    }
}

} // verus!
