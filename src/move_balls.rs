use vstd::prelude::*;
use crate::pong::{Ball, BallState, Pong, MAX_COORD, MAX_SPEED};

verus! {

/// The ball after `dt` microseconds of straight-line motion.
pub open spec fn moved(b: Ball, dt: u32) -> Ball {
    Ball { x: (b.x + b.vx * dt) as i64, y: (b.y + b.vy * dt) as i64, vx: b.vx, vy: b.vy }
}

/// The state after ball motion.
pub open spec fn motion_step(s: Pong, dt: u32) -> Pong {
    match s.ball {
        BallState::InPlay(b) => Pong { ball: BallState::InPlay(moved(b, dt)), ..s },
        BallState::AwaitingRespawn(_) => s,
    }
}

proof fn lemma_displacement_bound(v: int, dt: int)
    requires
        -MAX_SPEED <= v <= MAX_SPEED,
        0 <= dt <= u32::MAX,
    ensures
        -MAX_SPEED * u32::MAX <= v * dt <= MAX_SPEED * u32::MAX,
{
    assert(-MAX_SPEED * dt <= v * dt <= MAX_SPEED * dt) by (nonlinear_arith)
        requires
            -MAX_SPEED <= v <= MAX_SPEED,
            0 <= dt,
    ;
    assert(MAX_SPEED * dt <= MAX_SPEED * u32::MAX && -MAX_SPEED * u32::MAX <= -MAX_SPEED * dt)
        by (nonlinear_arith)
        requires
            0 <= dt <= u32::MAX,
    ;
}

/// Ball motion.
pub struct MoveBallsSystem;

impl MoveBallsSystem {
    /// Moves a ball in play by its velocity times `dt` microseconds. The
    /// position is not limited to the arena. Without a ball nothing changes.
    pub fn run(&self, pong: &mut Pong, dt: u32)
        requires
            old(pong).ball matches BallState::InPlay(b) ==> b.wf(),
        ensures
            *final(pong) == motion_step(*old(pong), dt),
            old(pong).ball matches BallState::InPlay(b) ==> final(pong).ball == BallState::InPlay(
                Ball { x: (b.x + b.vx * dt) as i64, y: (b.y + b.vy * dt) as i64, vx: b.vx, vy: b.vy },
            ),
            old(pong).ball matches BallState::InPlay(b) ==> {
                &&& b.x + b.vx * dt <= i64::MAX && b.x + b.vx * dt >= i64::MIN
                &&& b.y + b.vy * dt <= i64::MAX && b.y + b.vy * dt >= i64::MIN
            },
            dt == 0 ==> *final(pong) == *old(pong),
    {
        match pong.ball {
            BallState::InPlay(b) => {
                proof {
                    lemma_displacement_bound(b.vx as int, dt as int);
                    lemma_displacement_bound(b.vy as int, dt as int);
                    assert(MAX_COORD + MAX_SPEED * u32::MAX < i64::MAX);
                    if dt == 0 {
                        assert(b.vx * dt == 0 && b.vy * dt == 0) by (nonlinear_arith)
                            requires
                                dt == 0,
                        ;
                    }
                }
                let t = dt as i64;
                let ball = Ball { x: b.x + b.vx * t, y: b.y + b.vy * t, vx: b.vx, vy: b.vy };
                pong.ball = BallState::InPlay(ball);
            },
            BallState::AwaitingRespawn(_) => {},
        }
    }
}

} // verus!
