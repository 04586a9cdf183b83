use vstd::prelude::*;
use crate::pong::{spawned_ball, Ball, BallState, Pong, ScoreBoard, ARENA_WIDTH, RESPAWN_DELAY};

verus! {

/// The state after win detection and respawn, `dt` microseconds into the
/// tick.
///
/// A ball in play whose centre has left `[0, ARENA_WIDTH]` gives the point to
/// the opposite side and is replaced by a respawn timer of `RESPAWN_DELAY`.
/// A running timer counts down by `dt`; once it would reach zero a new ball
/// is spawned at the centre.
pub open spec fn winner_step(s: Pong, dt: u32) -> Pong {
    match s.ball {
        BallState::InPlay(b) => {
            if b.x < 0 {
                Pong {
                    ball: BallState::AwaitingRespawn(RESPAWN_DELAY),
                    score: ScoreBoard {
                        score_left: s.score.score_left,
                        score_right: (s.score.score_right + 1) as u64,
                    },
                    ..s
                }
            } else if b.x > ARENA_WIDTH {
                Pong {
                    ball: BallState::AwaitingRespawn(RESPAWN_DELAY),
                    score: ScoreBoard {
                        score_left: (s.score.score_left + 1) as u64,
                        score_right: s.score.score_right,
                    },
                    ..s
                }
            } else {
                s
            }
        },
        BallState::AwaitingRespawn(t) => {
            if dt >= t {
                Pong { ball: BallState::InPlay(spawned_ball()), ..s }
            } else {
                Pong { ball: BallState::AwaitingRespawn((t - dt) as u64), ..s }
            }
        },
    }
}

/// Win detection and respawn.
pub struct WinnerSystem;

impl WinnerSystem {
    /// Scores and removes a ball that has left the arena on the left or the
    /// right, or counts the respawn timer down by `dt` microseconds and
    /// spawns a new ball when it runs out.
    pub fn run(&self, pong: &mut Pong, dt: u32)
        requires
            old(pong).score.score_left < u64::MAX,
            old(pong).score.score_right < u64::MAX,
        ensures
            *final(pong) == winner_step(*old(pong), dt),
            final(pong).left_paddle == old(pong).left_paddle,
            final(pong).right_paddle == old(pong).right_paddle,
            old(pong).ball matches BallState::InPlay(b) && b.x < 0 ==> {
                &&& final(pong).score.score_right == old(pong).score.score_right + 1
                &&& final(pong).score.score_left == old(pong).score.score_left
                &&& final(pong).ball == BallState::AwaitingRespawn(RESPAWN_DELAY)
            },
            old(pong).ball matches BallState::InPlay(b) && b.x > ARENA_WIDTH ==> {
                &&& final(pong).score.score_left == old(pong).score.score_left + 1
                &&& final(pong).score.score_right == old(pong).score.score_right
                &&& final(pong).ball == BallState::AwaitingRespawn(RESPAWN_DELAY)
            },
            old(pong).ball matches BallState::InPlay(b) && 0 <= b.x <= ARENA_WIDTH ==> *final(pong)
                == *old(pong),
    {
        match pong.ball {
            BallState::InPlay(b) => {
                if b.x < 0 {
                    pong.score.score_right = pong.score.score_right + 1;
                    pong.ball = BallState::AwaitingRespawn(RESPAWN_DELAY);
                } else if b.x > ARENA_WIDTH {
                    pong.score.score_left = pong.score.score_left + 1;
                    pong.ball = BallState::AwaitingRespawn(RESPAWN_DELAY);
                }
            },
            BallState::AwaitingRespawn(t) => {
                if dt as u64 >= t {
                    pong.ball = BallState::InPlay(Ball::spawn());
                } else {
                    pong.ball = BallState::AwaitingRespawn(t - dt as u64);
                }
            },
        }
    }
}

} // verus!
