use vstd::prelude::*;
use crate::bounce::{bounce_step, BounceSystem};
use crate::move_balls::{motion_step, MoveBallsSystem};
use crate::paddles::{paddle_step, PaddleSystem};
use crate::pong::{spawned_ball, BallState, Pong, RESPAWN_DELAY};
use crate::winner::{winner_step, WinnerSystem};

verus! {

/// What the frame driver supplies for one tick: each paddle's axis value in
/// thousandths, if any, and the elapsed time in microseconds.
#[derive(Clone, Copy, Debug)]
pub struct TickInput {
    pub left_axis: Option<i32>,
    pub right_axis: Option<i32>,
    pub dt: u32,
}

/// The state after one tick: paddle control, ball motion, collision and
/// bounce, then win detection and respawn.
pub open spec fn tick_result(
    s: Pong,
    left_axis: Option<i32>,
    right_axis: Option<i32>,
    dt: u32,
) -> Pong {
    winner_step(bounce_step(motion_step(paddle_step(s, left_axis, right_axis), dt)), dt)
}

/// The state after the given ticks, in order.
pub open spec fn run_ticks(s: Pong, ticks: Seq<TickInput>) -> Pong
    decreases ticks.len(),
{
    if ticks.len() == 0 {
        s
    } else {
        let t = ticks.last();
        tick_result(run_ticks(s, ticks.drop_last()), t.left_axis, t.right_axis, t.dt)
    }
}

/// Simulated time that the given ticks span, in microseconds.
pub open spec fn total_dt(ticks: Seq<TickInput>) -> int
    decreases ticks.len(),
{
    if ticks.len() == 0 {
        0
    } else {
        total_dt(ticks.drop_last()) + ticks.last().dt
    }
}

impl Pong {
    /// Advances the simulation by one tick of `dt` microseconds, with the
    /// paddles' axis values in thousandths.
    pub fn tick(&mut self, left_axis: Option<i32>, right_axis: Option<i32>, dt: u32)
        requires
            old(self).wf(),
            old(self).score.score_left < u64::MAX,
            old(self).score.score_right < u64::MAX,
        ensures
            *final(self) == tick_result(*old(self), left_axis, right_axis, dt),
            final(self).wf(),
    {
        PaddleSystem.run(self, left_axis, right_axis);
        MoveBallsSystem.run(self, dt);
        BounceSystem.run(self);
        WinnerSystem.run(self, dt);
    }
}

proof fn lemma_timer_counts_down(s: Pong, t: u64, ticks: Seq<TickInput>)
    requires
        s.ball == BallState::AwaitingRespawn(t),
    ensures
        total_dt(ticks) < t ==> run_ticks(s, ticks).ball == BallState::AwaitingRespawn(
            (t - total_dt(ticks)) as u64,
        ),
        ticks.len() > 0 && total_dt(ticks.drop_last()) < t <= total_dt(ticks) ==> run_ticks(
            s,
            ticks,
        ).ball == BallState::InPlay(spawned_ball()),
    decreases ticks.len(),
{
    if ticks.len() > 0 {
        let rest = ticks.drop_last();
        lemma_timer_counts_down(s, t, rest);
        assert(total_dt(rest) >= 0) by {
            lemma_total_dt_nonneg(rest);
        }
    }
}

proof fn lemma_total_dt_nonneg(ticks: Seq<TickInput>)
    ensures
        total_dt(ticks) >= 0,
    decreases ticks.len(),
{
    if ticks.len() > 0 {
        lemma_total_dt_nonneg(ticks.drop_last());
    }
}

/// After a ball is removed, no ball is in play while less than
/// `RESPAWN_DELAY` microseconds of simulated time have passed; on the tick
/// that reaches it, exactly one ball appears, at the centre of the arena with
/// the initial velocity.
pub proof fn lemma_respawn_delay(s: Pong, ticks: Seq<TickInput>)
    requires
        s.ball == BallState::AwaitingRespawn(RESPAWN_DELAY),
    ensures
        total_dt(ticks) < RESPAWN_DELAY ==> run_ticks(s, ticks).ball is AwaitingRespawn,
        ticks.len() > 0 && total_dt(ticks.drop_last()) < RESPAWN_DELAY <= total_dt(ticks)
            ==> run_ticks(s, ticks).ball == BallState::InPlay(spawned_ball()),
{
    lemma_timer_counts_down(s, RESPAWN_DELAY, ticks);
}

} // verus!
