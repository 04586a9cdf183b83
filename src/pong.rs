use vstd::prelude::*;

verus! {

/// Height of the playable area, in micro-units (100 world units).
pub const ARENA_HEIGHT: i64 = 100_000_000;

/// Width of the playable area, in micro-units (100 world units).
pub const ARENA_WIDTH: i64 = 100_000_000;

/// Height of a paddle, in micro-units (16 world units).
pub const PADDLE_HEIGHT: i64 = 16_000_000;

/// Width of a paddle, in micro-units (4 world units).
pub const PADDLE_WIDTH: i64 = 4_000_000;

/// Horizontal speed of a freshly spawned ball, in world units per second.
pub const BALL_VELOCITY_X: i64 = 75;

/// Vertical speed of a freshly spawned ball, in world units per second.
pub const BALL_VELOCITY_Y: i64 = 50;

/// Radius of the ball, in micro-units (2 world units).
pub const BALL_RADIUS: i64 = 2_000_000;

/// Delay between a scored point and the next ball, in microseconds (one second).
pub const RESPAWN_DELAY: u64 = 1_000_000;

/// Full deflection of an input axis, in thousandths.
pub const AXIS_FULL: i32 = 1000;

/// Paddle travel per tick for one thousandth of axis deflection, in
/// micro-units (1.2 world units at full deflection).
pub const PADDLE_STEP_PER_AXIS: i64 = 1200;

/// Largest ball speed component that the simulation carries, in world units
/// per second.
pub const MAX_SPEED: i64 = 1_048_576;

/// Largest absolute ball coordinate that the simulation carries at the start
/// of a tick, in micro-units.
pub const MAX_COORD: i64 = 1_099_511_627_776;

/// Lowest centre height that a paddle may have.
pub open spec fn paddle_y_min() -> int {
    PADDLE_HEIGHT / 2
}

/// Highest centre height that a paddle may have.
pub open spec fn paddle_y_max() -> int {
    ARENA_HEIGHT - PADDLE_HEIGHT / 2
}

#[derive(Clone, Copy, Debug, PartialEq, Eq, Structural)]
pub enum Side {
    Left,
    Right,
}

/// A paddle. Its horizontal position is fixed by its side; only `y` moves.
#[derive(Clone, Copy, Debug, PartialEq, Eq, Structural)]
pub struct Paddle {
    pub side: Side,
    /// Centre height, in micro-units.
    pub y: i64,
}

/// Horizontal centre of the paddle on the given side.
pub open spec fn paddle_x(side: Side) -> int {
    match side {
        Side::Left => PADDLE_WIDTH / 2,
        Side::Right => ARENA_WIDTH - PADDLE_WIDTH / 2,
    }
}

impl Paddle {
    pub open spec fn wf(self) -> bool {
        paddle_y_min() <= self.y <= paddle_y_max()
    }

    /// A paddle on `side`, centred vertically in the arena.
    pub fn new(side: Side) -> (r: Paddle)
        ensures
            r.side == side,
            r.y == ARENA_HEIGHT / 2,
            r.wf(),
    {
        Paddle { side, y: ARENA_HEIGHT / 2 }
    }

    /// Horizontal centre, in micro-units.
    pub fn x(&self) -> (r: i64)
        ensures
            r == paddle_x(self.side),
    {
        match self.side {
            Side::Left => PADDLE_WIDTH / 2,
            Side::Right => ARENA_WIDTH - PADDLE_WIDTH / 2,
        }
    }
}

/// The ball: centre position in micro-units, velocity in world units per
/// second. Its radius is `BALL_RADIUS`.
#[derive(Clone, Copy, Debug, PartialEq, Eq, Structural)]
pub struct Ball {
    pub x: i64,
    pub y: i64,
    pub vx: i64,
    pub vy: i64,
}

impl Ball {
    /// Each velocity component is within `MAX_SPEED`.
    pub open spec fn speed_ok(self) -> bool {
        -MAX_SPEED <= self.vx <= MAX_SPEED && -MAX_SPEED <= self.vy <= MAX_SPEED
    }

    /// The ball's speed is in range and its centre within `MAX_COORD`.
    pub open spec fn wf(self) -> bool {
        &&& self.speed_ok()
        &&& -MAX_COORD <= self.x <= MAX_COORD
        &&& -MAX_COORD <= self.y <= MAX_COORD
    }

    pub fn new(x: i64, y: i64, vx: i64, vy: i64) -> (r: Ball)
        ensures
            r == (Ball { x, y, vx, vy }),
    {
        Ball { x, y, vx, vy }
    }

    /// A new ball at the centre of the arena with the initial velocity.
    pub fn spawn() -> (r: Ball)
        ensures
            r == spawned_ball(),
            r.wf(),
    {
        Ball { x: ARENA_WIDTH / 2, y: ARENA_HEIGHT / 2, vx: BALL_VELOCITY_X, vy: BALL_VELOCITY_Y }
    }
}

/// The ball that a respawn creates.
pub open spec fn spawned_ball() -> Ball {
    Ball {
        x: (ARENA_WIDTH / 2) as i64,
        y: (ARENA_HEIGHT / 2) as i64,
        vx: BALL_VELOCITY_X,
        vy: BALL_VELOCITY_Y,
    }
}

/// Points scored by each side.
#[derive(Clone, Copy, Debug, PartialEq, Eq, Structural)]
pub struct ScoreBoard {
    pub score_left: u64,
    pub score_right: u64,
}

impl ScoreBoard {
    pub fn new() -> (r: ScoreBoard)
        ensures
            r.score_left == 0,
            r.score_right == 0,
    {
        ScoreBoard { score_left: 0, score_right: 0 }
    }
}

/// Life cycle of the ball: in play, or waiting the given number of
/// microseconds before the next one is spawned.
#[derive(Clone, Copy, Debug, PartialEq, Eq, Structural)]
pub enum BallState {
    InPlay(Ball),
    AwaitingRespawn(u64),
}

/// The whole simulation state: two paddles, the ball or its respawn timer,
/// and the scoreboard.
#[derive(Clone, Copy, Debug, PartialEq, Eq, Structural)]
pub struct Pong {
    pub left_paddle: Paddle,
    pub right_paddle: Paddle,
    pub ball: BallState,
    pub score: ScoreBoard,
}

impl Pong {
    /// Each paddle is on its own side and inside the arena, and a ball in
    /// play is well formed.
    pub open spec fn wf(self) -> bool {
        &&& self.left_paddle.side == Side::Left
        &&& self.right_paddle.side == Side::Right
        &&& self.left_paddle.wf()
        &&& self.right_paddle.wf()
        &&& (self.ball matches BallState::InPlay(b) ==> b.wf())
    }

    /// The state at session start: paddles centred, no ball for one second,
    /// no points.
    pub fn new() -> (r: Pong)
        ensures
            r.wf(),
            r.left_paddle == (Paddle { side: Side::Left, y: (ARENA_HEIGHT / 2) as i64 }),
            r.right_paddle == (Paddle { side: Side::Right, y: (ARENA_HEIGHT / 2) as i64 }),
            r.ball == BallState::AwaitingRespawn(RESPAWN_DELAY),
            r.score == (ScoreBoard { score_left: 0, score_right: 0 }),
    {
        Pong {
            left_paddle: Paddle::new(Side::Left),
            right_paddle: Paddle::new(Side::Right),
            ball: BallState::AwaitingRespawn(RESPAWN_DELAY),
            score: ScoreBoard::new(),
        }
    }

    /// The ball in play, if any.
    pub fn ball(&self) -> (r: Option<Ball>)
        ensures
            r == (match self.ball {
                BallState::InPlay(b) => Some(b),
                BallState::AwaitingRespawn(_) => None,
            }),
    {
        match self.ball {
            BallState::InPlay(b) => Some(b),
            BallState::AwaitingRespawn(_) => None,
        }
    }

    /// Microseconds left until the next ball, while no ball is in play.
    pub fn respawn_timer(&self) -> (r: Option<u64>)
        ensures
            r == (match self.ball {
                BallState::InPlay(_) => None,
                BallState::AwaitingRespawn(t) => Some(t),
            }),
    {
        match self.ball {
            BallState::InPlay(_) => None,
            BallState::AwaitingRespawn(t) => Some(t),
        }
    }

    /// Puts `b` in play, replacing any ball or timer.
    pub fn set_ball(&mut self, b: Ball)
        ensures
            *final(self) == (Pong { ball: BallState::InPlay(b), ..*old(self) }),
            old(self).wf() && b.wf() ==> final(self).wf(),
    {
        self.ball = BallState::InPlay(b);
    }

    /// Removes any ball and starts a respawn timer of `t` microseconds.
    pub fn set_respawn_timer(&mut self, t: u64)
        ensures
            *final(self) == (Pong { ball: BallState::AwaitingRespawn(t), ..*old(self) }),
            old(self).wf() ==> final(self).wf(),
    {
        self.ball = BallState::AwaitingRespawn(t);
    }

    /// Both paddles with their side tags, left first.
    pub fn paddles(&self) -> (r: [Paddle; 2])
        ensures
            r@ == seq![self.left_paddle, self.right_paddle],
    {
        [self.left_paddle, self.right_paddle]
    }

    /// The paddle on `side`.
    pub fn paddle(&self, side: Side) -> (r: Paddle)
        ensures
            r == (match side {
                Side::Left => self.left_paddle,
                Side::Right => self.right_paddle,
            }),
    {
        match side {
            Side::Left => self.left_paddle,
            Side::Right => self.right_paddle,
        }
    }
}

} // verus!
