//! Simulation core of a two-player paddle-and-ball game.
//!
//! All quantities are exact fixed-point integers:
//! - lengths and positions are in micro-units (a millionth of a world unit);
//! - time is in microseconds;
//! - velocities are in world units per second, which is the same number as
//!   micro-units per microsecond;
//! - input axis values are in thousandths of the full deflection.
pub mod pong;
pub mod bounce;
pub mod move_balls;
pub mod winner;
pub mod paddles;
pub mod schedule;
