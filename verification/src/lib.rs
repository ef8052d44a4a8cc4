//! Core of a minimal two-player paddle-and-ball simulation.
//!
//! Per frame the host supplies an elapsed time and the held state of four
//! keys; the library moves the two paddles and the ball over a shared
//! simulation state.  All quantities are decimal fixed point, so every
//! update is exact integer arithmetic: positions are in millionths of a
//! world unit, speeds in thousandths of a world unit per second, and
//! elapsed time in milliseconds.

pub mod ball;
pub mod paddle;
pub mod sim;
pub mod units;
