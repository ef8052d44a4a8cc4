//! The ball and its per-frame state machine.
//!
//! Per frame the ball advances on the vertical and the depth axis by half
//! of the matching speed times the elapsed time.  Crossing the depth limit
//! resets the depth to the centre with the speed kept (a conceded point);
//! otherwise crossing the vertical limit reflects the vertical speed.  The
//! depth policy takes precedence, and a reflection does not pull the
//! vertical position back inside the limit in the same frame.

use vstd::prelude::*;
use crate::units::{Y_LIMIT, Z_LIMIT, SPEED_LIMIT, VERTICAL_RANGE, step_len, step_amount};

verus! {

/// The single moving object.  `depth` connects the two paddles; a third
/// world axis exists but is never touched by the simulation.
#[derive(Clone, Copy, PartialEq, Eq, Debug, Structural)]
pub struct Ball {
    pub vertical_speed: i64,
    pub depth_speed: i64,
    pub vertical: i64,
    pub depth: i64,
}

/// Mathematical image of a [`Ball`], over unbounded integers.
pub struct BallModel {
    pub vertical_speed: int,
    pub depth_speed: int,
    pub vertical: int,
    pub depth: int,
}

impl View for Ball {
    type V = BallModel;

    open spec fn view(&self) -> BallModel {
        BallModel {
            vertical_speed: self.vertical_speed as int,
            depth_speed: self.depth_speed as int,
            vertical: self.vertical as int,
            depth: self.depth as int,
        }
    }
}

/// A well-formed ball: both speeds are bounded magnitudes and the depth
/// lies within its limits.  The vertical position is not part of this:
/// a reflection frame may leave it transiently outside the play area.
pub open spec fn ball_wf(b: BallModel) -> bool {
    &&& -(SPEED_LIMIT as int) <= b.vertical_speed <= SPEED_LIMIT as int
    &&& -(SPEED_LIMIT as int) <= b.depth_speed <= SPEED_LIMIT as int
    &&& -(Z_LIMIT as int) <= b.depth <= Z_LIMIT as int
}

/// The ball after one frame: both axes advance, then the depth limit is
/// checked first (reset to centre, speeds kept), and only otherwise the
/// vertical limit (vertical speed reflected, position left as it is).
pub open spec fn ball_after(b: BallModel, dt: int) -> BallModel {
    let v: int = b.vertical + step_len(b.vertical_speed, dt);
    let d: int = b.depth + step_len(b.depth_speed, dt);
    if d < -(Z_LIMIT as int) || d > Z_LIMIT as int {
        BallModel {
            vertical_speed: b.vertical_speed,
            depth_speed: b.depth_speed,
            vertical: v,
            depth: 0,
        }
    } else if v < -(Y_LIMIT as int) || v > Y_LIMIT as int {
        BallModel {
            vertical_speed: -b.vertical_speed,
            depth_speed: b.depth_speed,
            vertical: v,
            depth: d,
        }
    } else {
        BallModel {
            vertical_speed: b.vertical_speed,
            depth_speed: b.depth_speed,
            vertical: v,
            depth: d,
        }
    }
}

/// Advances the ball by one frame of `dt` milliseconds.
pub fn advance_ball(ball: &mut Ball, dt: u32)
    requires
        ball_wf(old(ball)@),
        -VERTICAL_RANGE <= old(ball).vertical <= VERTICAL_RANGE,
    ensures
        final(ball)@ == ball_after(old(ball)@, dt as int),
        ball_wf(final(ball)@),
{
    let vstep: i64 = step_amount(ball.vertical_speed, dt);
    let dstep: i64 = step_amount(ball.depth_speed, dt);
    ball.vertical = ball.vertical + vstep;
    ball.depth = ball.depth + dstep;
    if ball.depth < -Z_LIMIT || ball.depth > Z_LIMIT {
        ball.depth = 0;
    } else if ball.vertical < -Y_LIMIT || ball.vertical > Y_LIMIT {
        ball.vertical_speed = -ball.vertical_speed;
    }
}

/// The ball after a whole run of frames, one per elapsed time in `dts`.
pub open spec fn ball_run(b: BallModel, dts: Seq<int>) -> BallModel
    decreases dts.len(),
{
    if dts.len() == 0 {
        b
    } else {
        ball_run(ball_after(b, dts[0]), dts.subrange(1, dts.len() as int))
    }
}

/// When the frame's motion carries the depth past either depth limit, the
/// depth comes back exactly to the centre while both speeds keep their
/// sign and magnitude.
pub proof fn lemma_depth_reset(b: BallModel, dt: int)
    requires
        b.depth + step_len(b.depth_speed, dt) < -(Z_LIMIT as int)
            || b.depth + step_len(b.depth_speed, dt) > Z_LIMIT as int,
    ensures
        ball_after(b, dt).depth == 0,
        ball_after(b, dt).depth_speed == b.depth_speed,
        ball_after(b, dt).vertical_speed == b.vertical_speed,
{
}

/// When the frame's motion keeps the depth within its limits but carries
/// the vertical position past either vertical limit, the vertical speed is
/// reflected, the depth speed is untouched, and the vertical position is
/// left where the motion put it.
pub proof fn lemma_vertical_reflection(b: BallModel, dt: int)
    requires
        -(Z_LIMIT as int) <= b.depth + step_len(b.depth_speed, dt) <= Z_LIMIT as int,
        b.vertical + step_len(b.vertical_speed, dt) < -(Y_LIMIT as int)
            || b.vertical + step_len(b.vertical_speed, dt) > Y_LIMIT as int,
    ensures
        ball_after(b, dt).vertical_speed == -b.vertical_speed,
        ball_after(b, dt).depth_speed == b.depth_speed,
        ball_after(b, dt).vertical == b.vertical + step_len(b.vertical_speed, dt),
        ball_after(b, dt).depth == b.depth + step_len(b.depth_speed, dt),
{
}

} // verus!
