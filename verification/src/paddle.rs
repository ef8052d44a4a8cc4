//! Paddles and the input resolver.
//!
//! Each paddle is bound to one "increase" and one "decrease" key.  Per frame
//! the resolver moves the paddle's vertical position by half of
//! `speed * dt`, clamped into `[-Y_LIMIT, Y_LIMIT]`; the increase direction
//! takes priority when both keys are held, and nothing moves when neither
//! is held.

use vstd::prelude::*;
use crate::units::{Y_LIMIT, SPEED_LIMIT, clamped, step_len, step_amount, clamp_i64, lemma_step_len_monotone};

verus! {

/// Which player a paddle belongs to; each side binds a distinct key pair.
#[derive(Clone, Copy, PartialEq, Eq, Debug, Structural)]
pub enum Side {
    Left,
    Right,
}

/// One player's controllable entity.  Only `vertical` is ever mutated;
/// `depth` is the fixed offset that separates the two paddles.
#[derive(Clone, Copy, PartialEq, Eq, Debug, Structural)]
pub struct Paddle {
    pub side: Side,
    pub speed: i64,
    pub vertical: i64,
    pub depth: i64,
}

/// Mathematical image of a [`Paddle`], over unbounded integers.
pub struct PaddleModel {
    pub side: Side,
    pub speed: int,
    pub vertical: int,
    pub depth: int,
}

impl View for Paddle {
    type V = PaddleModel;

    open spec fn view(&self) -> PaddleModel {
        PaddleModel {
            side: self.side,
            speed: self.speed as int,
            vertical: self.vertical as int,
            depth: self.depth as int,
        }
    }
}

/// A well-formed paddle: the speed is a bounded magnitude and the vertical
/// position lies within the play area.
pub open spec fn paddle_wf(p: PaddleModel) -> bool {
    &&& 0 <= p.speed <= SPEED_LIMIT as int
    &&& -(Y_LIMIT as int) <= p.vertical <= Y_LIMIT as int
}

/// The paddle after one frame: displaced by half of `speed * dt` in the
/// held direction and clamped into the play area; the increase key wins
/// when both are held; untouched when neither is held.
pub open spec fn paddle_after(p: PaddleModel, increase: bool, decrease: bool, dt: int) -> PaddleModel {
    if increase {
        PaddleModel {
            vertical: clamped(p.vertical + step_len(p.speed, dt), -(Y_LIMIT as int), Y_LIMIT as int),
            side: p.side,
            speed: p.speed,
            depth: p.depth,
        }
    } else if decrease {
        PaddleModel {
            vertical: clamped(p.vertical - step_len(p.speed, dt), -(Y_LIMIT as int), Y_LIMIT as int),
            side: p.side,
            speed: p.speed,
            depth: p.depth,
        }
    } else {
        p
    }
}

/// Moves one paddle for one frame according to the held state of its two
/// keys and the elapsed time `dt` in milliseconds.
pub fn resolve_input(paddle: &mut Paddle, increase: bool, decrease: bool, dt: u32)
    requires
        paddle_wf(old(paddle)@),
    ensures
        final(paddle)@ == paddle_after(old(paddle)@, increase, decrease, dt as int),
        paddle_wf(final(paddle)@),
{
    if increase {
        let step: i64 = step_amount(paddle.speed, dt);
        paddle.vertical = clamp_i64(paddle.vertical + step, -Y_LIMIT, Y_LIMIT);
    } else if decrease {
        let step: i64 = step_amount(paddle.speed, dt);
        paddle.vertical = clamp_i64(paddle.vertical - step, -Y_LIMIT, Y_LIMIT);
    }
}

/// With only the increase key held, the resulting vertical position stays
/// inside the play area and is monotonically non-decreasing in the elapsed
/// time, up to the clamp.
pub proof fn lemma_increase_monotone(p: PaddleModel, dt1: int, dt2: int)
    requires
        paddle_wf(p),
        0 <= dt1 <= dt2,
    ensures
        -(Y_LIMIT as int) <= paddle_after(p, true, false, dt1).vertical <= Y_LIMIT as int,
        paddle_after(p, true, false, dt1).vertical <= paddle_after(p, true, false, dt2).vertical,
{
    lemma_step_len_monotone(p.speed, dt1, dt2);
}

/// Starting exactly at the upper limit, holding the increase key leaves the
/// paddle exactly at the limit: the clamp admits no overshoot.
pub proof fn lemma_increase_at_limit(p: PaddleModel, dt: int)
    requires
        paddle_wf(p),
        p.vertical == Y_LIMIT as int,
        0 <= dt,
    ensures
        paddle_after(p, true, false, dt).vertical == Y_LIMIT as int,
{
    lemma_step_len_monotone(p.speed, 0, dt);
}

/// When both keys are held at once, the increase key wins: the frame comes
/// out exactly as if only the increase key were held.
pub proof fn lemma_increase_priority(p: PaddleModel, dt: int)
    ensures
        paddle_after(p, true, true, dt) == paddle_after(p, true, false, dt),
{
}

} // verus!
