//! The shared simulation state and the per-frame tick.
//!
//! One session holds exactly two paddles and one ball.  Per frame the host
//! supplies the held state of the four bound keys and the elapsed time;
//! the tick moves both paddles, then the ball.  The three updates touch
//! disjoint state, so their order inside a frame does not matter.

use vstd::prelude::*;
use crate::ball::{Ball, BallModel, ball_wf, ball_after, ball_run, advance_ball};
use crate::paddle::{Side, Paddle, PaddleModel, paddle_wf, paddle_after, resolve_input};
use crate::units::{BASE_SPEED, PADDLE_DEPTH, VERTICAL_RANGE};

verus! {

/// Held state of the four logical keys: one increase and one decrease key
/// for each side.
#[derive(Clone, Copy, PartialEq, Eq, Debug, Structural)]
pub struct HeldKeys {
    pub left_increase: bool,
    pub left_decrease: bool,
    pub right_increase: bool,
    pub right_decrease: bool,
}

/// Whether the increase key bound to `side` is held.
pub open spec fn increase_held(keys: HeldKeys, side: Side) -> bool {
    match side {
        Side::Left => keys.left_increase,
        Side::Right => keys.right_increase,
    }
}

/// Whether the decrease key bound to `side` is held.
pub open spec fn decrease_held(keys: HeldKeys, side: Side) -> bool {
    match side {
        Side::Left => keys.left_decrease,
        Side::Right => keys.right_decrease,
    }
}

/// The key state in which no key is held.
pub open spec fn no_keys_held() -> HeldKeys {
    HeldKeys {
        left_increase: false,
        left_decrease: false,
        right_increase: false,
        right_decrease: false,
    }
}

/// The whole simulation state: two paddles and one ball, nothing else is
/// ever created or destroyed during a session.
#[derive(Clone, Copy, PartialEq, Eq, Debug, Structural)]
pub struct SimState {
    pub left: Paddle,
    pub right: Paddle,
    pub ball: Ball,
}

/// Mathematical image of a [`SimState`].
pub struct SimModel {
    pub left: PaddleModel,
    pub right: PaddleModel,
    pub ball: BallModel,
}

impl View for SimState {
    type V = SimModel;

    open spec fn view(&self) -> SimModel {
        SimModel { left: self.left@, right: self.right@, ball: self.ball@ }
    }
}

/// A well-formed session: both paddles are well formed and carry the side
/// they are stored under, and the ball is well formed.
pub open spec fn sim_wf(s: SimModel) -> bool {
    &&& paddle_wf(s.left)
    &&& paddle_wf(s.right)
    &&& s.left.side == Side::Left
    &&& s.right.side == Side::Right
    &&& ball_wf(s.ball)
}

/// The state after one frame: each paddle resolved against its own key
/// pair, and the ball advanced.
pub open spec fn tick_after(s: SimModel, keys: HeldKeys, dt: int) -> SimModel {
    SimModel {
        left: paddle_after(s.left, increase_held(keys, s.left.side), decrease_held(keys, s.left.side), dt),
        right: paddle_after(s.right, increase_held(keys, s.right.side), decrease_held(keys, s.right.side), dt),
        ball: ball_after(s.ball, dt),
    }
}

/// Resolves one paddle against the key pair bound to its side.
pub fn apply_input(paddle: &mut Paddle, keys: &HeldKeys, dt: u32)
    requires
        paddle_wf(old(paddle)@),
    ensures
        final(paddle)@ == paddle_after(
            old(paddle)@,
            increase_held(*keys, old(paddle)@.side),
            decrease_held(*keys, old(paddle)@.side),
            dt as int,
        ),
        paddle_wf(final(paddle)@),
{
    let increase: bool;
    let decrease: bool;
    match paddle.side {
        Side::Left => {
            increase = keys.left_increase;
            decrease = keys.left_decrease;
        }
        Side::Right => {
            increase = keys.right_increase;
            decrease = keys.right_decrease;
        }
    }
    resolve_input(paddle, increase, decrease, dt);
}

/// Advances the whole session by one frame of `dt` milliseconds.
pub fn tick(s: &mut SimState, keys: &HeldKeys, dt: u32)
    requires
        sim_wf(old(s)@),
        -VERTICAL_RANGE <= old(s).ball.vertical <= VERTICAL_RANGE,
    ensures
        final(s)@ == tick_after(old(s)@, *keys, dt as int),
        sim_wf(final(s)@),
{
    apply_input(&mut s.left, keys, dt);
    apply_input(&mut s.right, keys, dt);
    advance_ball(&mut s.ball, dt);
}

/// The state every session starts from: the ball at the origin with unit
/// speeds on both axes, and both paddles centred at their fixed depth
/// offset with unit speed.
pub open spec fn initial_model() -> SimModel {
    SimModel {
        left: PaddleModel {
            side: Side::Left,
            speed: BASE_SPEED as int,
            vertical: 0,
            depth: -(PADDLE_DEPTH as int),
        },
        right: PaddleModel {
            side: Side::Right,
            speed: BASE_SPEED as int,
            vertical: 0,
            depth: PADDLE_DEPTH as int,
        },
        ball: BallModel { vertical_speed: BASE_SPEED as int, depth_speed: BASE_SPEED as int, vertical: 0, depth: 0 },
    }
}

/// Builds the state a session starts from.
pub fn initial_state() -> (s: SimState)
    ensures
        s@ == initial_model(),
        sim_wf(s@),
{
    SimState {
        left: Paddle { side: Side::Left, speed: BASE_SPEED, vertical: 0, depth: -PADDLE_DEPTH },
        right: Paddle { side: Side::Right, speed: BASE_SPEED, vertical: 0, depth: PADDLE_DEPTH },
        ball: Ball { vertical_speed: BASE_SPEED, depth_speed: BASE_SPEED, vertical: 0, depth: 0 },
    }
}

/// The state after a whole run of frames with no key held, one frame per
/// elapsed time in `dts`.
pub open spec fn run_no_input(s: SimModel, dts: Seq<int>) -> SimModel
    decreases dts.len(),
{
    if dts.len() == 0 {
        s
    } else {
        run_no_input(tick_after(s, no_keys_held(), dts[0]), dts.subrange(1, dts.len() as int))
    }
}

/// With no key held, any run of frames leaves both paddles exactly where
/// they were, and the ball reaches the state that its own starting state
/// and the sequence of elapsed times alone determine: the run is a pure
/// function of those two, reproducible under the same times.
pub proof fn lemma_no_input_run(s: SimModel, dts: Seq<int>)
    ensures
        run_no_input(s, dts).left == s.left,
        run_no_input(s, dts).right == s.right,
        run_no_input(s, dts).ball == ball_run(s.ball, dts),
    decreases dts.len(),
{
    if dts.len() == 0 {
    } else {
        let s1 = tick_after(s, no_keys_held(), dts[0]);
        assert(s1.left == s.left);
        assert(s1.right == s.right);
        lemma_no_input_run(s1, dts.subrange(1, dts.len() as int));
    }
}

} // verus!
