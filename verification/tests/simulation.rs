use pong::ball::Ball;
use pong::paddle::{Paddle, Side};
use pong::sim::{HeldKeys, SimState, initial_state, tick};
use pong::units::{clamp_i64, step_amount, BASE_SPEED, PADDLE_DEPTH, Y_LIMIT, Z_LIMIT};
use pong::paddle::resolve_input;
use pong::ball::advance_ball;

fn no_keys() -> HeldKeys {
    HeldKeys { left_increase: false, left_decrease: false, right_increase: false, right_decrease: false }
}

fn centred_paddle(side: Side) -> Paddle {
    Paddle { side, speed: BASE_SPEED, vertical: 0, depth: PADDLE_DEPTH }
}

#[test]
fn step_amount_exact_values() {
    // half of speed * dt: 1.0 units/s for 1 s covers 0.5 units
    assert_eq!(step_amount(1000, 1000), 500_000);
    // 0.1 units/s for 1 s covers 0.05 units
    assert_eq!(step_amount(100, 1000), 50_000);
    assert_eq!(step_amount(0, 1000), 0);
    assert_eq!(step_amount(1000, 0), 0);
}

#[test]
fn step_amount_rounds_toward_zero() {
    assert_eq!(step_amount(3, 1), 1);
    assert_eq!(step_amount(-3, 1), -1);
    assert_eq!(step_amount(1, 1), 0);
    assert_eq!(step_amount(-1, 1), 0);
}

#[test]
fn clamp_exact_values() {
    assert_eq!(clamp_i64(5, -3, 3), 3);
    assert_eq!(clamp_i64(-5, -3, 3), -3);
    assert_eq!(clamp_i64(2, -3, 3), 2);
    assert_eq!(clamp_i64(3, -3, 3), 3);
}

#[test]
fn increase_two_ticks_reaches_and_clamps() {
    // speed 1.0, dt 1.0: 0.0 -> 0.5 -> clamped at 0.763
    let mut p = centred_paddle(Side::Right);
    resolve_input(&mut p, true, false, 1000);
    assert_eq!(p.vertical, 500_000);
    resolve_input(&mut p, true, false, 1000);
    assert_eq!(p.vertical, Y_LIMIT);
}

#[test]
fn increase_at_limit_stays_exactly() {
    let mut p = Paddle { side: Side::Right, speed: BASE_SPEED, vertical: Y_LIMIT, depth: PADDLE_DEPTH };
    resolve_input(&mut p, true, false, 700);
    assert_eq!(p.vertical, Y_LIMIT);
}

#[test]
fn decrease_moves_down_and_clamps() {
    let mut p = centred_paddle(Side::Left);
    resolve_input(&mut p, false, true, 1000);
    assert_eq!(p.vertical, -500_000);
    resolve_input(&mut p, false, true, 1000);
    assert_eq!(p.vertical, -Y_LIMIT);
}

#[test]
fn both_keys_held_increase_wins() {
    let mut both = centred_paddle(Side::Left);
    let mut only_increase = centred_paddle(Side::Left);
    resolve_input(&mut both, true, true, 640);
    resolve_input(&mut only_increase, true, false, 640);
    assert_eq!(both, only_increase);
}

#[test]
fn no_keys_leaves_paddle_unchanged() {
    let mut p = Paddle { side: Side::Left, speed: BASE_SPEED, vertical: 123_456, depth: -PADDLE_DEPTH };
    let before = p;
    resolve_input(&mut p, false, false, 1000);
    assert_eq!(p, before);
}

#[test]
fn increase_monotone_in_elapsed_time() {
    let mut shorter = centred_paddle(Side::Right);
    let mut longer = centred_paddle(Side::Right);
    resolve_input(&mut shorter, true, false, 100);
    resolve_input(&mut longer, true, false, 200);
    assert_eq!(shorter.vertical, 50_000);
    assert_eq!(longer.vertical, 100_000);
    assert!(shorter.vertical <= longer.vertical);
}

#[test]
fn ball_depth_wrap_resets_to_centre() {
    // depth 1.4 + 0.05 = 1.45 exceeds 1.445: reset to 0, speeds kept
    let mut b = Ball { vertical_speed: 1000, depth_speed: 100, vertical: 0, depth: 1_400_000 };
    advance_ball(&mut b, 1000);
    assert_eq!(b.depth, 0);
    assert_eq!(b.depth_speed, 100);
    assert_eq!(b.vertical_speed, 1000);
    assert_eq!(b.vertical, 500_000);
}

#[test]
fn ball_depth_wrap_on_negative_side() {
    let mut b = Ball { vertical_speed: 1000, depth_speed: -100, vertical: 0, depth: -1_400_000 };
    advance_ball(&mut b, 1000);
    assert_eq!(b.depth, 0);
    assert_eq!(b.depth_speed, -100);
}

#[test]
fn ball_vertical_reflection_flips_speed() {
    let mut b = Ball { vertical_speed: 1000, depth_speed: 100, vertical: 700_000, depth: 0 };
    advance_ball(&mut b, 1000);
    // 0.7 + 0.5 = 1.2 exceeds 0.763: the speed flips, the position stays out for one frame
    assert_eq!(b.vertical, 1_200_000);
    assert_eq!(b.vertical_speed, -1000);
    assert_eq!(b.depth_speed, 100);
    assert_eq!(b.depth, 50_000);
}

#[test]
fn ball_reflection_at_lower_limit() {
    let mut b = Ball { vertical_speed: -1000, depth_speed: 100, vertical: -700_000, depth: 0 };
    advance_ball(&mut b, 1000);
    assert_eq!(b.vertical, -1_200_000);
    assert_eq!(b.vertical_speed, 1000);
}

#[test]
fn depth_wrap_takes_precedence_over_reflection() {
    // both limits are crossed in the same frame: only the depth policy fires
    let mut b = Ball { vertical_speed: 1000, depth_speed: 100, vertical: 700_000, depth: 1_400_000 };
    advance_ball(&mut b, 1000);
    assert_eq!(b.depth, 0);
    assert_eq!(b.vertical_speed, 1000);
    assert_eq!(b.vertical, 1_200_000);
}

#[test]
fn ball_in_flight_keeps_speeds() {
    let mut b = Ball { vertical_speed: 1000, depth_speed: 1000, vertical: 0, depth: 0 };
    advance_ball(&mut b, 16);
    assert_eq!(b.vertical, 8_000);
    assert_eq!(b.depth, 8_000);
    assert_eq!(b.vertical_speed, 1000);
    assert_eq!(b.depth_speed, 1000);
}

#[test]
fn initial_state_exact_values() {
    let s = initial_state();
    assert_eq!(s.left, Paddle { side: Side::Left, speed: BASE_SPEED, vertical: 0, depth: -PADDLE_DEPTH });
    assert_eq!(s.right, Paddle { side: Side::Right, speed: BASE_SPEED, vertical: 0, depth: PADDLE_DEPTH });
    assert_eq!(s.ball, Ball { vertical_speed: BASE_SPEED, depth_speed: BASE_SPEED, vertical: 0, depth: 0 });
    assert_eq!(Z_LIMIT, 1_445_000);
    assert_eq!(Y_LIMIT, 763_000);
}

#[test]
fn no_input_ticks_leave_paddles_unchanged() {
    let mut s = initial_state();
    let keys = no_keys();
    for _ in 0..5 {
        tick(&mut s, &keys, 16);
    }
    assert_eq!(s.left.vertical, 0);
    assert_eq!(s.right.vertical, 0);
    // the ball evolved deterministically: 5 frames of 8_000 on each axis
    assert_eq!(s.ball.vertical, 40_000);
    assert_eq!(s.ball.depth, 40_000);
}

#[test]
fn identical_runs_give_identical_states() {
    let keys = no_keys();
    let mut a = initial_state();
    let mut b = initial_state();
    for dt in [16u32, 17, 15, 33, 16] {
        tick(&mut a, &keys, dt);
        tick(&mut b, &keys, dt);
    }
    assert_eq!(a, b);
}

#[test]
fn tick_applies_each_side_own_keys() {
    let mut s = initial_state();
    let keys = HeldKeys { left_increase: true, left_decrease: false, right_increase: false, right_decrease: true };
    tick(&mut s, &keys, 16);
    assert_eq!(s.left.vertical, 8_000);
    assert_eq!(s.right.vertical, -8_000);
}

#[test]
fn tick_moves_ball_past_depth_limit() {
    let mut s = SimState {
        left: centred_paddle(Side::Left),
        right: centred_paddle(Side::Right),
        ball: Ball { vertical_speed: 1000, depth_speed: 1000, vertical: 0, depth: 1_440_000 },
    };
    tick(&mut s, &no_keys(), 1000);
    assert_eq!(s.ball.depth, 0);
    assert_eq!(s.ball.depth_speed, 1000);
}
