use breakout_core::components::{Transform, Velocity};
use breakout_core::constants::{
    KEY_ARROW_LEFT, KEY_ARROW_RIGHT, PADDLE_LEFT_BOUND, PADDLE_RIGHT_BOUND, PADDLE_SIZE_X,
    PADDLE_SIZE_Y, PADDLE_SPEED,
};
use breakout_core::fixed_update::{ball_movement, handle_input};
use breakout_core::geometry::Vec2;
use breakout_core::input::InputState;
use breakout_core::keybindings::Keybindings;

fn paddle_at(x: i64) -> Transform {
    Transform::new(Vec2::new(x, -123), Vec2::new(PADDLE_SIZE_X, PADDLE_SIZE_Y))
}

#[test]
fn ball_movement_integrates_both_axes() {
    let mut transform = Transform::new(Vec2::new(7, -3), Vec2::new(10, 10));
    let velocity = Velocity::new(3, -2);
    ball_movement(&mut transform, &velocity, 4);
    assert_eq!(transform.translation, Vec2::new(19, -11));
    assert_eq!(transform.scale, Vec2::new(10, 10));
}

#[test]
fn ball_movement_with_zero_dt_stands_still() {
    let mut transform = Transform::new(Vec2::new(7, -3), Vec2::new(10, 10));
    let velocity = Velocity::new(100, 100);
    ball_movement(&mut transform, &velocity, 0);
    assert_eq!(transform.translation, Vec2::new(7, -3));
}

#[test]
fn ball_movement_is_unclamped() {
    // The ball may leave the nominal play field; walls are what stops it.
    let mut transform = Transform::new(Vec2::new(150, 140), Vec2::new(10, 10));
    let velocity = Velocity::new(100, 100);
    ball_movement(&mut transform, &velocity, 10);
    assert_eq!(transform.translation, Vec2::new(1150, 1140));
}

#[test]
fn paddle_step_without_clamp_is_exact() {
    // From far left of the travel range, one step of speed * dt lands
    // exactly at speed * dt further right.
    let kb = Keybindings::default();
    let input = InputState::new(vec![KEY_ARROW_RIGHT]);
    let mut paddle = paddle_at(-200);
    handle_input(&kb, &input, &mut paddle, 1);
    assert_eq!(paddle.translation.x, -200 + PADDLE_SPEED);
    assert_eq!(paddle.translation.y, -123);
}

#[test]
fn paddle_at_left_bound_stays_exactly_there() {
    // Pressing left at the left bound: the clamp returns the bound itself,
    // with no overshoot.
    let kb = Keybindings::default();
    let input = InputState::new(vec![KEY_ARROW_LEFT]);
    let mut paddle = paddle_at(PADDLE_LEFT_BOUND);
    handle_input(&kb, &input, &mut paddle, 16);
    assert_eq!(paddle.translation.x, PADDLE_LEFT_BOUND);
}

#[test]
fn paddle_clamps_at_right_bound() {
    let kb = Keybindings::default();
    let input = InputState::new(vec![KEY_ARROW_RIGHT]);
    let mut paddle = paddle_at(0);
    handle_input(&kb, &input, &mut paddle, 1_000);
    assert_eq!(paddle.translation.x, PADDLE_RIGHT_BOUND);
}

#[test]
fn paddle_stays_in_bounds_for_huge_dt() {
    let kb = Keybindings::default();
    for keys in [vec![KEY_ARROW_LEFT], vec![KEY_ARROW_RIGHT], vec![]] {
        let input = InputState::new(keys);
        let mut paddle = paddle_at(0);
        handle_input(&kb, &input, &mut paddle, 1_000_000);
        assert!(PADDLE_LEFT_BOUND <= paddle.translation.x);
        assert!(paddle.translation.x <= PADDLE_RIGHT_BOUND);
    }
}

#[test]
fn paddle_without_input_does_not_move() {
    let kb = Keybindings::default();
    let input = InputState::new(vec![]);
    let mut paddle = paddle_at(10);
    handle_input(&kb, &input, &mut paddle, 16);
    assert_eq!(paddle.translation.x, 10);
    assert_eq!(paddle.scale, Vec2::new(PADDLE_SIZE_X, PADDLE_SIZE_Y));
}
