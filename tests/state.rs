use g29::state;
use g29::{DpadPosition, GearSelector};

fn get_test_state() -> [u8; 12] {
    [
        0x00, 0x00, 0x00, 0x00, 0x00, 0x00, 0x00, 0x00, 0x00, 0x00, 0x00, 0x00,
    ]
}

#[test]
fn test_throttle() {
    let mut state = get_test_state();
    state[6] = 0;

    assert_eq!(state::throttle(&state), 0);

    state[6] = 255;
    assert_eq!(state::throttle(&state), 255);

    state[6] = 128;
    assert_eq!(state::throttle(&state), 128);
}

#[test]
fn test_brake() {
    let mut state = get_test_state();
    assert_eq!(state::brake(&state), 0);

    state[7] = 255;
    assert_eq!(state::brake(&state), 255);

    state[7] = 128;
    assert_eq!(state::brake(&state), 128);
}

#[test]
fn test_steering() {
    let mut state = get_test_state();
    assert_eq!(state::steering(&state), 0);

    state[5] = 255;
    assert_eq!(state::steering(&state), 255);

    state[5] = 128;
    assert_eq!(state::steering(&state), 128);
}

#[test]
fn test_steering_fine() {
    let mut state = get_test_state();
    assert_eq!(state::steering_fine(&state), 0);

    state[4] = 255;
    assert_eq!(state::steering_fine(&state), 255);

    state[4] = 128;
    assert_eq!(state::steering_fine(&state), 128);
}

#[test]
fn test_dpad() {
    let mut state = get_test_state();
    state[0] |= 240;
    assert_eq!(state::dpad(&state), DpadPosition::Up);

    state[0] = 240 | 1;
    assert_eq!(state::dpad(&state), DpadPosition::TopRight);

    state[0] = 240 | 2;
    assert_eq!(state::dpad(&state), DpadPosition::Right);

    state[0] = 240 | 3;
    assert_eq!(state::dpad(&state), DpadPosition::BottomRight);

    state[0] = 240 | 4;
    assert_eq!(state::dpad(&state), DpadPosition::Down);

    state[0] = 240 | 5;
    assert_eq!(state::dpad(&state), DpadPosition::BottomLeft);

    state[0] = 240 | 6;
    assert_eq!(state::dpad(&state), DpadPosition::Left);

    state[0] = 240 | 7;
    assert_eq!(state::dpad(&state), DpadPosition::TopLeft);

    state[0] = 240 | 8;
    assert_eq!(state::dpad(&state), DpadPosition::Center);
}

#[test]
fn test_x_button() {
    let mut state = get_test_state();
    state[0] |= 240;
    assert!(state::x_button(&state));

    state[0] ^= 16;
    assert!(!state::x_button(&state));
}

#[test]
fn test_square_button() {
    let mut state = get_test_state();
    state[0] |= 240;

    assert!(state::square_button(&state));

    state[0] ^= 32;
    assert!(!state::square_button(&state));
}

#[test]
fn test_circle_button() {
    let mut state = get_test_state();
    state[0] |= 240;

    assert!(state::circle_button(&state));

    state[0] ^= 64;
    assert!(!state::circle_button(&state));
}

#[test]
fn test_triangle_button() {
    let mut state = get_test_state();
    state[0] |= 240;

    assert!(state::triangle_button(&state));

    state[0] ^= 128;
    assert!(!state::triangle_button(&state));
}

#[test]
fn test_right_shifter() {
    let mut state = get_test_state();
    state[1] |= 15;

    assert!(state::right_shifter(&state));

    state[1] ^= 1;
    assert!(!state::right_shifter(&state));
}

#[test]
fn test_left_shifter() {
    let mut state = get_test_state();
    state[1] |= 15;

    assert!(state::left_shifter(&state));

    state[1] ^= 2;
    assert!(!state::left_shifter(&state));
}

#[test]
fn test_r2_button() {
    let mut state = get_test_state();
    state[1] |= 15;

    assert!(state::r2_button(&state));

    state[1] ^= 4;
    assert!(!state::r2_button(&state));
}

#[test]
fn test_l2_button() {
    let mut state = get_test_state();
    state[1] |= 15;

    assert!(state::l2_button(&state));

    state[1] ^= 8;
    assert!(!state::l2_button(&state));
}

#[test]
fn test_share_button() {
    let mut state = get_test_state();
    state[1] |= 240;

    assert!(state::share_button(&state));

    state[1] ^= 16;
    assert!(!state::share_button(&state));
}

#[test]
fn test_options_button() {
    let mut state = get_test_state();
    state[1] |= 240;

    assert!(state::options_button(&state));

    state[1] ^= 32;
    assert!(!state::options_button(&state));
}

#[test]
fn test_r3_button() {
    let mut state = get_test_state();
    state[1] |= 240;

    assert!(state::r3_button(&state));

    state[1] ^= 64;
    assert!(!state::r3_button(&state));
}

#[test]
fn test_l3_button() {
    let mut state = get_test_state();
    state[1] |= 240;

    assert!(state::l3_button(&state));

    state[1] ^= 128;
    assert!(!state::l3_button(&state));
}

#[test]
fn test_gear_selector() {
    let mut state = get_test_state();
    state[2] |= 128;

    assert_eq!(
        state::gear_selector(&state),
        GearSelector::Neutral
    );

    state[2] = 128 | 1;
    assert_eq!(
        state::gear_selector(&state),
        GearSelector::First
    );

    state[2] = 128 | 2;
    assert_eq!(
        state::gear_selector(&state),
        GearSelector::Second
    );

    state[2] = 128 | 4;
    assert_eq!(
        state::gear_selector(&state),
        GearSelector::Third
    );

    state[2] = 128 | 8;
    assert_eq!(
        state::gear_selector(&state),
        GearSelector::Fourth
    );

    state[2] = 128 | 16;
    assert_eq!(
        state::gear_selector(&state),
        GearSelector::Fifth
    );

    state[2] = 128 | 32;
    assert_eq!(
        state::gear_selector(&state),
        GearSelector::Sixth
    );

    state[2] = 128 | 64;
    assert_eq!(
        state::gear_selector(&state),
        GearSelector::Reverse
    );
}

#[test]
fn test_plus_button() {
    let mut state = get_test_state();
    state[2] |= 128;

    assert!(state::plus_button(&state));

    state[2] ^= 128;
    assert!(!state::plus_button(&state));
}

#[test]
fn test_minus_button() {
    let mut state = get_test_state();
    state[3] |= 15;

    assert!(state::minus_button(&state));

    state[3] ^= 1;
    assert!(!state::minus_button(&state));
}

#[test]
fn test_spinner_right() {
    let mut state = get_test_state();
    state[3] |= 15;

    assert!(state::spinner_right(&state));

    state[3] ^= 2;
    assert!(!state::spinner_right(&state));
}

#[test]
fn test_spinner_left() {
    let mut state = get_test_state();
    state[3] |= 15;

    assert!(state::spinner_left(&state));

    state[3] ^= 4;
    assert!(!state::spinner_left(&state));
}

#[test]
fn test_spinner_button() {
    let mut state = get_test_state();
    state[3] |= 15;

    assert!(state::spinner_button(&state));

    state[3] ^= 8;
    assert!(!state::spinner_button(&state));
}

#[test]
fn test_playstation_button() {
    let mut state = get_test_state();
    state[3] |= 240;

    assert!(state::playstation_button(&state));

    state[3] ^= 16;
    assert!(!state::playstation_button(&state));
}

#[test]
fn test_clutch() {
    let mut state = get_test_state();
    assert_eq!(state::clutch(&state), 0);

    state[8] = 255;
    assert_eq!(state::clutch(&state), 255);

    state[8] = 128;
    assert_eq!(state::clutch(&state), 128);
}

#[test]
fn test_shifter_x() {
    let mut state = get_test_state();
    assert_eq!(state::shifter_x(&state), 0);

    state[9] = 255;
    assert_eq!(state::shifter_x(&state), 255);

    state[9] = 128;
    assert_eq!(state::shifter_x(&state), 128);
}

#[test]
fn test_shifter_y() {
    let mut state = get_test_state();
    assert_eq!(state::shifter_y(&state), 0);

    state[10] = 255;
    assert_eq!(state::shifter_y(&state), 255);

    state[10] = 128;
    assert_eq!(state::shifter_y(&state), 128);
}

#[test]
fn test_shifter_pressed() {
    let mut state = get_test_state();
    assert!(!state::shifter_pressed(&state));

    state[11] = 1;
    assert!(state::shifter_pressed(&state));
}
