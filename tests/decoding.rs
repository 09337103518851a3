use g29::data_map::{map_data, Memory};
use g29::state::{decode, dpad, gear_selector, pedal_to_percent};
use g29::{DpadPosition, Frame, GearSelector};

fn frame_with(position: usize, value: u8) -> Frame {
    let mut f = [0u8; 12];
    f[position] = value;
    f
}

#[test]
fn pedal_scaling_end_points_and_middle() {
    assert_eq!(pedal_to_percent(0), 100);
    assert_eq!(pedal_to_percent(255), 0);
    assert_eq!(pedal_to_percent(128), 50);
    assert_eq!(pedal_to_percent(64), 75);
    assert_eq!(pedal_to_percent(1), 100);
    assert_eq!(pedal_to_percent(2), 99);
}

#[test]
fn dpad_low_nibble_boundaries() {
    assert_eq!(dpad(&frame_with(0, 0x00)), DpadPosition::Up);
    assert_eq!(dpad(&frame_with(0, 0xf0)), DpadPosition::Up);
    assert_eq!(dpad(&frame_with(0, 0x08)), DpadPosition::Center);
    for nibble in 9u8..16 {
        assert_eq!(dpad(&frame_with(0, nibble)), DpadPosition::Center);
        assert_eq!(dpad(&frame_with(0, 0xa0 | nibble)), DpadPosition::Center);
    }
}

#[test]
fn gear_selector_boundaries() {
    assert_eq!(gear_selector(&frame_with(2, 64)), GearSelector::Reverse);
    assert_eq!(gear_selector(&frame_with(2, 0x80 | 64)), GearSelector::Reverse);
    assert_eq!(gear_selector(&frame_with(2, 0)), GearSelector::Neutral);
    assert_eq!(gear_selector(&frame_with(2, 3)), GearSelector::Neutral);
    assert_eq!(gear_selector(&frame_with(2, 64 | 1)), GearSelector::Neutral);
    assert_eq!(gear_selector(&frame_with(2, 0x7f)), GearSelector::Neutral);
}

#[test]
fn decode_is_deterministic_and_complete() {
    let f: Frame = [0x22, 0x05, 0x84, 0x12, 10, 20, 30, 40, 50, 60, 70, 1];
    let a = decode(&f);
    let b = decode(&f);
    assert_eq!(a, b);
    assert_eq!(a.dpad, DpadPosition::Right);
    assert!(a.square_button && !a.x_button);
    assert!(a.right_shifter && a.r2_button && !a.left_shifter);
    assert_eq!(a.gear, GearSelector::Third);
    assert!(a.plus_button);
    assert!(a.spinner_right && a.playstation_button && !a.spinner_left);
    assert_eq!((a.steering_fine, a.steering), (10, 20));
    assert_eq!((a.throttle, a.brake, a.clutch), (30, 40, 50));
    assert_eq!((a.shifter_x, a.shifter_y), (60, 70));
    assert!(a.shifter_pressed);
}

#[test]
fn map_data_updates_only_listed_positions() {
    let data: Frame = [0x13, 0x21, 0x84, 0x0a, 10, 20, 0, 255, 128, 1, 2, 0];
    let mut memory = Memory::new();
    map_data(vec![0, 2, 3, 5, 6, 7, 8], data, &mut memory);
    assert_eq!(memory.wheel.dpad, 4);
    assert_eq!(memory.wheel.button_x, 1);
    assert_eq!(memory.wheel.button_square, 0);
    assert_eq!(memory.shifter.gear, 3);
    assert_eq!(memory.wheel.button_plus, 1);
    assert_eq!(memory.wheel.spinner, 2);
    assert_eq!(memory.wheel.button_spinner, 1);
    assert_eq!(memory.wheel.button_minus, 0);
    assert_eq!(memory.wheel.turn, 20);
    assert_eq!(memory.pedals.gas, 100);
    assert_eq!(memory.pedals.brake, 0);
    assert_eq!(memory.pedals.clutch, 50);
    // byte 1 was not listed
    assert_eq!(memory.wheel.shift_right, 0);
    assert_eq!(memory.wheel.button_option, 0);
    map_data(vec![1], data, &mut memory);
    assert_eq!(memory.wheel.shift_right, 1);
    assert_eq!(memory.wheel.button_option, 1);
}

#[test]
fn map_data_centre_and_unknown_positions() {
    let data: Frame = [0x0c, 0, 0x40, 0x04, 0, 0, 0, 0, 0, 0, 0, 1];
    let mut memory = Memory::new();
    memory.wheel.dpad = 5;
    map_data(vec![0, 3, 9, 10, 11, 40], data, &mut memory);
    assert_eq!(memory.wheel.dpad, 0);
    assert_eq!(memory.wheel.spinner, 1);
    assert_eq!(memory.shifter.gear, 7);
}
