use g29::data_map::diff_positions;
use g29::events::{classify_events, different_indices, Event, EventMap};
use g29::Frame;

fn frame_with(position: usize, value: u8) -> Frame {
    let mut f = [0u8; 12];
    f[position] = value;
    f
}

#[test]
fn test_different_indices_none() {
    let data1: Frame = [1, 2, 3, 4, 5, 6, 7, 8, 9, 10, 11, 12];
    let data2: Frame = [1, 2, 3, 4, 5, 6, 7, 8, 9, 10, 11, 12];

    let result = different_indices(&data1, &data2);
    assert_eq!(result.len(), 0);
}

#[test]
fn test_different_indices_some() {
    let data1: Frame = [1, 2, 3, 4, 5, 6, 7, 8, 9, 10, 11, 12];
    let data2: Frame = [1, 2, 3, 4, 5, 6, 7, 8, 9, 11, 13, 12];

    let result = different_indices(&data1, &data2);
    assert_eq!(result.len(), 2);
    assert_eq!(result, vec![9, 10]);
}

#[test]
fn diff_of_identical_frames_is_empty() {
    let f: Frame = [7, 0, 255, 3, 9, 9, 9, 1, 2, 3, 4, 1];
    assert!(diff_positions(f, f).is_empty());
}

#[test]
fn diff_is_symmetric() {
    let a: Frame = [0, 1, 2, 3, 4, 5, 6, 7, 8, 9, 10, 11];
    let b: Frame = [0, 9, 2, 3, 0, 5, 6, 7, 1, 9, 10, 0];
    assert_eq!(diff_positions(a, b), vec![1, 4, 8, 11]);
    assert_eq!(diff_positions(b, a), vec![1, 4, 8, 11]);
}

#[test]
fn x_button_press_emits_one_event() {
    let prev = [0u8; 12];
    let next = frame_with(0, 0x10);
    assert_eq!(classify_events(&prev, &next), vec![Event::XButtonPressed]);
}

#[test]
fn dpad_move_releases_old_and_presses_new() {
    let prev = frame_with(0, 0x00);
    let next = frame_with(0, 0x02);
    let events = classify_events(&prev, &next);
    assert_eq!(events.len(), 2);
    assert!(events.contains(&Event::DpadRightPressed));
    assert!(events.contains(&Event::DpadUpReleased));
    assert_eq!(events, vec![Event::DpadRightPressed, Event::DpadUpReleased]);
}

#[test]
fn dpad_leaving_center_only_presses() {
    let prev = frame_with(0, 0x08);
    let next = frame_with(0, 0x06);
    assert_eq!(classify_events(&prev, &next), vec![Event::DpadLeftPressed]);
    assert_eq!(classify_events(&next, &prev), vec![Event::DpadLeftReleased]);
}

#[test]
fn identical_frames_emit_nothing() {
    let f: Frame = [0x13, 0xff, 0x41, 0x1f, 1, 2, 3, 4, 5, 6, 7, 1];
    assert!(classify_events(&f, &f).is_empty());
}

#[test]
fn spinner_fires_only_when_it_starts() {
    let still = [0u8; 12];
    let right = frame_with(3, 0x02);
    let left = frame_with(3, 0x04);
    assert_eq!(classify_events(&still, &right), vec![Event::SpinnerRight]);
    assert_eq!(classify_events(&right, &still), Vec::<Event>::new());
    assert_eq!(classify_events(&still, &left), vec![Event::SpinnerLeft]);
    assert_eq!(classify_events(&left, &still), Vec::<Event>::new());
}

#[test]
fn buttons_of_byte_three_press_and_release() {
    let none = [0u8; 12];
    let all = frame_with(3, 0x19);
    assert_eq!(
        classify_events(&none, &all),
        vec![
            Event::MinusButtonPressed,
            Event::SpinnerButtonPressed,
            Event::PlaystationButtonPressed
        ]
    );
    assert_eq!(
        classify_events(&all, &none),
        vec![
            Event::MinusButtonReleased,
            Event::SpinnerButtonReleased,
            Event::PlaystationButtonReleased
        ]
    );
}

#[test]
fn steering_bytes_each_fire_once() {
    let prev = [0u8; 12];
    let mut next = [0u8; 12];
    next[4] = 10;
    next[5] = 200;
    assert_eq!(
        classify_events(&prev, &next),
        vec![Event::SteeringFine, Event::Steering]
    );
}

#[test]
fn scalar_fields_emit_change_events_in_position_order() {
    let prev = [0u8; 12];
    let next: Frame = [0, 0, 0, 0, 0, 0, 1, 2, 3, 4, 5, 0];
    assert_eq!(
        classify_events(&prev, &next),
        vec![
            Event::Throttle,
            Event::Brake,
            Event::Clutch,
            Event::ShifterX,
            Event::ShifterY
        ]
    );
}

#[test]
fn gear_and_plus_share_byte_two() {
    let prev = frame_with(2, 0x01);
    let next = frame_with(2, 0x80 | 0x03);
    assert_eq!(
        classify_events(&prev, &next),
        vec![Event::GearChanged, Event::PlusButtonPressed]
    );
    let same_gear = frame_with(2, 0x80 | 0x01);
    assert_eq!(
        classify_events(&prev, &same_gear),
        vec![Event::PlusButtonPressed]
    );
}

#[test]
fn shifter_press_and_release() {
    let up = [0u8; 12];
    let down = frame_with(11, 1);
    assert_eq!(classify_events(&up, &down), vec![Event::ShifterPressed]);
    assert_eq!(classify_events(&down, &up), vec![Event::ShifterReleased]);
}

#[test]
fn byte_one_buttons_in_order() {
    let prev = [0u8; 12];
    let next = frame_with(1, 0xff);
    assert_eq!(
        classify_events(&prev, &next),
        vec![
            Event::RightShifterPressed,
            Event::LeftShifterPressed,
            Event::R2ButtonPressed,
            Event::L2ButtonPressed,
            Event::ShareButtonPressed,
            Event::OptionsButtonPressed,
            Event::R3ButtonPressed,
            Event::L3ButtonPressed
        ]
    );
}

#[test]
fn registry_hands_out_increasing_ids_per_event() {
    let mut map: EventMap<u32> = EventMap::new();
    let a = map.insert(Event::Throttle, 1).unwrap();
    let b = map.insert(Event::Throttle, 2).unwrap();
    let c = map.insert(Event::Brake, 3).unwrap();
    assert_eq!((a.id, b.id, c.id), (0, 1, 0));
    assert_eq!(a.event, Event::Throttle);
    assert_eq!(c.event, Event::Brake);
    let found: Vec<u32> = map
        .registered_handlers(Event::Throttle)
        .iter()
        .map(|h| h.handler)
        .collect();
    assert_eq!(found, vec![1, 2]);
}

#[test]
fn two_throttle_handlers_each_fire_once() {
    let mut map: EventMap<u32> = EventMap::new();
    map.insert(Event::Throttle, 10).unwrap();
    map.insert(Event::Throttle, 20).unwrap();
    map.insert(Event::Brake, 30).unwrap();
    let prev = [0u8; 12];
    let next = frame_with(6, 77);
    let fired: Vec<u32> = map
        .trigger_events(&prev, &next)
        .iter()
        .map(|h| h.handler)
        .collect();
    assert_eq!(fired, vec![10, 20]);
}

#[test]
fn unregistered_handler_no_longer_fires() {
    let mut map: EventMap<u32> = EventMap::new();
    let first = map.insert(Event::Throttle, 10).unwrap();
    map.insert(Event::Throttle, 20).unwrap();
    map.remove(first);
    let prev = [0u8; 12];
    let next = frame_with(6, 5);
    let fired: Vec<u32> = map
        .trigger_events(&prev, &next)
        .iter()
        .map(|h| h.handler)
        .collect();
    assert_eq!(fired, vec![20]);
    let again = map.insert(Event::Throttle, 30).unwrap();
    assert_eq!(again.id, 2);
}

#[test]
fn removing_unknown_handle_changes_nothing() {
    let mut map: EventMap<u32> = EventMap::new();
    let kept = map.insert(Event::Clutch, 1).unwrap();
    let mut stray = kept;
    stray.id = 9;
    map.remove(stray);
    let mut other = kept;
    other.event = Event::Brake;
    map.remove(other);
    assert_eq!(map.registered_handlers(Event::Clutch).len(), 1);
    assert!(map.registered_handlers(Event::Brake).is_empty());
}
