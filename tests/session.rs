use g29::events::Event;
use g29::session::{Phase, G29};
use g29::{Led, Options};

fn listening(options: Options) -> G29<u32> {
    let mut g29: G29<u32> = G29::new(options, false);
    g29.initialize(12);
    g29
}

#[test]
fn default_options() {
    let o = Options::default();
    assert_eq!(o.range, 900);
    assert_eq!(o.auto_center, [0x07, 0xff]);
    assert!(o.auto_center_enabled);
    assert!(!o.debug);
}

#[test]
fn full_first_read_starts_listening() {
    let mut g29: G29<u32> = G29::new(Options::default(), false);
    assert_eq!(g29.phase(), Phase::Uninitialized);
    let commands = g29.initialize(12);
    assert_eq!(g29.phase(), Phase::Listening);
    assert_eq!(
        commands,
        vec![
            [0xf3, 0, 0, 0, 0, 0, 0],
            [0xf8, 0x81, 0x84, 0x03, 0, 0, 0],
            [0x14, 0, 0, 0, 0, 0, 0],
            [0xfe, 0x0d, 0x07, 0x07, 0xff, 0, 0],
        ]
    );
    assert!(g29.initialize(12).is_empty());
}

#[test]
fn short_first_read_calibrates_then_listens() {
    let options = Options {
        range: 20,
        auto_center_enabled: false,
        ..Default::default()
    };
    let mut g29: G29<u32> = G29::new(options, false);
    let commands = g29.initialize(8);
    assert_eq!(g29.phase(), Phase::Calibrating);
    assert_eq!(
        commands,
        vec![
            [0xf3, 0, 0, 0, 0, 0, 0],
            [0xf8, 0x0a, 0, 0, 0, 0, 0],
            [0xf8, 0x09, 0x05, 0x01, 0x01, 0, 0],
        ]
    );
    let commands = g29.initialize(8);
    assert_eq!(g29.phase(), Phase::Listening);
    assert_eq!(g29.options().range, 40);
    assert_eq!(
        commands,
        vec![
            [0xf3, 0, 0, 0, 0, 0, 0],
            [0xf8, 0x81, 40, 0, 0, 0, 0],
            [0xf5, 0, 0, 0, 0, 0, 0],
        ]
    );
}

#[test]
fn range_is_clamped_to_nine_hundred() {
    let options = Options {
        range: 1000,
        ..Default::default()
    };
    let mut g29: G29<u32> = G29::new(options, false);
    let commands = g29.initialize(12);
    assert_eq!(commands[1], [0xf8, 0x81, 0x84, 0x03, 0, 0, 0]);
    assert_eq!(g29.options().range, 900);
}

#[test]
fn commands_get_a_report_id_where_needed() {
    let plain: G29<u32> = G29::new(Options::default(), false);
    let prefixed: G29<u32> = G29::new(Options::default(), true);
    let c = [0xf8, 0x12, 0x1f, 0, 0, 0, 1];
    assert_eq!(plain.frame_command(&c), vec![0xf8, 0x12, 0x1f, 0, 0, 0, 1]);
    assert_eq!(
        prefixed.frame_command(&c),
        vec![0, 0xf8, 0x12, 0x1f, 0, 0, 0, 1]
    );
}

#[test]
fn led_and_friction_commands() {
    let g29 = listening(Options::default());
    assert_eq!(g29.set_leds(Led::All), [0xf8, 0x12, 0x1f, 0, 0, 0, 1]);
    assert_eq!(
        g29.set_leds(Led::Red | Led::GreenOne),
        [0xf8, 0x12, 0x11, 0, 0, 0, 1]
    );
    assert_eq!(g29.set_leds(Led::Off | Led::Red), [0xf8, 0x12, 0x10, 0, 0, 0, 1]);
    assert_eq!(g29.force_friction(7, 7), [0x21, 0x02, 49, 0, 49, 0, 0]);
    assert_eq!(g29.force_friction(0, 3), [0x21, 0x02, 0, 0, 21, 0, 0]);
    assert_eq!(g29.force_friction(0, 0), [0x02, 0, 0, 0, 0, 0, 0]);
}

#[test]
fn led_union() {
    assert_eq!(Led::Off | Led::Red, Led::Red);
    assert_eq!(Led::GreenTwo | Led::Off, Led::GreenTwo);
    assert_eq!(Led::GreenOne | Led::GreenTwo, Led::Other(0x03));
    assert_eq!((Led::OrangeOne | Led::OrangeTwo).as_u8(), 0x0c);
}

#[test]
fn auto_center_force_is_stored_and_sent() {
    let mut g29 = listening(Options::default());
    let commands = g29.set_auto_center_force(0x0f, 0x80);
    assert_eq!(g29.options().auto_center, [0x0f, 0x80]);
    assert_eq!(
        commands,
        vec![[0x14, 0, 0, 0, 0, 0, 0], [0xfe, 0x0d, 0x0f, 0x0f, 0x80, 0, 0]]
    );
}

#[test]
fn two_handlers_fire_once_with_new_throttle() {
    let mut g29 = listening(Options::default());
    let a = g29.register_event_handler(Event::Throttle, 1).unwrap();
    let b = g29.register_event_handler(Event::Throttle, 2).unwrap();
    assert_ne!(a.id, b.id);
    let mut next = [0u8; 12];
    next[6] = 200;
    let fired = g29.receive(&next, 12);
    let tags: Vec<u32> = fired.iter().map(|h| h.handler).collect();
    assert_eq!(tags, vec![1, 2]);
    assert!(fired.iter().all(|h| h.event == Event::Throttle));
    assert_eq!(g29.snapshot()[6], 200);
    assert_eq!(g29.throttle(), 200);
}

#[test]
fn unregistered_handler_is_not_invoked_again() {
    let mut g29 = listening(Options::default());
    let a = g29.register_event_handler(Event::Throttle, 1).unwrap();
    g29.register_event_handler(Event::Throttle, 2).unwrap();
    let mut next = [0u8; 12];
    next[6] = 10;
    assert_eq!(g29.receive(&next, 12).len(), 2);
    g29.unregister_event_handler(a);
    next[6] = 20;
    let tags: Vec<u32> = g29.receive(&next, 12).iter().map(|h| h.handler).collect();
    assert_eq!(tags, vec![2]);
}

#[test]
fn short_reads_and_repeated_frames_are_ignored() {
    let mut g29 = listening(Options::default());
    g29.register_event_handler(Event::Brake, 7).unwrap();
    let mut next = [0u8; 12];
    next[7] = 99;
    assert!(g29.receive(&next, 11).is_empty());
    assert_eq!(g29.brake(), 0);
    assert_eq!(g29.receive(&next, 12).len(), 1);
    assert!(g29.receive(&next, 12).is_empty());
    assert_eq!(g29.brake(), 99);
}

#[test]
fn no_frames_before_listening() {
    let mut g29: G29<u32> = G29::new(Options::default(), false);
    g29.register_event_handler(Event::Clutch, 1).unwrap();
    let next = [9u8; 12];
    assert!(g29.receive(&next, 12).is_empty());
    assert_eq!(g29.clutch(), 0);
}

#[test]
fn disconnect_turns_everything_off_once() {
    let mut g29 = listening(Options::default());
    assert!(g29.connected());
    let commands = g29.disconnect();
    assert_eq!(
        commands,
        vec![
            [0xf3, 0, 0, 0, 0, 0, 0],
            [0xf8, 0x12, 0, 0, 0, 0, 1],
            [0x02, 0, 0, 0, 0, 0, 0],
            [0x14, 0, 0, 0, 0, 0, 0],
            [0xfe, 0x0d, 0, 0, 0, 0, 0],
        ]
    );
    assert!(!g29.connected());
    assert_eq!(g29.phase(), Phase::Disconnected);
    assert!(g29.disconnect().is_empty());
    let next = [1u8; 12];
    assert!(g29.receive(&next, 12).is_empty());
}

#[test]
fn getters_read_the_current_frame() {
    let mut g29 = listening(Options::default());
    let next = [0x27, 0x30, 0x82, 0x11, 4, 5, 6, 7, 8, 9, 10, 1];
    g29.receive(&next, 12);
    assert_eq!(g29.dpad(), g29::DpadPosition::TopLeft);
    assert!(g29.square_button() && !g29.x_button());
    assert!(g29.share_button() && g29.option_button() && !g29.l3_button());
    assert_eq!(g29.gear_selector(), g29::GearSelector::Second);
    assert!(g29.plus_button() && g29.minus_button() && g29.playstation_button());
    assert_eq!((g29.steering_fine(), g29.steering()), (4, 5));
    assert_eq!((g29.throttle(), g29.brake(), g29.clutch()), (6, 7, 8));
    assert_eq!((g29.shifter_x(), g29.shifter_y()), (9, 10));
    assert!(g29.shifter_pressed());
}
