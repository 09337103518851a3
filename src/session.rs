//! The state of a session with the wheel and the decisions of its read loop.
//!
//! Everything here is computed from plain values: the caller performs the
//! reads and writes on the device, hands each read to the session and writes
//! the commands that the session returns.

use vstd::prelude::*;

use crate::events::{
    frame_events, lemma_delivered_once_per_event, lemma_throttle_event_once, occurrences, Event,
    EventHandler, EventMap,
};
use crate::state::{self, bits_set, dpad_of, gear_of};
use crate::{DpadPosition, Frame, GearSelector, Led, Options};

verus! {

/// Length of a full report in bytes.
pub const FRAME_SIZE: usize = 12;

/// A command to the wheel: seven bytes.
pub type Command = [u8; 7];

/// Stages of a session: reports are only processed while listening.
#[derive(Debug, PartialEq, Eq, Structural, Clone, Copy)]
pub enum Phase {
    Uninitialized,
    Calibrating,
    Listening,
    Disconnected,
}

/// The seven bytes of a command.
pub open spec fn command(a: u8, b: u8, c: u8, d: u8, e: u8, f: u8, g: u8) -> Seq<u8> {
    seq![a, b, c, d, e, f, g]
}

/// Turns off the force effect in `slot` (0xf3: all effects).
pub open spec fn force_off_command(slot: u8) -> Seq<u8> {
    command(slot, 0, 0, 0, 0, 0, 0)
}

/// Lights the LEDs of the bit mask `bits`.
pub open spec fn led_command(bits: u8) -> Seq<u8> {
    command(0xf8, 0x12, bits, 0, 0, 0, 0x01)
}

/// A rotation range held to 40..=900 degrees.
pub open spec fn clamped_range(range: u16) -> u16 {
    if range < 40 {
        40
    } else if range > 900 {
        900
    } else {
        range
    }
}

/// Sets the rotation range, low byte first.
pub open spec fn range_command(range: u16) -> Seq<u8> {
    command(0xf8, 0x81, (range % 256) as u8, (range / 256) as u8, 0, 0, 0)
}

/// Switches auto-centering on with the force of the options, or off.
pub open spec fn auto_center_commands(options: Options) -> Seq<Seq<u8>> {
    if options.auto_center_enabled {
        seq![
            command(0x14, 0, 0, 0, 0, 0, 0),
            command(
                0xfe,
                0x0d,
                options.auto_center[0],
                options.auto_center[0],
                options.auto_center[1],
                0,
                0,
            ),
        ]
    } else {
        seq![command(0xf5, 0, 0, 0, 0, 0, 0)]
    }
}

/// Puts the wheel into its high precision mode.
pub open spec fn calibration_commands() -> Seq<Seq<u8>> {
    seq![command(0xf8, 0x0a, 0, 0, 0, 0, 0), command(0xf8, 0x09, 0x05, 0x01, 0x01, 0, 0)]
}

/// Friction force for the two motors, each scaled by 7; both zero turns the
/// effect off.
pub open spec fn friction_command(left: u8, right: u8) -> Seq<u8> {
    if left == 0 && right == 0 {
        force_off_command(2)
    } else {
        command(0x21, 0x02, (7 * left) as u8, 0, (7 * right) as u8, 0, 0)
    }
}

/// The bytes written for a command: preceded by a report id of 0 where the
/// platform needs one.
pub open spec fn framed(c: Seq<u8>, prepend_write: bool) -> Seq<u8> {
    if prepend_write {
        seq![0u8] + c
    } else {
        c
    }
}

/// The byte sequences of a list of commands.
pub open spec fn command_bytes(cs: Seq<Command>) -> Seq<Seq<u8>> {
    cs.map_values(|c: Command| c@)
}

/// What a session holds, as mathematical values.
pub struct SessionView<H> {
    pub options: Options,
    pub prepend_write: bool,
    pub calibrated: bool,
    pub phase: Phase,
    /// The last report processed.
    pub data: Seq<u8>,
    pub registry: EventMap<H>,
}

/// A session with a G29 wheel: its settings, the last report, and the
/// handlers registered for its events. `H` is the type of a handler.
#[derive(Debug)]
pub struct G29<H> {
    options: Options,
    prepend_write: bool,
    calibrated: bool,
    phase: Phase,
    data: Frame,
    event_handlers: EventMap<H>,
}

impl<H> View for G29<H> {
    type V = SessionView<H>;

    closed spec fn view(&self) -> SessionView<H> {
        SessionView {
            options: self.options,
            prepend_write: self.prepend_write,
            calibrated: self.calibrated,
            phase: self.phase,
            data: self.data@,
            registry: self.event_handlers,
        }
    }
}

fn force_off(slot: u8) -> (r: Command)
    ensures
        r@ == force_off_command(slot),
{
    let r: Command = [slot, 0, 0, 0, 0, 0, 0];
    assert(r@ =~= force_off_command(slot));
    r
}

fn calibrate_wheel() -> (r: Vec<Command>)
    ensures
        command_bytes(r@) == calibration_commands(),
{
    let init_1: Command = [0xf8, 0x0a, 0x00, 0x00, 0x00, 0x00, 0x00];
    let init_2: Command = [0xf8, 0x09, 0x05, 0x01, 0x01, 0x00, 0x00];
    let mut r: Vec<Command> = Vec::new();
    r.push(init_1);
    r.push(init_2);
    assert(init_1@ =~= command(0xf8, 0x0a, 0, 0, 0, 0, 0));
    assert(init_2@ =~= command(0xf8, 0x09, 0x05, 0x01, 0x01, 0, 0));
    assert(command_bytes(r@) =~= calibration_commands());
    r
}

fn auto_center(options: &Options) -> (r: Vec<Command>)
    ensures
        command_bytes(r@) == auto_center_commands(*options),
{
    let mut r: Vec<Command> = Vec::new();
    if options.auto_center_enabled {
        let on: Command = [0x14, 0x00, 0x00, 0x00, 0x00, 0x00, 0x00];
        let force: Command = [
            0xfe,
            0x0d,
            options.auto_center[0],
            options.auto_center[0],
            options.auto_center[1],
            0x00,
            0x00,
        ];
        r.push(on);
        r.push(force);
        assert(on@ =~= command(0x14, 0, 0, 0, 0, 0, 0));
        assert(force@ =~= command(
            0xfe,
            0x0d,
            options.auto_center[0],
            options.auto_center[0],
            options.auto_center[1],
            0,
            0,
        ));
    } else {
        let off: Command = [0xf5, 0x00, 0x00, 0x00, 0x00, 0x00, 0x00];
        r.push(off);
        assert(off@ =~= command(0xf5, 0, 0, 0, 0, 0, 0));
    }
    assert(command_bytes(r@) =~= auto_center_commands(*options));
    r
}

fn led_command_for(leds: Led) -> (r: Command)
    ensures
        r@ == led_command(leds.bits()),
{
    let r: Command = [0xf8, 0x12, leds.as_u8(), 0x00, 0x00, 0x00, 0x01];
    assert(r@ =~= led_command(leds.bits()));
    r
}

fn friction(left: u8, right: u8) -> (r: Command)
    requires
        left <= 36,
        right <= 36,
    ensures
        r@ == friction_command(left, right),
{
    if left | right == 0 {
        assert(left == 0 && right == 0) by (bit_vector)
            requires
                left | right == 0,
        ;
        return force_off(2);
    }
    assert(!(left == 0 && right == 0)) by (bit_vector)
        requires
            left | right != 0,
    ;
    let r: Command = [0x21, 0x02, left * 7, 0x00, right * 7, 0x00, 0x00];
    assert(r@ =~= friction_command(left, right));
    r
}

impl<H: Copy> G29<H> {
    /// The handler table is well formed.
    pub closed spec fn wf(&self) -> bool {
        self.event_handlers.wf()
    }

    /// A session that has not yet read from the wheel, with an all-zero
    /// report and no handler. `prepend_write` says whether each command is
    /// written after a report id of 0.
    pub fn new(options: Options, prepend_write: bool) -> (r: G29<H>)
        ensures
            r.wf(),
            r@.options == options,
            r@.prepend_write == prepend_write,
            !r@.calibrated,
            r@.phase == Phase::Uninitialized,
            r@.data == Seq::new(12, |i: int| 0u8),
            forall|e: Event| #[trigger] r@.registry.registered(e) == Seq::<EventHandler<H>>::empty(),
            forall|e: Event| #[trigger] r@.registry.next_id(e) == 0,
    {
        let data: Frame = [0u8; 12];
        let r = G29 {
            options,
            prepend_write,
            calibrated: false,
            phase: Phase::Uninitialized,
            data,
            event_handlers: EventMap::new(),
        };
        assert(r@.data =~= Seq::new(12, |i: int| 0u8));
        r
    }

    /// The bytes to write for `command`.
    pub fn frame_command(&self, command: &Command) -> (r: Vec<u8>)
        ensures
            r@ == framed(command@, self@.prepend_write),
    {
        let mut r: Vec<u8> = Vec::new();
        if self.prepend_write {
            r.push(0x00);
        }
        for i in 0..7
            invariant
                r@ == framed(command@.take(i as int), self.prepend_write),
        {
            r.push(command[i]);
            proof {
                assert(framed(command@.take(i + 1), self.prepend_write) =~= r@);
            }
        }
        proof {
            assert(command@.take(7) =~= command@);
        }
        r
    }

    fn set_range(&mut self) -> (r: Command)
        ensures
            final(self)@ == (SessionView {
                options: Options {
                    range: clamped_range(old(self)@.options.range),
                    ..old(self)@.options
                },
                ..old(self)@
            }),
            r@ == range_command(clamped_range(old(self)@.options.range)),
            final(self).wf() == old(self).wf(),
    {
        if self.options.range < 40 {
            self.options.range = 40;
        }
        if self.options.range > 900 {
            self.options.range = 900;
        }
        let range1 = (self.options.range % 256) as u8;
        let range2 = (self.options.range / 256) as u8;
        let r: Command = [0xf8, 0x81, range1, range2, 0x00, 0x00, 0x00];
        assert(r@ =~= range_command(self.options.range));
        r
    }

    /// Decides what follows the first read of the wheel, which returned
    /// `data_size` bytes. A full report, or a wheel already calibrated, means
    /// the wheel is in high precision mode: the range and auto-centering are
    /// set and the session listens. Otherwise the calibration commands are
    /// sent, after which the caller waits for the wheel to settle, reopens
    /// it, reads again and calls this once more. In any other phase nothing
    /// happens.
    pub fn initialize(&mut self, data_size: usize) -> (r: Vec<Command>)
        requires
            old(self).wf(),
        ensures
            final(self).wf(),
            (old(self)@.phase == Phase::Uninitialized || old(self)@.phase == Phase::Calibrating) && (
            data_size == FRAME_SIZE || old(self)@.calibrated) ==> final(self)@ == (SessionView {
                phase: Phase::Listening,
                options: Options {
                    range: clamped_range(old(self)@.options.range),
                    ..old(self)@.options
                },
                ..old(self)@
            }) && command_bytes(r@) == seq![
                force_off_command(0xf3),
                range_command(clamped_range(old(self)@.options.range)),
            ] + auto_center_commands(old(self)@.options),
            (old(self)@.phase == Phase::Uninitialized || old(self)@.phase == Phase::Calibrating) && !(
            data_size == FRAME_SIZE || old(self)@.calibrated) ==> final(self)@ == (SessionView {
                phase: Phase::Calibrating,
                calibrated: true,
                ..old(self)@
            }) && command_bytes(r@) == seq![force_off_command(0xf3)] + calibration_commands(),
            old(self)@.phase == Phase::Listening || old(self)@.phase == Phase::Disconnected
                ==> final(self)@ == old(self)@ && r@.len() == 0,
    {
        let mut r: Vec<Command> = Vec::new();
        if self.phase == Phase::Listening || self.phase == Phase::Disconnected {
            return r;
        }
        r.push(force_off(0xf3));
        if data_size == FRAME_SIZE || self.calibrated {
            let range = self.set_range();
            r.push(range);
            let mut centering = auto_center(&self.options);
            r.append(&mut centering);
            self.phase = Phase::Listening;
            assert(command_bytes(r@) =~= seq![
                force_off_command(0xf3),
                range_command(clamped_range(old(self)@.options.range)),
            ] + auto_center_commands(old(self)@.options));
        } else {
            let mut init = calibrate_wheel();
            r.append(&mut init);
            self.calibrated = true;
            self.phase = Phase::Calibrating;
            assert(command_bytes(r@) =~= seq![force_off_command(0xf3)] + calibration_commands());
        }
        r
    }

    /// Processes one read of `size_read` bytes, `new_data`. While listening,
    /// a full report becomes the current one and the handlers to invoke for
    /// the events of the transition are returned, each to be run with the
    /// new report as its snapshot. Short reads, and reads in another phase,
    /// change nothing.
    pub fn receive(&mut self, new_data: &Frame, size_read: usize) -> (r: Vec<EventHandler<H>>)
        requires
            old(self).wf(),
        ensures
            final(self).wf(),
            old(self)@.phase == Phase::Listening && size_read == FRAME_SIZE ==> r@ == old(
                self,
            )@.registry.deliveries(frame_events(old(self)@.data, new_data@)) && final(self)@ == (
            SessionView { data: new_data@, ..old(self)@ }),
            !(old(self)@.phase == Phase::Listening && size_read == FRAME_SIZE) ==> r@.len() == 0
                && final(self)@ == old(self)@,
    {
        if self.phase != Phase::Listening || size_read != FRAME_SIZE {
            return Vec::new();
        }
        let deliveries = self.event_handlers.trigger_events(&self.data, new_data);
        self.data = *new_data;
        deliveries
    }

    /// Sets the auto-center force (0x00 to 0x0f) and the rate at which it
    /// rises as the wheel turns (0x00 to 0xff), and returns the commands
    /// that apply it.
    pub fn set_auto_center_force(&mut self, strength: u8, turning_multiplier: u8) -> (r: Vec<
        Command,
    >)
        ensures
            final(self)@ == (SessionView {
                options: Options { auto_center: [strength, turning_multiplier], ..old(self)@.options },
                ..old(self)@
            }),
            command_bytes(r@) == auto_center_commands(final(self)@.options),
            final(self).wf() == old(self).wf(),
    {
        self.options.auto_center = [strength, turning_multiplier];
        auto_center(&self.options)
    }

    /// The command that lights `leds`.
    pub fn set_leds(&self, leds: Led) -> (r: Command)
        ensures
            r@ == led_command(leds.bits()),
    {
        led_command_for(leds)
    }

    /// The command that sets the friction of the left and right motors
    /// (0x00 to 0x07 each); both zero turns friction off.
    pub fn force_friction(&self, left: u8, right: u8) -> (r: Command)
        requires
            left <= 36,
            right <= 36,
        ensures
            r@ == friction_command(left, right),
    {
        friction(left, right)
    }

    /// The last report processed.
    pub fn snapshot(&self) -> (r: Frame)
        ensures
            r@ == self@.data,
    {
        self.data
    }

    /// The stage of the session.
    pub fn phase(&self) -> (r: Phase)
        ensures
            r == self@.phase,
    {
        self.phase
    }

    /// The settings of the session.
    pub fn options(&self) -> (r: Options)
        ensures
            r == self@.options,
    {
        self.options
    }

    /// Get the throttle value (255 released, 0 fully pressed).
    pub fn throttle(&self) -> (r: u8)
        ensures
            r == self@.data[6],
    {
        state::throttle(&self.data)
    }

    /// Get the brake value (255 released, 0 fully pressed).
    pub fn brake(&self) -> (r: u8)
        ensures
            r == self@.data[7],
    {
        state::brake(&self.data)
    }

    /// Get the steering value (0 full left, 255 full right).
    pub fn steering(&self) -> (r: u8)
        ensures
            r == self@.data[5],
    {
        state::steering(&self.data)
    }

    /// Get the fine steering value.
    pub fn steering_fine(&self) -> (r: u8)
        ensures
            r == self@.data[4],
    {
        state::steering_fine(&self.data)
    }

    /// Get the directional pad position.
    pub fn dpad(&self) -> (r: DpadPosition)
        ensures
            r == dpad_of(self@.data[0]),
    {
        state::dpad(&self.data)
    }

    /// Returns true if the x button is pressed.
    pub fn x_button(&self) -> (r: bool)
        ensures
            r == bits_set(self@.data[0], 16),
    {
        state::x_button(&self.data)
    }

    /// Returns true if the square button is pressed.
    pub fn square_button(&self) -> (r: bool)
        ensures
            r == bits_set(self@.data[0], 32),
    {
        state::square_button(&self.data)
    }

    /// Returns true if the circle button is pressed.
    pub fn circle_button(&self) -> (r: bool)
        ensures
            r == bits_set(self@.data[0], 64),
    {
        state::circle_button(&self.data)
    }

    /// Returns true if the triangle button is pressed.
    pub fn triangle_button(&self) -> (r: bool)
        ensures
            r == bits_set(self@.data[0], 128),
    {
        state::triangle_button(&self.data)
    }

    /// Returns true if the right shifter paddle is pressed.
    pub fn right_shifter(&self) -> (r: bool)
        ensures
            r == bits_set(self@.data[1], 1),
    {
        state::right_shifter(&self.data)
    }

    /// Returns true if the left shifter paddle is pressed.
    pub fn left_shifter(&self) -> (r: bool)
        ensures
            r == bits_set(self@.data[1], 2),
    {
        state::left_shifter(&self.data)
    }

    /// Returns true if the r2 button is pressed.
    pub fn r2_button(&self) -> (r: bool)
        ensures
            r == bits_set(self@.data[1], 4),
    {
        state::r2_button(&self.data)
    }

    /// Returns true if the l2 button is pressed.
    pub fn l2_button(&self) -> (r: bool)
        ensures
            r == bits_set(self@.data[1], 8),
    {
        state::l2_button(&self.data)
    }

    /// Returns true if the share button is pressed.
    pub fn share_button(&self) -> (r: bool)
        ensures
            r == bits_set(self@.data[1], 16),
    {
        state::share_button(&self.data)
    }

    /// Returns true if the options button is pressed.
    pub fn option_button(&self) -> (r: bool)
        ensures
            r == bits_set(self@.data[1], 32),
    {
        state::options_button(&self.data)
    }

    /// Returns true if the r3 button is pressed.
    pub fn r3_button(&self) -> (r: bool)
        ensures
            r == bits_set(self@.data[1], 64),
    {
        state::r3_button(&self.data)
    }

    /// Returns true if the l3 button is pressed.
    pub fn l3_button(&self) -> (r: bool)
        ensures
            r == bits_set(self@.data[1], 128),
    {
        state::l3_button(&self.data)
    }

    /// Get the gear selector position.
    pub fn gear_selector(&self) -> (r: GearSelector)
        ensures
            r == gear_of(self@.data[2]),
    {
        state::gear_selector(&self.data)
    }

    /// Returns true if the plus button is pressed.
    pub fn plus_button(&self) -> (r: bool)
        ensures
            r == bits_set(self@.data[2], 128),
    {
        state::plus_button(&self.data)
    }

    /// Returns true if the minus button is pressed.
    pub fn minus_button(&self) -> (r: bool)
        ensures
            r == bits_set(self@.data[3], 1),
    {
        state::minus_button(&self.data)
    }

    /// Returns true if the spinner is rotating clockwise.
    pub fn spinner_right(&self) -> (r: bool)
        ensures
            r == bits_set(self@.data[3], 2),
    {
        state::spinner_right(&self.data)
    }

    /// Returns true if the spinner is rotating counter-clockwise.
    pub fn spinner_left(&self) -> (r: bool)
        ensures
            r == bits_set(self@.data[3], 4),
    {
        state::spinner_left(&self.data)
    }

    /// Returns true if the spinner button is pressed.
    pub fn spinner_button(&self) -> (r: bool)
        ensures
            r == bits_set(self@.data[3], 8),
    {
        state::spinner_button(&self.data)
    }

    /// Returns true if the playstation button is pressed.
    pub fn playstation_button(&self) -> (r: bool)
        ensures
            r == bits_set(self@.data[3], 16),
    {
        state::playstation_button(&self.data)
    }

    /// Get the clutch value (255 released, 0 fully pressed).
    pub fn clutch(&self) -> (r: u8)
        ensures
            r == self@.data[8],
    {
        state::clutch(&self.data)
    }

    /// Get the shifter x axis.
    pub fn shifter_x(&self) -> (r: u8)
        ensures
            r == self@.data[9],
    {
        state::shifter_x(&self.data)
    }

    /// Get the shifter y axis.
    pub fn shifter_y(&self) -> (r: u8)
        ensures
            r == self@.data[10],
    {
        state::shifter_y(&self.data)
    }

    /// Returns true if the shifter is pressed down into the unit.
    pub fn shifter_pressed(&self) -> (r: bool)
        ensures
            r == (self@.data[11] == 1),
    {
        state::shifter_pressed(&self.data)
    }

    /// Ends the session: returns the commands that turn effects and LEDs off
    /// and auto-centering down, and stops processing reports. A session
    /// already disconnected is left as it is.
    pub fn disconnect(&mut self) -> (r: Vec<Command>)
        ensures
            old(self)@.phase != Phase::Disconnected ==> final(self)@ == (SessionView {
                phase: Phase::Disconnected,
                options: Options { auto_center: [0u8, 0u8], ..old(self)@.options },
                ..old(self)@
            }) && command_bytes(r@) == seq![
                force_off_command(0xf3),
                led_command(0),
                force_off_command(2),
            ] + auto_center_commands(
                Options { auto_center: [0u8, 0u8], ..old(self)@.options },
            ),
            old(self)@.phase == Phase::Disconnected ==> final(self)@ == old(self)@ && r@.len()
                == 0,
            final(self).wf() == old(self).wf(),
    {
        let mut r: Vec<Command> = Vec::new();
        if !self.connected() {
            return r;
        }
        r.push(force_off(0xf3));
        r.push(self.set_leds(Led::Off));
        r.push(self.force_friction(0, 0));
        self.options.auto_center = [0x00, 0x00];
        let mut centering = auto_center(&self.options);
        r.append(&mut centering);
        self.phase = Phase::Disconnected;
        assert(command_bytes(r@) =~= seq![
            force_off_command(0xf3),
            led_command(0),
            force_off_command(2),
        ] + auto_center_commands(self.options));
        r
    }

    /// Whether the session has not been disconnected.
    pub fn connected(&self) -> (r: bool)
        ensures
            r == (self@.phase != Phase::Disconnected),
    {
        self.phase != Phase::Disconnected
    }

    /// Registers `handler` for `event`; the returned entry is the handle that
    /// unregisters it.
    pub fn register_event_handler(&mut self, event: Event, handler: H) -> (r: Option<
        EventHandler<H>,
    >)
        requires
            old(self).wf(),
        ensures
            final(self).wf(),
            final(self)@ == (SessionView { registry: final(self)@.registry, ..old(self)@ }),
            old(self)@.registry.inserted(final(self)@.registry, event, handler, r),
    {
        self.event_handlers.insert(event, handler)
    }

    /// Unregisters the handler whose handle is `event_handler`; a handle
    /// that is not registered changes nothing.
    pub fn unregister_event_handler(&mut self, event_handler: EventHandler<H>)
        requires
            old(self).wf(),
        ensures
            final(self).wf(),
            final(self)@ == (SessionView { registry: final(self)@.registry, ..old(self)@ }),
            old(self)@.registry.removed(final(self)@.registry, event_handler),
    {
        self.event_handlers.remove(event_handler)
    }
}

/// While listening, a full report whose throttle byte differs from the
/// current one makes `receive` hand out every handler registered for
/// `Throttle` exactly once; the session then holds that report, so the
/// snapshot shows the new throttle.
pub proof fn lemma_throttle_handlers_fire_once<H: Copy>(
    session: G29<H>,
    new_data: Frame,
    event_handler: EventHandler<H>,
)
    requires
        session.wf(),
        session@.data[6] != new_data@[6],
        session@.registry.registered(Event::Throttle).contains(event_handler),
        event_handler.event == Event::Throttle,
    ensures
        occurrences(
            session@.registry.deliveries(frame_events(session@.data, new_data@)),
            event_handler,
        ) == 1,
{
    lemma_throttle_event_once(session@.data, new_data@);
    lemma_delivered_once_per_event(
        session@.registry,
        event_handler,
        frame_events(session@.data, new_data@),
    );
}

} // verus!
