//! Events, the classification of a report transition into events, and the
//! registry of handlers that are fired for them.

use vstd::prelude::*;

use crate::state::{decode, decoded, DecodedState};
use crate::{DpadPosition, Frame};

verus! {

/// A discrete transition of one control between two consecutive reports.
#[derive(Debug, PartialEq, Eq, Structural, Clone, Copy, Hash)]
pub enum Event {
    /// Steering wheel is turned
    Steering,
    /// Steering wheel is turned finely
    SteeringFine,
    /// Throttle changed
    Throttle,
    /// Brake changed
    Brake,
    /// Clutch changed
    Clutch,
    DpadUpPressed,
    DpadUpReleased,
    DpadTopRightPressed,
    DpadTopRightReleased,
    DpadRightPressed,
    DpadRightReleased,
    DpadBottomRightPressed,
    DpadBottomRightReleased,
    DpadBottomPressed,
    DpadBottomReleased,
    DpadBottomLeftPressed,
    DpadBottomLeftReleased,
    DpadLeftPressed,
    DpadLeftReleased,
    DpadTopLeftPressed,
    DpadTopLeftReleased,
    XButtonPressed,
    XButtonReleased,
    SquareButtonPressed,
    SquareButtonReleased,
    CircleButtonPressed,
    CircleButtonReleased,
    TriangleButtonPressed,
    TriangleButtonReleased,
    RightShifterPressed,
    RightShifterReleased,
    LeftShifterPressed,
    LeftShifterReleased,
    R2ButtonPressed,
    R2ButtonReleased,
    L2ButtonPressed,
    L2ButtonReleased,
    ShareButtonPressed,
    ShareButtonReleased,
    OptionsButtonPressed,
    OptionsButtonReleased,
    R3ButtonPressed,
    R3ButtonReleased,
    L3ButtonPressed,
    L3ButtonReleased,
    PlusButtonPressed,
    PlusButtonReleased,
    MinusButtonPressed,
    MinusButtonReleased,
    /// Spinner started rotating clockwise
    SpinnerRight,
    /// Spinner started rotating counter-clockwise
    SpinnerLeft,
    SpinnerButtonPressed,
    SpinnerButtonReleased,
    PlaystationButtonPressed,
    PlaystationButtonReleased,
    /// Shifter X axis changed
    ShifterX,
    /// Shifter Y axis changed
    ShifterY,
    ShifterPressed,
    ShifterReleased,
    /// Gear selector changed
    GearChanged,
}

/// `s` followed by the event of a two-state control: `pressed` on a rising
/// edge, `released` on a falling edge, nothing when it keeps its state.
#[verifier::opaque]
pub open spec fn with_edge(s: Seq<Event>, was: bool, is: bool, pressed: Event, released: Event) -> Seq<
    Event,
> {
    if was == is {
        s
    } else if is {
        s.push(pressed)
    } else {
        s.push(released)
    }
}

/// `s` followed by the event of a momentary control: `event` only when it
/// becomes active.
#[verifier::opaque]
pub open spec fn with_onset(s: Seq<Event>, was: bool, is: bool, event: Event) -> Seq<Event> {
    if !was && is {
        s.push(event)
    } else {
        s
    }
}

/// `s` followed by the event of a scalar control: `event` whenever its value
/// changed.
#[verifier::opaque]
pub open spec fn with_change(s: Seq<Event>, changed: bool, event: Event) -> Seq<Event> {
    if changed {
        s.push(event)
    } else {
        s
    }
}

/// The event for entering a directional pad position (none for the centre).
pub open spec fn dpad_pressed(p: DpadPosition) -> Seq<Event> {
    match p {
        DpadPosition::Up => seq![Event::DpadUpPressed],
        DpadPosition::TopRight => seq![Event::DpadTopRightPressed],
        DpadPosition::Right => seq![Event::DpadRightPressed],
        DpadPosition::BottomRight => seq![Event::DpadBottomRightPressed],
        DpadPosition::Down => seq![Event::DpadBottomPressed],
        DpadPosition::BottomLeft => seq![Event::DpadBottomLeftPressed],
        DpadPosition::Left => seq![Event::DpadLeftPressed],
        DpadPosition::TopLeft => seq![Event::DpadTopLeftPressed],
        DpadPosition::Center => seq![],
    }
}

/// The event for leaving a directional pad position (none for the centre).
pub open spec fn dpad_released(p: DpadPosition) -> Seq<Event> {
    match p {
        DpadPosition::Up => seq![Event::DpadUpReleased],
        DpadPosition::TopRight => seq![Event::DpadTopRightReleased],
        DpadPosition::Right => seq![Event::DpadRightReleased],
        DpadPosition::BottomRight => seq![Event::DpadBottomRightReleased],
        DpadPosition::Down => seq![Event::DpadBottomReleased],
        DpadPosition::BottomLeft => seq![Event::DpadBottomLeftReleased],
        DpadPosition::Left => seq![Event::DpadLeftReleased],
        DpadPosition::TopLeft => seq![Event::DpadTopLeftReleased],
        DpadPosition::Center => seq![],
    }
}

/// `s` followed by the events of the directional pad: on a change of
/// position, the new position is pressed, then the old one released.
pub open spec fn with_dpad_events(s: Seq<Event>, was: DpadPosition, is: DpadPosition) -> Seq<
    Event,
> {
    if was == is {
        s
    } else {
        s + dpad_pressed(is) + dpad_released(was)
    }
}

/// `s` followed by the events of byte 0: the directional pad, then the X, square, circle and triangle
/// buttons.
pub open spec fn with_byte0_events(s: Seq<Event>, a: DecodedState, b: DecodedState) -> Seq<Event> {
    let s = with_dpad_events(s, a.dpad, b.dpad);
    let s = with_edge(s, a.x_button, b.x_button, Event::XButtonPressed, Event::XButtonReleased);
    let s = with_edge(
        s,
        a.square_button,
        b.square_button,
        Event::SquareButtonPressed,
        Event::SquareButtonReleased,
    );
    let s = with_edge(
        s,
        a.circle_button,
        b.circle_button,
        Event::CircleButtonPressed,
        Event::CircleButtonReleased,
    );
    let s = with_edge(
        s,
        a.triangle_button,
        b.triangle_button,
        Event::TriangleButtonPressed,
        Event::TriangleButtonReleased,
    );
    s
}

/// `s` followed by the events of the low nibble of byte 1: the shifter
/// paddles, then the R2 and L2 buttons.
pub open spec fn with_byte1_low_events(s: Seq<Event>, a: DecodedState, b: DecodedState) -> Seq<Event> {
    let s = with_edge(
        s,
        a.right_shifter,
        b.right_shifter,
        Event::RightShifterPressed,
        Event::RightShifterReleased,
    );
    let s = with_edge(
        s,
        a.left_shifter,
        b.left_shifter,
        Event::LeftShifterPressed,
        Event::LeftShifterReleased,
    );
    let s = with_edge(s, a.r2_button, b.r2_button, Event::R2ButtonPressed, Event::R2ButtonReleased);
    let s = with_edge(s, a.l2_button, b.l2_button, Event::L2ButtonPressed, Event::L2ButtonReleased);
    s
}

/// `s` followed by the events of the high nibble of byte 1: the share,
/// options, R3 and L3 buttons.
pub open spec fn with_byte1_high_events(s: Seq<Event>, a: DecodedState, b: DecodedState) -> Seq<Event> {
    let s = with_edge(
        s,
        a.share_button,
        b.share_button,
        Event::ShareButtonPressed,
        Event::ShareButtonReleased,
    );
    let s = with_edge(
        s,
        a.options_button,
        b.options_button,
        Event::OptionsButtonPressed,
        Event::OptionsButtonReleased,
    );
    let s = with_edge(s, a.r3_button, b.r3_button, Event::R3ButtonPressed, Event::R3ButtonReleased);
    let s = with_edge(s, a.l3_button, b.l3_button, Event::L3ButtonPressed, Event::L3ButtonReleased);
    s
}

/// `s` followed by the events of byte 1, low nibble first.
pub open spec fn with_byte1_events(s: Seq<Event>, a: DecodedState, b: DecodedState) -> Seq<Event> {
    with_byte1_high_events(with_byte1_low_events(s, a, b), a, b)
}

/// `s` followed by the events of byte 2: the gear, then the plus button.
pub open spec fn with_byte2_events(s: Seq<Event>, a: DecodedState, b: DecodedState) -> Seq<Event> {
    let s = with_change(s, a.gear != b.gear, Event::GearChanged);
    let s = with_edge(
        s,
        a.plus_button,
        b.plus_button,
        Event::PlusButtonPressed,
        Event::PlusButtonReleased,
    );
    s
}

/// `s` followed by the events of byte 3: the minus button, the spinner directions, the spinner
/// button and the PlayStation button.
pub open spec fn with_byte3_events(s: Seq<Event>, a: DecodedState, b: DecodedState) -> Seq<Event> {
    let s = with_edge(
        s,
        a.minus_button,
        b.minus_button,
        Event::MinusButtonPressed,
        Event::MinusButtonReleased,
    );
    let s = with_onset(s, a.spinner_right, b.spinner_right, Event::SpinnerRight);
    let s = with_onset(s, a.spinner_left, b.spinner_left, Event::SpinnerLeft);
    let s = with_edge(
        s,
        a.spinner_button,
        b.spinner_button,
        Event::SpinnerButtonPressed,
        Event::SpinnerButtonReleased,
    );
    let s = with_edge(
        s,
        a.playstation_button,
        b.playstation_button,
        Event::PlaystationButtonPressed,
        Event::PlaystationButtonReleased,
    );
    s
}

/// `s` followed by the events of the controls that byte `i` of the report
/// carries, given the snapshots `a` before and `b` after.
pub open spec fn with_position_events(s: Seq<Event>, i: int, a: DecodedState, b: DecodedState) -> Seq<
    Event,
> {
    if i == 0 {
        with_byte0_events(s, a, b)
    } else if i == 1 {
        with_byte1_events(s, a, b)
    } else if i == 2 {
        with_byte2_events(s, a, b)
    } else if i == 3 {
        with_byte3_events(s, a, b)
    } else if i == 4 {
        with_change(s, a.steering_fine != b.steering_fine, Event::SteeringFine)
    } else if i == 5 {
        with_change(s, a.steering != b.steering, Event::Steering)
    } else if i == 6 {
        with_change(s, a.throttle != b.throttle, Event::Throttle)
    } else if i == 7 {
        with_change(s, a.brake != b.brake, Event::Brake)
    } else if i == 8 {
        with_change(s, a.clutch != b.clutch, Event::Clutch)
    } else if i == 9 {
        with_change(s, a.shifter_x != b.shifter_x, Event::ShifterX)
    } else if i == 10 {
        with_change(s, a.shifter_y != b.shifter_y, Event::ShifterY)
    } else if i == 11 {
        with_edge(
            s,
            a.shifter_pressed,
            b.shifter_pressed,
            Event::ShifterPressed,
            Event::ShifterReleased,
        )
    } else {
        s
    }
}

/// The positions below `n` at which two reports differ, in increasing order.
pub open spec fn changed_below(prev: Seq<u8>, next: Seq<u8>, n: int) -> Seq<usize>
    decreases n,
{
    if n <= 0 {
        seq![]
    } else if prev[n - 1] != next[n - 1] {
        changed_below(prev, next, n - 1).push((n - 1) as usize)
    } else {
        changed_below(prev, next, n - 1)
    }
}

/// The positions at which two reports differ, in increasing order.
pub open spec fn changed_positions(prev: Seq<u8>, next: Seq<u8>) -> Seq<usize> {
    changed_below(prev, next, 12)
}

/// The events of the given byte positions, taken in order.
pub open spec fn events_at(ps: Seq<usize>, a: DecodedState, b: DecodedState) -> Seq<Event>
    decreases ps.len(),
{
    if ps.len() == 0 {
        seq![]
    } else {
        with_position_events(events_at(ps.drop_last(), a, b), ps.last() as int, a, b)
    }
}

/// The events implied by the transition from report `prev` to report `next`:
/// those of each changed byte position, by increasing position.
pub open spec fn frame_events(prev: Seq<u8>, next: Seq<u8>) -> Seq<Event> {
    events_at(changed_positions(prev, next), decoded(prev), decoded(next))
}

proof fn lemma_changed_below(prev: Seq<u8>, next: Seq<u8>, n: int)
    requires
        0 <= n <= 12,
        n <= prev.len(),
        n <= next.len(),
    ensures
        forall|i: usize| #[trigger]
            changed_below(prev, next, n).contains(i) <==> (i < n && prev[i as int] != next[i as int]),
        forall|k: int, l: int|
            0 <= k < l < changed_below(prev, next, n).len() ==> #[trigger] changed_below(
                prev,
                next,
                n,
            )[k] < #[trigger] changed_below(prev, next, n)[l],
        forall|k: int|
            0 <= k < changed_below(prev, next, n).len() ==> #[trigger] changed_below(prev, next, n)[k]
                < n,
    decreases n,
{
    if n > 0 {
        lemma_changed_below(prev, next, n - 1);
        let s = changed_below(prev, next, n - 1);
        let t = changed_below(prev, next, n);
        assert forall|i: usize| #[trigger]
            t.contains(i) <==> (i < n && prev[i as int] != next[i as int]) by {
            if t.contains(i) {
                let k = choose|k: int| 0 <= k < t.len() && t[k] == i;
                if k < s.len() {
                    assert(s[k] == i);
                    assert(s.contains(i));
                }
            }
            if i < n && prev[i as int] != next[i as int] {
                if i == n - 1 {
                    assert(t[s.len() as int] == i);
                } else {
                    assert(s.contains(i));
                    let k = choose|k: int| 0 <= k < s.len() && s[k] == i;
                    assert(t[k] == i);
                }
            }
        }
    }
}

proof fn lemma_changed_below_identical(s: Seq<u8>, n: int)
    ensures
        changed_below(s, s, n) == Seq::<usize>::empty(),
    decreases n,
{
    if n > 0 {
        lemma_changed_below_identical(s, n - 1);
    }
}

proof fn lemma_changed_below_symmetric(p: Seq<u8>, q: Seq<u8>, n: int)
    ensures
        changed_below(p, q, n) == changed_below(q, p, n),
    decreases n,
{
    if n > 0 {
        lemma_changed_below_symmetric(p, q, n - 1);
    }
}

/// A report compared with itself has no changed position, and so implies no
/// event.
pub proof fn lemma_diff_identical(f: Frame)
    ensures
        changed_positions(f@, f@) == Seq::<usize>::empty(),
        frame_events(f@, f@) == Seq::<Event>::empty(),
{
    lemma_changed_below_identical(f@, 12);
}

/// The changed positions of two reports do not depend on their order.
pub proof fn lemma_diff_symmetric(f1: Frame, f2: Frame)
    ensures
        changed_positions(f1@, f2@) == changed_positions(f2@, f1@),
{
    lemma_changed_below_symmetric(f1@, f2@, 12);
}

/// The positions, in increasing order, at which two reports differ.
pub fn diff_positions(prev: [u8; 12], current: [u8; 12]) -> (r: Vec<usize>)
    ensures
        r@ == changed_positions(prev@, current@),
        forall|i: usize| #[trigger] r@.contains(i) <==> (i < 12 && prev@[i as int] != current@[i as int]),
        forall|k: int, l: int| 0 <= k < l < r@.len() ==> #[trigger] r@[k] < #[trigger] r@[l],
        forall|k: int| 0 <= k < r@.len() ==> #[trigger] r@[k] < 12,
{
    let mut diff: Vec<usize> = Vec::new();
    for i in 0..12
        invariant
            diff@ == changed_below(prev@, current@, i as int),
    {
        if prev[i] != current[i] {
            diff.push(i);
        }
    }
    proof {
        lemma_changed_below(prev@, current@, 12);
    }
    diff
}

/// The positions, in increasing order, at which two reports differ.
pub fn different_indices(data1: &Frame, data2: &Frame) -> (r: Vec<usize>)
    ensures
        r@ == changed_positions(data1@, data2@),
        forall|i: usize| #[trigger] r@.contains(i) <==> (i < 12 && data1@[i as int] != data2@[i as int]),
        forall|k: int, l: int| 0 <= k < l < r@.len() ==> #[trigger] r@[k] < #[trigger] r@[l],
        forall|k: int| 0 <= k < r@.len() ==> #[trigger] r@[k] < 12,
{
    diff_positions(*data1, *data2)
}

fn push_edge(out: &mut Vec<Event>, was: bool, is: bool, pressed: Event, released: Event)
    ensures
        final(out)@ == with_edge(old(out)@, was, is, pressed, released),
{
    reveal(with_edge);
    if was != is {
        if is {
            out.push(pressed);
        } else {
            out.push(released);
        }
    }
}

fn push_onset(out: &mut Vec<Event>, was: bool, is: bool, event: Event)
    ensures
        final(out)@ == with_onset(old(out)@, was, is, event),
{
    reveal(with_onset);
    if !was && is {
        out.push(event);
    }
}

fn push_change(out: &mut Vec<Event>, changed: bool, event: Event)
    ensures
        final(out)@ == with_change(old(out)@, changed, event),
{
    reveal(with_change);
    if changed {
        out.push(event);
    }
}

fn push_dpad_pressed(out: &mut Vec<Event>, p: DpadPosition)
    ensures
        final(out)@ == old(out)@ + dpad_pressed(p),
{
    match p {
        DpadPosition::Up => out.push(Event::DpadUpPressed),
        DpadPosition::TopRight => out.push(Event::DpadTopRightPressed),
        DpadPosition::Right => out.push(Event::DpadRightPressed),
        DpadPosition::BottomRight => out.push(Event::DpadBottomRightPressed),
        DpadPosition::Down => out.push(Event::DpadBottomPressed),
        DpadPosition::BottomLeft => out.push(Event::DpadBottomLeftPressed),
        DpadPosition::Left => out.push(Event::DpadLeftPressed),
        DpadPosition::TopLeft => out.push(Event::DpadTopLeftPressed),
        DpadPosition::Center => {},
    }
    assert(final(out)@ =~= old(out)@ + dpad_pressed(p));
}

fn push_dpad_released(out: &mut Vec<Event>, p: DpadPosition)
    ensures
        final(out)@ == old(out)@ + dpad_released(p),
{
    match p {
        DpadPosition::Up => out.push(Event::DpadUpReleased),
        DpadPosition::TopRight => out.push(Event::DpadTopRightReleased),
        DpadPosition::Right => out.push(Event::DpadRightReleased),
        DpadPosition::BottomRight => out.push(Event::DpadBottomRightReleased),
        DpadPosition::Down => out.push(Event::DpadBottomReleased),
        DpadPosition::BottomLeft => out.push(Event::DpadBottomLeftReleased),
        DpadPosition::Left => out.push(Event::DpadLeftReleased),
        DpadPosition::TopLeft => out.push(Event::DpadTopLeftReleased),
        DpadPosition::Center => {},
    }
    assert(final(out)@ =~= old(out)@ + dpad_released(p));
}

fn collect_dpad_events(a: &DecodedState, b: &DecodedState, out: &mut Vec<Event>)
    ensures
        final(out)@ == with_dpad_events(old(out)@, a.dpad, b.dpad),
{
    if a.dpad != b.dpad {
        push_dpad_pressed(out, b.dpad);
        push_dpad_released(out, a.dpad);
    }
}

fn collect_byte0_events(a: &DecodedState, b: &DecodedState, out: &mut Vec<Event>)
    ensures
        final(out)@ == with_byte0_events(old(out)@, *a, *b),
{
    collect_dpad_events(a, b, out);
    push_edge(out, a.x_button, b.x_button, Event::XButtonPressed, Event::XButtonReleased);
    push_edge(
        out,
        a.square_button,
        b.square_button,
        Event::SquareButtonPressed,
        Event::SquareButtonReleased,
    );
    push_edge(
        out,
        a.circle_button,
        b.circle_button,
        Event::CircleButtonPressed,
        Event::CircleButtonReleased,
    );
    push_edge(
        out,
        a.triangle_button,
        b.triangle_button,
        Event::TriangleButtonPressed,
        Event::TriangleButtonReleased,
    );
}

fn collect_byte1_low_events(a: &DecodedState, b: &DecodedState, out: &mut Vec<Event>)
    ensures
        final(out)@ == with_byte1_low_events(old(out)@, *a, *b),
{
    push_edge(
        out,
        a.right_shifter,
        b.right_shifter,
        Event::RightShifterPressed,
        Event::RightShifterReleased,
    );
    push_edge(
        out,
        a.left_shifter,
        b.left_shifter,
        Event::LeftShifterPressed,
        Event::LeftShifterReleased,
    );
    push_edge(out, a.r2_button, b.r2_button, Event::R2ButtonPressed, Event::R2ButtonReleased);
    push_edge(out, a.l2_button, b.l2_button, Event::L2ButtonPressed, Event::L2ButtonReleased);
}

fn collect_byte1_high_events(a: &DecodedState, b: &DecodedState, out: &mut Vec<Event>)
    ensures
        final(out)@ == with_byte1_high_events(old(out)@, *a, *b),
{
    push_edge(
        out,
        a.share_button,
        b.share_button,
        Event::ShareButtonPressed,
        Event::ShareButtonReleased,
    );
    push_edge(
        out,
        a.options_button,
        b.options_button,
        Event::OptionsButtonPressed,
        Event::OptionsButtonReleased,
    );
    push_edge(out, a.r3_button, b.r3_button, Event::R3ButtonPressed, Event::R3ButtonReleased);
    push_edge(out, a.l3_button, b.l3_button, Event::L3ButtonPressed, Event::L3ButtonReleased);
}

fn collect_byte1_events(a: &DecodedState, b: &DecodedState, out: &mut Vec<Event>)
    ensures
        final(out)@ == with_byte1_events(old(out)@, *a, *b),
{
    collect_byte1_low_events(a, b, out);
    collect_byte1_high_events(a, b, out);
}

fn collect_byte2_events(a: &DecodedState, b: &DecodedState, out: &mut Vec<Event>)
    ensures
        final(out)@ == with_byte2_events(old(out)@, *a, *b),
{
    push_change(out, a.gear != b.gear, Event::GearChanged);
    push_edge(
        out,
        a.plus_button,
        b.plus_button,
        Event::PlusButtonPressed,
        Event::PlusButtonReleased,
    );
}

fn collect_byte3_events(a: &DecodedState, b: &DecodedState, out: &mut Vec<Event>)
    ensures
        final(out)@ == with_byte3_events(old(out)@, *a, *b),
{
    push_edge(
        out,
        a.minus_button,
        b.minus_button,
        Event::MinusButtonPressed,
        Event::MinusButtonReleased,
    );
    push_onset(out, a.spinner_right, b.spinner_right, Event::SpinnerRight);
    push_onset(out, a.spinner_left, b.spinner_left, Event::SpinnerLeft);
    push_edge(
        out,
        a.spinner_button,
        b.spinner_button,
        Event::SpinnerButtonPressed,
        Event::SpinnerButtonReleased,
    );
    push_edge(
        out,
        a.playstation_button,
        b.playstation_button,
        Event::PlaystationButtonPressed,
        Event::PlaystationButtonReleased,
    );
}

/// Appends the events of byte position `i` to `out`.
fn collect_position_events(i: usize, a: &DecodedState, b: &DecodedState, out: &mut Vec<Event>)
    requires
        i < 12,
    ensures
        final(out)@ == with_position_events(old(out)@, i as int, *a, *b),
{
    match i {
        0 => collect_byte0_events(a, b, out),
        1 => collect_byte1_events(a, b, out),
        2 => collect_byte2_events(a, b, out),
        3 => collect_byte3_events(a, b, out),
        4 => push_change(out, a.steering_fine != b.steering_fine, Event::SteeringFine),
        5 => push_change(out, a.steering != b.steering, Event::Steering),
        6 => push_change(out, a.throttle != b.throttle, Event::Throttle),
        7 => push_change(out, a.brake != b.brake, Event::Brake),
        8 => push_change(out, a.clutch != b.clutch, Event::Clutch),
        9 => push_change(out, a.shifter_x != b.shifter_x, Event::ShifterX),
        10 => push_change(out, a.shifter_y != b.shifter_y, Event::ShifterY),
        _ => push_edge(
            out,
            a.shifter_pressed,
            b.shifter_pressed,
            Event::ShifterPressed,
            Event::ShifterReleased,
        ),
    }
}

/// The events implied by the transition from report `prev` to report
/// `next`, ordered by byte position and then by control.
pub fn classify_events(prev: &Frame, next: &Frame) -> (r: Vec<Event>)
    ensures
        r@ == frame_events(prev@, next@),
{
    let positions = different_indices(prev, next);
    let mut out: Vec<Event> = Vec::new();
    if positions.len() == 0 {
        return out;
    }
    let a = decode(prev);
    let b = decode(next);
    for k in 0..positions.len()
        invariant
            positions@ == changed_positions(prev@, next@),
            forall|j: int| 0 <= j < positions@.len() ==> #[trigger] positions@[j] < 12,
            a == decoded(prev@),
            b == decoded(next@),
            out@ == events_at(positions@.take(k as int), a, b),
    {
        proof {
            assert(positions@.take(k + 1).drop_last() =~= positions@.take(k as int));
        }
        collect_position_events(positions[k], &a, &b, &mut out);
    }
    proof {
        assert(positions@.take(positions@.len() as int) =~= positions@);
    }
    out
}

/// A registered handler: its id, unique among the handlers of its event, the
/// event it is registered for, and the handler itself.
#[derive(Debug, Clone, Copy)]
pub struct EventHandler<H> {
    pub id: usize,
    pub event: Event,
    pub handler: H,
}

/// `s` without the entries whose id is `id`, order kept.
pub open spec fn without_id<H>(s: Seq<EventHandler<H>>, id: usize) -> Seq<EventHandler<H>>
    decreases s.len(),
{
    if s.len() == 0 {
        s
    } else if s.last().id == id {
        without_id(s.drop_last(), id)
    } else {
        without_id(s.drop_last(), id).push(s.last())
    }
}

/// The handlers registered for one event, in order of registration.
#[derive(Debug)]
pub struct EventHandlers<H> {
    pub event: Event,
    pub next_id: usize,
    pub handlers: Vec<EventHandler<H>>,
}

impl<H: Copy> EventHandlers<H> {
    /// Every entry belongs to this event, has an id below `next_id`, and the
    /// ids increase along the list (so they are unique).
    pub open spec fn wf(&self) -> bool {
        &&& forall|i: int|
            0 <= i < self.handlers@.len() ==> (#[trigger] self.handlers@[i]).event == self.event
                && self.handlers@[i].id < self.next_id
        &&& forall|i: int, j: int|
            0 <= i < j < self.handlers@.len() ==> (#[trigger] self.handlers@[i]).id
                < (#[trigger] self.handlers@[j]).id
    }

    pub fn new(event: Event) -> (r: EventHandlers<H>)
        ensures
            r.event == event,
            r.next_id == 0,
            r.handlers@ == Seq::<EventHandler<H>>::empty(),
            r.wf(),
    {
        EventHandlers { event, next_id: 0, handlers: Vec::new() }
    }

    /// Registers `handler` under the next free id; `None` once every id has
    /// been handed out.
    pub fn insert(&mut self, handler: H) -> (r: Option<EventHandler<H>>)
        ensures
            final(self).event == old(self).event,
            old(self).next_id == usize::MAX ==> r is None && final(self).next_id == old(
                self,
            ).next_id && final(self).handlers@ == old(self).handlers@,
            old(self).next_id < usize::MAX ==> r == Some(
                (EventHandler { id: old(self).next_id, event: old(self).event, handler }),
            ) && final(self).next_id == old(self).next_id + 1 && final(self).handlers@ == old(
                self,
            ).handlers@.push((EventHandler { id: old(self).next_id, event: old(self).event, handler })),
            old(self).wf() ==> final(self).wf(),
    {
        if self.next_id == usize::MAX {
            return None;
        }
        let id = self.next_id;
        self.next_id = id + 1;
        let event_handler = EventHandler { id, event: self.event, handler };
        self.handlers.push(event_handler);
        Some(event_handler)
    }

    /// Removes the entry with id `id`, if there is one.
    pub fn remove(&mut self, id: usize)
        ensures
            final(self).event == old(self).event,
            final(self).next_id == old(self).next_id,
            final(self).handlers@ == without_id(old(self).handlers@, id),
            old(self).wf() ==> final(self).wf(),
    {
        let ghost s = self.handlers@;
        let mut kept: Vec<EventHandler<H>> = Vec::new();
        for i in 0..self.handlers.len()
            invariant
                self.handlers@ == s,
                kept@ == without_id(s.take(i as int), id),
                old(self).wf() ==> forall|m: int|
                    0 <= m < kept@.len() ==> (#[trigger] kept@[m]).event == self.event
                        && kept@[m].id < self.next_id,
                old(self).wf() ==> forall|m: int, l: int|
                    0 <= m < l < kept@.len() ==> (#[trigger] kept@[m]).id < (#[trigger] kept@[l]).id,
                old(self).wf() && i < s.len() ==> forall|m: int|
                    0 <= m < kept@.len() ==> (#[trigger] kept@[m]).id < s[i as int].id,
                *old(self) == *self,
        {
            proof {
                assert(s.take(i + 1).drop_last() =~= s.take(i as int));
            }
            let entry = self.handlers[i];
            if entry.id != id {
                kept.push(entry);
            }
        }
        proof {
            assert(s.take(s.len() as int) =~= s);
        }
        self.handlers = kept;
    }
}

/// For each event, the handlers registered for it.
#[derive(Debug)]
pub struct EventMap<H> {
    handlers: Vec<EventHandlers<H>>,
}

impl<H: Copy> EventMap<H> {
    /// Each table entry is well formed, and no two entries are for the same
    /// event.
    pub closed spec fn wf(&self) -> bool {
        &&& forall|j: int| 0 <= j < self.handlers@.len() ==> (#[trigger] self.handlers@[j]).wf()
        &&& forall|i: int, j: int|
            0 <= i < j < self.handlers@.len() ==> (#[trigger] self.handlers@[i]).event != (
            #[trigger] self.handlers@[j]).event
    }

    closed spec fn slot_of(&self, e: Event) -> int {
        if exists|j: int| 0 <= j < self.handlers@.len() && (#[trigger] self.handlers@[j]).event == e {
            choose|j: int| 0 <= j < self.handlers@.len() && (#[trigger] self.handlers@[j]).event == e
        } else {
            -1
        }
    }

    /// The handlers registered for `e`, in order of registration.
    pub closed spec fn registered(&self, e: Event) -> Seq<EventHandler<H>> {
        let j = self.slot_of(e);
        if 0 <= j < self.handlers@.len() {
            self.handlers@[j].handlers@
        } else {
            Seq::empty()
        }
    }

    /// The id that the next handler registered for `e` receives.
    pub closed spec fn next_id(&self, e: Event) -> usize {
        let j = self.slot_of(e);
        if 0 <= j < self.handlers@.len() {
            self.handlers@[j].next_id
        } else {
            0
        }
    }

    /// The handlers to invoke for a sequence of events: for each event in
    /// turn, every handler registered for it.
    pub open spec fn deliveries(&self, events: Seq<Event>) -> Seq<EventHandler<H>>
        decreases events.len(),
    {
        if events.len() == 0 {
            Seq::empty()
        } else {
            self.deliveries(events.drop_last()) + self.registered(events.last())
        }
    }

    /// `after` is this table once `handler` has been registered for `event`
    /// with outcome `r`: the handler gets the next id of that event and is
    /// appended to its list, or, when that event has handed out every id,
    /// `r` is `None` and nothing changes. Other events are untouched.
    pub open spec fn inserted(self, after: Self, event: Event, handler: H, r: Option<EventHandler<H>>) -> bool {
        &&& self.next_id(event) == usize::MAX ==> r is None && after.registered(event)
            == self.registered(event) && after.next_id(event) == self.next_id(event)
        &&& self.next_id(event) < usize::MAX ==> r == Some(
            (EventHandler { id: self.next_id(event), event, handler }),
        ) && after.registered(event) == self.registered(event).push(
            (EventHandler { id: self.next_id(event), event, handler }),
        ) && after.next_id(event) == self.next_id(event) + 1
        &&& forall|e: Event|
            e != event ==> #[trigger] after.registered(e) == self.registered(e) && after.next_id(e)
                == self.next_id(e)
    }

    /// `after` is this table once `event_handler` has been unregistered: the
    /// entry with its id leaves the list of its event, if it was there. Ids
    /// are not reused, and other events are untouched.
    pub open spec fn removed(self, after: Self, event_handler: EventHandler<H>) -> bool {
        &&& after.registered(event_handler.event) == without_id(
            self.registered(event_handler.event),
            event_handler.id,
        )
        &&& forall|e: Event| #[trigger] after.next_id(e) == self.next_id(e)
        &&& forall|e: Event|
            e != event_handler.event ==> #[trigger] after.registered(e) == self.registered(e)
    }

    proof fn lemma_slot(&self, j: int)
        requires
            self.wf(),
            0 <= j < self.handlers@.len(),
        ensures
            self.registered(self.handlers@[j].event) == self.handlers@[j].handlers@,
            self.next_id(self.handlers@[j].event) == self.handlers@[j].next_id,
    {
        let e = self.handlers@[j].event;
        assert(0 <= j < self.handlers@.len() && self.handlers@[j].event == e);
        let k = self.slot_of(e);
        assert(k == j) by {
            if k < j {
                assert(self.handlers@[k].event != self.handlers@[j].event);
            } else if k > j {
                assert(self.handlers@[j].event != self.handlers@[k].event);
            }
        }
    }

    proof fn lemma_no_slot(&self, e: Event)
        requires
            forall|j: int| 0 <= j < self.handlers@.len() ==> (#[trigger] self.handlers@[j]).event != e,
        ensures
            self.registered(e) == Seq::<EventHandler<H>>::empty(),
            self.next_id(e) == 0,
    {
    }

    /// Two tables that differ only in slot `j` (changed in place, or
    /// appended) agree on every event but the one of that slot.
    proof fn lemma_one_slot_changed(a: &Self, b: &Self, j: int)
        requires
            a.wf(),
            b.wf(),
            0 <= j < b.handlers@.len(),
            b.handlers@.len() == a.handlers@.len() || (b.handlers@.len() == a.handlers@.len() + 1
                && j == a.handlers@.len()),
            forall|k: int| 0 <= k < a.handlers@.len() && k != j ==> b.handlers@[k] == a.handlers@[k],
            j < a.handlers@.len() ==> b.handlers@[j].event == a.handlers@[j].event,
        ensures
            forall|e: Event|
                e != b.handlers@[j].event ==> #[trigger] b.registered(e) == a.registered(e),
            forall|e: Event| e != b.handlers@[j].event ==> #[trigger] b.next_id(e) == a.next_id(e),
    {
        assert forall|e: Event| e != b.handlers@[j].event implies #[trigger] b.registered(e)
            == a.registered(e) && b.next_id(e) == a.next_id(e) by {
            if exists|k: int| 0 <= k < a.handlers@.len() && (#[trigger] a.handlers@[k]).event == e {
                let k = choose|k: int|
                    0 <= k < a.handlers@.len() && (#[trigger] a.handlers@[k]).event == e;
                a.lemma_slot(k);
                b.lemma_slot(k);
            } else {
                a.lemma_no_slot(e);
                assert forall|k: int| 0 <= k < b.handlers@.len() implies (#[trigger] b.handlers@[k]).event
                    != e by {
                    if k != j {
                        assert(b.handlers@[k] == a.handlers@[k]);
                    }
                }
                b.lemma_no_slot(e);
            }
        }
        assert forall|e: Event| e != b.handlers@[j].event implies #[trigger] b.next_id(e) == a.next_id(
            e,
        ) by {
            assert(b.registered(e) == a.registered(e));
        }
    }

    /// What `registered` and `next_id` say of a well-formed table, entry by
    /// entry: ids unique and increasing, each below the next id to hand out.
    pub proof fn lemma_registered(&self, e: Event)
        requires
            self.wf(),
        ensures
            forall|i: int|
                0 <= i < self.registered(e).len() ==> (#[trigger] self.registered(e)[i]).event == e
                    && self.registered(e)[i].id < self.next_id(e),
            forall|i: int, j: int|
                0 <= i < j < self.registered(e).len() ==> (#[trigger] self.registered(e)[i]).id < (
                #[trigger] self.registered(e)[j]).id,
    {
        if exists|j: int| 0 <= j < self.handlers@.len() && (#[trigger] self.handlers@[j]).event == e {
            let j = choose|j: int|
                0 <= j < self.handlers@.len() && (#[trigger] self.handlers@[j]).event == e;
            self.lemma_slot(j);
            assert(self.handlers@[j].wf());
        }
    }

    pub fn new() -> (r: EventMap<H>)
        ensures
            r.wf(),
            forall|e: Event| #[trigger] r.registered(e) == Seq::<EventHandler<H>>::empty(),
            forall|e: Event| #[trigger] r.next_id(e) == 0,
    {
        EventMap { handlers: Vec::new() }
    }

    fn find(&self, event: Event) -> (r: Option<usize>)
        ensures
            match r {
                Some(j) => j < self.handlers@.len() && self.handlers@[j as int].event == event,
                None => forall|j: int|
                    0 <= j < self.handlers@.len() ==> (#[trigger] self.handlers@[j]).event != event,
            },
    {
        for j in 0..self.handlers.len()
            invariant
                forall|k: int| 0 <= k < j ==> (#[trigger] self.handlers@[k]).event != event,
        {
            if self.handlers[j].event == event {
                return Some(j);
            }
        }
        None
    }

    /// Registers `handler` for `event` under the next id of that event;
    /// `None`, and nothing changed, once that event has handed out every id.
    pub fn insert(&mut self, event: Event, handler: H) -> (r: Option<EventHandler<H>>)
        requires
            old(self).wf(),
        ensures
            final(self).wf(),
            old(self).inserted(*final(self), event, handler, r),
    {
        let ghost before = *self;
        let j = match self.find(event) {
            Some(j) => {
                proof {
                    self.lemma_slot(j as int);
                }
                j
            },
            None => {
                proof {
                    self.lemma_no_slot(event);
                }
                self.handlers.push(EventHandlers::new(event));
                self.handlers.len() - 1
            },
        };
        let ghost mid = *self;
        proof {
            assert(mid.wf()) by {
                assert forall|i: int, k: int|
                    0 <= i < k < mid.handlers@.len() implies (#[trigger] mid.handlers@[i]).event != (
                    #[trigger] mid.handlers@[k]).event by {
                    if k < before.handlers@.len() {
                        assert(before.handlers@[i].event != before.handlers@[k].event);
                    }
                }
            }
            mid.lemma_slot(j as int);
        }
        let r = self.handlers[j].insert(handler);
        proof {
            assert(self.handlers@ == mid.handlers@.update(j as int, self.handlers@[j as int]));
            assert(self.wf()) by {
                assert forall|i: int, k: int|
                    0 <= i < k < self.handlers@.len() implies (#[trigger] self.handlers@[i]).event != (
                    #[trigger] self.handlers@[k]).event by {
                    assert(mid.handlers@[i].event != mid.handlers@[k].event);
                }
            }
            self.lemma_slot(j as int);
            Self::lemma_one_slot_changed(&before, self, j as int);
        }
        r
    }

    /// Unregisters a handler; unregistering one that is not registered
    /// changes nothing.
    pub fn remove(&mut self, event_handler: EventHandler<H>)
        requires
            old(self).wf(),
        ensures
            final(self).wf(),
            old(self).removed(*final(self), event_handler),
    {
        let ghost before = *self;
        match self.find(event_handler.event) {
            None => {
                proof {
                    self.lemma_no_slot(event_handler.event);
                }
            },
            Some(j) => {
                proof {
                    self.lemma_slot(j as int);
                }
                self.handlers[j].remove(event_handler.id);
                proof {
                    assert(self.handlers@ == before.handlers@.update(j as int, self.handlers@[j as int]));
                    assert(self.wf()) by {
                        assert forall|i: int, k: int|
                            0 <= i < k < self.handlers@.len() implies (#[trigger] self.handlers@[i]).event
                            != (#[trigger] self.handlers@[k]).event by {
                            assert(before.handlers@[i].event != before.handlers@[k].event);
                        }
                    }
                    self.lemma_slot(j as int);
                    Self::lemma_one_slot_changed(&before, self, j as int);
                }
            },
        }
    }

    /// The handlers registered for `event`, in order of registration.
    pub fn registered_handlers(&self, event: Event) -> (r: Vec<EventHandler<H>>)
        requires
            self.wf(),
        ensures
            r@ == self.registered(event),
    {
        match self.find(event) {
            None => {
                proof {
                    self.lemma_no_slot(event);
                }
                Vec::new()
            },
            Some(j) => {
                proof {
                    self.lemma_slot(j as int);
                }
                let slot = &self.handlers[j];
                let mut out: Vec<EventHandler<H>> = Vec::new();
                for k in 0..slot.handlers.len()
                    invariant
                        out@ == slot.handlers@.take(k as int),
                {
                    out.push(slot.handlers[k]);
                    proof {
                        assert(out@ =~= slot.handlers@.take(k + 1));
                    }
                }
                proof {
                    assert(slot.handlers@.take(slot.handlers@.len() as int) =~= slot.handlers@);
                }
                out
            },
        }
    }

    /// The handlers to invoke for the transition from report `prev_data` to
    /// report `new_data`: for each event it implies, in order, every handler
    /// registered for that event.
    pub fn trigger_events(&self, prev_data: &Frame, new_data: &Frame) -> (r: Vec<EventHandler<H>>)
        requires
            self.wf(),
        ensures
            r@ == self.deliveries(frame_events(prev_data@, new_data@)),
    {
        let events = classify_events(prev_data, new_data);
        let mut out: Vec<EventHandler<H>> = Vec::new();
        for k in 0..events.len()
            invariant
                self.wf(),
                out@ == self.deliveries(events@.take(k as int)),
        {
            proof {
                assert(events@.take(k + 1).drop_last() =~= events@.take(k as int));
            }
            let mut found = self.registered_handlers(events[k]);
            out.append(&mut found);
        }
        proof {
            assert(events@.take(events@.len() as int) =~= events@);
        }
        out
    }
}

proof fn lemma_without_id_excludes<H>(s: Seq<EventHandler<H>>, id: usize)
    ensures
        forall|i: int| 0 <= i < without_id(s, id).len() ==> (#[trigger] without_id(s, id)[i]).id != id,
    decreases s.len(),
{
    if s.len() > 0 {
        lemma_without_id_excludes(s.drop_last(), id);
    }
}

/// Once a handler has been unregistered, no sequence of events delivers it:
/// no delivery carries both its event and its id.
pub proof fn lemma_unregistered_not_delivered<H: Copy>(
    before: EventMap<H>,
    after: EventMap<H>,
    event_handler: EventHandler<H>,
    events: Seq<Event>,
)
    requires
        after.wf(),
        before.removed(after, event_handler),
    ensures
        forall|i: int|
            0 <= i < after.deliveries(events).len() ==> !((#[trigger] after.deliveries(events)[i]).event
                == event_handler.event && after.deliveries(events)[i].id == event_handler.id),
    decreases events.len(),
{
    if events.len() > 0 {
        lemma_unregistered_not_delivered(before, after, event_handler, events.drop_last());
        let e = events.last();
        after.lemma_registered(e);
        lemma_without_id_excludes(before.registered(event_handler.event), event_handler.id);
        let prefix = after.deliveries(events.drop_last());
        assert forall|i: int| 0 <= i < after.deliveries(events).len() implies !((
        #[trigger] after.deliveries(events)[i]).event == event_handler.event
            && after.deliveries(events)[i].id == event_handler.id) by {
            if i >= prefix.len() {
                assert(after.deliveries(events)[i] == after.registered(e)[i - prefix.len()]);
            } else {
                assert(after.deliveries(events)[i] == prefix[i]);
            }
        }
    }
}

/// Number of times `x` occurs in `s`.
#[verifier::opaque]
pub open spec fn occurrences<A>(s: Seq<A>, x: A) -> nat
    decreases s.len(),
{
    if s.len() == 0 {
        0
    } else {
        occurrences(s.drop_last(), x) + if s.last() == x {
            1nat
        } else {
            0nat
        }
    }
}

proof fn lemma_occurrences_append<A>(a: Seq<A>, b: Seq<A>, x: A)
    ensures
        occurrences(a + b, x) == occurrences(a, x) + occurrences(b, x),
    decreases b.len(),
{
    reveal(occurrences);
    if b.len() == 0 {
        assert(a + b =~= a);
    } else {
        lemma_occurrences_append(a, b.drop_last(), x);
        assert((a + b).drop_last() =~= a + b.drop_last());
    }
}

proof fn lemma_occurrences_absent<A>(s: Seq<A>, x: A)
    requires
        !s.contains(x),
    ensures
        occurrences(s, x) == 0,
    decreases s.len(),
{
    reveal(occurrences);
    if s.len() > 0 {
        assert(!s.drop_last().contains(x)) by {
            if s.drop_last().contains(x) {
                let k = choose|k: int| 0 <= k < s.drop_last().len() && s.drop_last()[k] == x;
                assert(s[k] == x);
            }
        }
        lemma_occurrences_absent(s.drop_last(), x);
    }
}

proof fn lemma_occurrences_unique_id<H>(s: Seq<EventHandler<H>>, x: EventHandler<H>)
    requires
        s.contains(x),
        forall|i: int, j: int| 0 <= i < j < s.len() ==> (#[trigger] s[i]).id < (#[trigger] s[j]).id,
    ensures
        occurrences(s, x) == 1,
    decreases s.len(),
{
    reveal(occurrences);
    let t = s.drop_last();
    if s.last() == x {
        assert(!t.contains(x)) by {
            if t.contains(x) {
                let k = choose|k: int| 0 <= k < t.len() && t[k] == x;
                assert(s[k].id < s[s.len() - 1].id);
            }
        }
        lemma_occurrences_absent(t, x);
    } else {
        let k = choose|k: int| 0 <= k < s.len() && s[k] == x;
        assert(t[k] == x);
        lemma_occurrences_unique_id(t, x);
    }
}

/// Each handler registered for an event is delivered once for every
/// occurrence of that event, and never for another event.
pub proof fn lemma_delivered_once_per_event<H: Copy>(
    map: EventMap<H>,
    event_handler: EventHandler<H>,
    events: Seq<Event>,
)
    requires
        map.wf(),
        map.registered(event_handler.event).contains(event_handler),
    ensures
        occurrences(map.deliveries(events), event_handler) == occurrences(
            events,
            event_handler.event,
        ),
    decreases events.len(),
{
    reveal(occurrences);
    if events.len() > 0 {
        lemma_delivered_once_per_event(map, event_handler, events.drop_last());
        let e = events.last();
        lemma_occurrences_append(
            map.deliveries(events.drop_last()),
            map.registered(e),
            event_handler,
        );
        map.lemma_registered(e);
        if e == event_handler.event {
            lemma_occurrences_unique_id(map.registered(e), event_handler);
        } else {
            assert(!map.registered(e).contains(event_handler)) by {
                if map.registered(e).contains(event_handler) {
                    let k = choose|k: int|
                        0 <= k < map.registered(e).len() && map.registered(e)[k] == event_handler;
                    assert(map.registered(e)[k].event == e);
                }
            }
            lemma_occurrences_absent(map.registered(e), event_handler);
        }
    }
}

proof fn lemma_edge_adds_none(
    s: Seq<Event>,
    was: bool,
    is: bool,
    pressed: Event,
    released: Event,
    x: Event,
)
    requires
        pressed != x,
        released != x,
    ensures
        occurrences(with_edge(s, was, is, pressed, released), x) == occurrences(s, x),
{
    reveal(with_edge);
    reveal(occurrences);
    assert(s.push(pressed).drop_last() =~= s);
    assert(s.push(released).drop_last() =~= s);
}

proof fn lemma_onset_adds_none(s: Seq<Event>, was: bool, is: bool, event: Event, x: Event)
    requires
        event != x,
    ensures
        occurrences(with_onset(s, was, is, event), x) == occurrences(s, x),
{
    reveal(with_onset);
    reveal(occurrences);
    assert(s.push(event).drop_last() =~= s);
}

proof fn lemma_change_count(s: Seq<Event>, changed: bool, event: Event, x: Event)
    ensures
        occurrences(with_change(s, changed, event), x) == occurrences(s, x) + if changed && event
            == x {
            1nat
        } else {
            0nat
        },
{
    reveal(with_change);
    reveal(occurrences);
    assert(s.push(event).drop_last() =~= s);
}

proof fn lemma_dpad_adds_no_throttle(s: Seq<Event>, was: DpadPosition, is: DpadPosition)
    ensures
        occurrences(with_dpad_events(s, was, is), Event::Throttle) == occurrences(
            s,
            Event::Throttle,
        ),
{
    let x = Event::Throttle;
    if was != is {
        lemma_occurrences_append(s, dpad_pressed(is), x);
        lemma_occurrences_append(s + dpad_pressed(is), dpad_released(was), x);
        lemma_occurrences_absent(dpad_pressed(is), x);
        lemma_occurrences_absent(dpad_released(was), x);
    }
}

proof fn lemma_throttle_at_0(s: Seq<Event>, a: DecodedState, b: DecodedState)
    ensures
        occurrences(with_byte0_events(s, a, b), Event::Throttle) == occurrences(
            s,
            Event::Throttle,
        ),
{
    let x = Event::Throttle;
    lemma_dpad_adds_no_throttle(s, a.dpad, b.dpad);
    let t = with_dpad_events(s, a.dpad, b.dpad);
    lemma_edge_adds_none(
        t,
        a.x_button,
        b.x_button,
        Event::XButtonPressed,
        Event::XButtonReleased,
        x,
    );
    let t = with_edge(t, a.x_button, b.x_button, Event::XButtonPressed, Event::XButtonReleased);
    lemma_edge_adds_none(
        t,
        a.square_button,
        b.square_button,
        Event::SquareButtonPressed,
        Event::SquareButtonReleased,
        x,
    );
    let t = with_edge(
        t,
        a.square_button,
        b.square_button,
        Event::SquareButtonPressed,
        Event::SquareButtonReleased,
    );
    lemma_edge_adds_none(
        t,
        a.circle_button,
        b.circle_button,
        Event::CircleButtonPressed,
        Event::CircleButtonReleased,
        x,
    );
    let t = with_edge(
        t,
        a.circle_button,
        b.circle_button,
        Event::CircleButtonPressed,
        Event::CircleButtonReleased,
    );
    lemma_edge_adds_none(
        t,
        a.triangle_button,
        b.triangle_button,
        Event::TriangleButtonPressed,
        Event::TriangleButtonReleased,
        x,
    );
    let t = with_edge(
        t,
        a.triangle_button,
        b.triangle_button,
        Event::TriangleButtonPressed,
        Event::TriangleButtonReleased,
    );
}

proof fn lemma_throttle_at_1_low(s: Seq<Event>, a: DecodedState, b: DecodedState)
    ensures
        occurrences(with_byte1_low_events(s, a, b), Event::Throttle) == occurrences(s, Event::Throttle),
{
    let x = Event::Throttle;
    let t = s;
    lemma_edge_adds_none(
        t,
        a.right_shifter,
        b.right_shifter,
        Event::RightShifterPressed,
        Event::RightShifterReleased,
        x,
    );
    let t = with_edge(
        t,
        a.right_shifter,
        b.right_shifter,
        Event::RightShifterPressed,
        Event::RightShifterReleased,
    );
    lemma_edge_adds_none(
        t,
        a.left_shifter,
        b.left_shifter,
        Event::LeftShifterPressed,
        Event::LeftShifterReleased,
        x,
    );
    let t = with_edge(
        t,
        a.left_shifter,
        b.left_shifter,
        Event::LeftShifterPressed,
        Event::LeftShifterReleased,
    );
    lemma_edge_adds_none(
        t,
        a.r2_button,
        b.r2_button,
        Event::R2ButtonPressed,
        Event::R2ButtonReleased,
        x,
    );
    let t = with_edge(t, a.r2_button, b.r2_button, Event::R2ButtonPressed, Event::R2ButtonReleased);
    lemma_edge_adds_none(
        t,
        a.l2_button,
        b.l2_button,
        Event::L2ButtonPressed,
        Event::L2ButtonReleased,
        x,
    );
    let t = with_edge(t, a.l2_button, b.l2_button, Event::L2ButtonPressed, Event::L2ButtonReleased);
}

proof fn lemma_throttle_at_1_high(s: Seq<Event>, a: DecodedState, b: DecodedState)
    ensures
        occurrences(with_byte1_high_events(s, a, b), Event::Throttle) == occurrences(s, Event::Throttle),
{
    let x = Event::Throttle;
    let t = s;
    lemma_edge_adds_none(
        t,
        a.share_button,
        b.share_button,
        Event::ShareButtonPressed,
        Event::ShareButtonReleased,
        x,
    );
    let t = with_edge(
        t,
        a.share_button,
        b.share_button,
        Event::ShareButtonPressed,
        Event::ShareButtonReleased,
    );
    lemma_edge_adds_none(
        t,
        a.options_button,
        b.options_button,
        Event::OptionsButtonPressed,
        Event::OptionsButtonReleased,
        x,
    );
    let t = with_edge(
        t,
        a.options_button,
        b.options_button,
        Event::OptionsButtonPressed,
        Event::OptionsButtonReleased,
    );
    lemma_edge_adds_none(
        t,
        a.r3_button,
        b.r3_button,
        Event::R3ButtonPressed,
        Event::R3ButtonReleased,
        x,
    );
    let t = with_edge(t, a.r3_button, b.r3_button, Event::R3ButtonPressed, Event::R3ButtonReleased);
    lemma_edge_adds_none(
        t,
        a.l3_button,
        b.l3_button,
        Event::L3ButtonPressed,
        Event::L3ButtonReleased,
        x,
    );
    let t = with_edge(t, a.l3_button, b.l3_button, Event::L3ButtonPressed, Event::L3ButtonReleased);
}

proof fn lemma_throttle_at_1(s: Seq<Event>, a: DecodedState, b: DecodedState)
    ensures
        occurrences(with_byte1_events(s, a, b), Event::Throttle) == occurrences(
            s,
            Event::Throttle,
        ),
{
    lemma_throttle_at_1_low(s, a, b);
    lemma_throttle_at_1_high(with_byte1_low_events(s, a, b), a, b);
}

proof fn lemma_throttle_at_2(s: Seq<Event>, a: DecodedState, b: DecodedState)
    ensures
        occurrences(with_byte2_events(s, a, b), Event::Throttle) == occurrences(
            s,
            Event::Throttle,
        ),
{
    let x = Event::Throttle;
    let t = s;
    lemma_change_count(t, a.gear != b.gear, Event::GearChanged, x);
    let t = with_change(t, a.gear != b.gear, Event::GearChanged);
    lemma_edge_adds_none(
        t,
        a.plus_button,
        b.plus_button,
        Event::PlusButtonPressed,
        Event::PlusButtonReleased,
        x,
    );
    let t = with_edge(
        t,
        a.plus_button,
        b.plus_button,
        Event::PlusButtonPressed,
        Event::PlusButtonReleased,
    );
}

proof fn lemma_throttle_at_3(s: Seq<Event>, a: DecodedState, b: DecodedState)
    ensures
        occurrences(with_byte3_events(s, a, b), Event::Throttle) == occurrences(
            s,
            Event::Throttle,
        ),
{
    let x = Event::Throttle;
    let t = s;
    lemma_edge_adds_none(
        t,
        a.minus_button,
        b.minus_button,
        Event::MinusButtonPressed,
        Event::MinusButtonReleased,
        x,
    );
    let t = with_edge(
        t,
        a.minus_button,
        b.minus_button,
        Event::MinusButtonPressed,
        Event::MinusButtonReleased,
    );
    lemma_onset_adds_none(t, a.spinner_right, b.spinner_right, Event::SpinnerRight, x);
    let t = with_onset(t, a.spinner_right, b.spinner_right, Event::SpinnerRight);
    lemma_onset_adds_none(t, a.spinner_left, b.spinner_left, Event::SpinnerLeft, x);
    let t = with_onset(t, a.spinner_left, b.spinner_left, Event::SpinnerLeft);
    lemma_edge_adds_none(
        t,
        a.spinner_button,
        b.spinner_button,
        Event::SpinnerButtonPressed,
        Event::SpinnerButtonReleased,
        x,
    );
    let t = with_edge(
        t,
        a.spinner_button,
        b.spinner_button,
        Event::SpinnerButtonPressed,
        Event::SpinnerButtonReleased,
    );
    lemma_edge_adds_none(
        t,
        a.playstation_button,
        b.playstation_button,
        Event::PlaystationButtonPressed,
        Event::PlaystationButtonReleased,
        x,
    );
    let t = with_edge(
        t,
        a.playstation_button,
        b.playstation_button,
        Event::PlaystationButtonPressed,
        Event::PlaystationButtonReleased,
    );
}

proof fn lemma_throttle_in_position(s: Seq<Event>, i: int, a: DecodedState, b: DecodedState)
    ensures
        occurrences(with_position_events(s, i, a, b), Event::Throttle) == occurrences(
            s,
            Event::Throttle,
        ) + if i == 6 && a.throttle != b.throttle {
            1nat
        } else {
            0nat
        },
{
    let x = Event::Throttle;
    if i == 0 {
        lemma_throttle_at_0(s, a, b);
    } else if i == 1 {
        lemma_throttle_at_1(s, a, b);
    } else if i == 2 {
        lemma_throttle_at_2(s, a, b);
    } else if i == 3 {
        lemma_throttle_at_3(s, a, b);
    } else if i == 4 {
        lemma_change_count(s, a.steering_fine != b.steering_fine, Event::SteeringFine, x);
    } else if i == 5 {
        lemma_change_count(s, a.steering != b.steering, Event::Steering, x);
    } else if i == 6 {
        lemma_change_count(s, a.throttle != b.throttle, Event::Throttle, x);
    } else if i == 7 {
        lemma_change_count(s, a.brake != b.brake, Event::Brake, x);
    } else if i == 8 {
        lemma_change_count(s, a.clutch != b.clutch, Event::Clutch, x);
    } else if i == 9 {
        lemma_change_count(s, a.shifter_x != b.shifter_x, Event::ShifterX, x);
    } else if i == 10 {
        lemma_change_count(s, a.shifter_y != b.shifter_y, Event::ShifterY, x);
    } else if i == 11 {
        lemma_edge_adds_none(
            s,
            a.shifter_pressed,
            b.shifter_pressed,
            Event::ShifterPressed,
            Event::ShifterReleased,
            x,
        );
    }
}

proof fn lemma_throttle_in_positions(ps: Seq<usize>, a: DecodedState, b: DecodedState)
    ensures
        occurrences(events_at(ps, a, b), Event::Throttle) == if a.throttle != b.throttle {
            occurrences(ps, 6usize)
        } else {
            0
        },
    decreases ps.len(),
{
    reveal(occurrences);
    if ps.len() > 0 {
        lemma_throttle_in_positions(ps.drop_last(), a, b);
        lemma_throttle_in_position(events_at(ps.drop_last(), a, b), ps.last() as int, a, b);
    }
}

proof fn lemma_six_in_changed_below(prev: Seq<u8>, next: Seq<u8>, n: int)
    requires
        0 <= n <= 12,
    ensures
        occurrences(changed_below(prev, next, n), 6usize) == if 6 < n && prev[6] != next[6] {
            1nat
        } else {
            0nat
        },
    decreases n,
{
    reveal(occurrences);
    if n > 0 {
        lemma_six_in_changed_below(prev, next, n - 1);
        if prev[n - 1] != next[n - 1] {
            let s = changed_below(prev, next, n - 1);
            assert(s.push((n - 1) as usize).drop_last() =~= s);
        }
    }
}

/// A transition implies `Throttle` exactly once when the throttle byte
/// changed, and not at all otherwise. With the law above: one
/// throttle-changing transition delivers every handler registered for
/// `Throttle` exactly once.
pub proof fn lemma_throttle_event_once(prev: Seq<u8>, next: Seq<u8>)
    ensures
        occurrences(frame_events(prev, next), Event::Throttle) == if prev[6] != next[6] {
            1nat
        } else {
            0nat
        },
{
    lemma_throttle_in_positions(changed_positions(prev, next), decoded(prev), decoded(next));
    lemma_six_in_changed_below(prev, next, 12);
}

} // verus!
