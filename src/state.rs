//! Pure decoders from a report to the value of each control.
//!
//! Every decoder reads one byte of the report and is total: each byte value
//! maps to a defined result.

use vstd::prelude::*;

use crate::{DpadPosition, Frame, GearSelector};

verus! {

/// Whether every bit of `mask` is set in `b`.
pub open spec fn bits_set(b: u8, mask: u8) -> bool {
    b & mask == mask
}

/// The directional pad position encoded by the low nibble of a byte.
pub open spec fn dpad_of(b: u8) -> DpadPosition {
    let nibble = b & 15u8;
    if nibble == 0 {
        DpadPosition::Up
    } else if nibble == 1 {
        DpadPosition::TopRight
    } else if nibble == 2 {
        DpadPosition::Right
    } else if nibble == 3 {
        DpadPosition::BottomRight
    } else if nibble == 4 {
        DpadPosition::Down
    } else if nibble == 5 {
        DpadPosition::BottomLeft
    } else if nibble == 6 {
        DpadPosition::Left
    } else if nibble == 7 {
        DpadPosition::TopLeft
    } else {
        DpadPosition::Center
    }
}

/// The gear encoded by the low seven bits of a byte: a single set bit names
/// a gear, no bit or several bits mean neutral.
pub open spec fn gear_of(b: u8) -> GearSelector {
    let g = b & 127u8;
    if g == 1 {
        GearSelector::First
    } else if g == 2 {
        GearSelector::Second
    } else if g == 4 {
        GearSelector::Third
    } else if g == 8 {
        GearSelector::Fourth
    } else if g == 16 {
        GearSelector::Fifth
    } else if g == 32 {
        GearSelector::Sixth
    } else if g == 64 {
        GearSelector::Reverse
    } else {
        GearSelector::Neutral
    }
}

/// Get the throttle value (255 released, 0 fully pressed).
pub fn throttle(data: &Frame) -> (r: u8)
    ensures
        r == data@[6],
{
    data[6]
}

/// Get the brake value (255 released, 0 fully pressed).
pub fn brake(data: &Frame) -> (r: u8)
    ensures
        r == data@[7],
{
    data[7]
}

/// Get the steering value (0 full left, 255 full right).
pub fn steering(data: &Frame) -> (r: u8)
    ensures
        r == data@[5],
{
    data[5]
}

/// Get the fine steering value.
pub fn steering_fine(data: &Frame) -> (r: u8)
    ensures
        r == data@[4],
{
    data[4]
}

/// Get the directional pad position.
pub fn dpad(data: &Frame) -> (r: DpadPosition)
    ensures
        r == dpad_of(data@[0]),
{
    match data[0] & 15 {
        0 => DpadPosition::Up,
        1 => DpadPosition::TopRight,
        2 => DpadPosition::Right,
        3 => DpadPosition::BottomRight,
        4 => DpadPosition::Down,
        5 => DpadPosition::BottomLeft,
        6 => DpadPosition::Left,
        7 => DpadPosition::TopLeft,
        _ => DpadPosition::Center,
    }
}

/// Returns true if the x button is pressed.
pub fn x_button(data: &Frame) -> (r: bool)
    ensures
        r == bits_set(data@[0], 16),
{
    data[0] & 16 == 16
}

/// Returns true if the square button is pressed.
pub fn square_button(data: &Frame) -> (r: bool)
    ensures
        r == bits_set(data@[0], 32),
{
    data[0] & 32 == 32
}

/// Returns true if the circle button is pressed.
pub fn circle_button(data: &Frame) -> (r: bool)
    ensures
        r == bits_set(data@[0], 64),
{
    data[0] & 64 == 64
}

/// Returns true if the triangle button is pressed.
pub fn triangle_button(data: &Frame) -> (r: bool)
    ensures
        r == bits_set(data@[0], 128),
{
    data[0] & 128 == 128
}

/// Returns true if the right shifter paddle is pressed.
pub fn right_shifter(data: &Frame) -> (r: bool)
    ensures
        r == bits_set(data@[1], 1),
{
    data[1] & 1 == 1
}

/// Returns true if the left shifter paddle is pressed.
pub fn left_shifter(data: &Frame) -> (r: bool)
    ensures
        r == bits_set(data@[1], 2),
{
    data[1] & 2 == 2
}

/// Returns true if the r2 button is pressed.
pub fn r2_button(data: &Frame) -> (r: bool)
    ensures
        r == bits_set(data@[1], 4),
{
    data[1] & 4 == 4
}

/// Returns true if the l2 button is pressed.
pub fn l2_button(data: &Frame) -> (r: bool)
    ensures
        r == bits_set(data@[1], 8),
{
    data[1] & 8 == 8
}

/// Returns true if the share button is pressed.
pub fn share_button(data: &Frame) -> (r: bool)
    ensures
        r == bits_set(data@[1], 16),
{
    data[1] & 16 == 16
}

/// Returns true if the options button is pressed.
pub fn options_button(data: &Frame) -> (r: bool)
    ensures
        r == bits_set(data@[1], 32),
{
    data[1] & 32 == 32
}

/// Returns true if the r3 button is pressed.
pub fn r3_button(data: &Frame) -> (r: bool)
    ensures
        r == bits_set(data@[1], 64),
{
    data[1] & 64 == 64
}

/// Returns true if the l3 button is pressed.
pub fn l3_button(data: &Frame) -> (r: bool)
    ensures
        r == bits_set(data@[1], 128),
{
    data[1] & 128 == 128
}

/// Get the gear selector position.
pub fn gear_selector(data: &Frame) -> (r: GearSelector)
    ensures
        r == gear_of(data@[2]),
{
    match data[2] & 127 {
        1 => GearSelector::First,
        2 => GearSelector::Second,
        4 => GearSelector::Third,
        8 => GearSelector::Fourth,
        16 => GearSelector::Fifth,
        32 => GearSelector::Sixth,
        64 => GearSelector::Reverse,
        _ => GearSelector::Neutral,
    }
}

/// Returns true if the plus button is pressed.
pub fn plus_button(data: &Frame) -> (r: bool)
    ensures
        r == bits_set(data@[2], 128),
{
    data[2] & 128 == 128
}

/// Returns true if the minus button is pressed.
pub fn minus_button(data: &Frame) -> (r: bool)
    ensures
        r == bits_set(data@[3], 1),
{
    data[3] & 1 == 1
}

/// Returns true if the spinner is rotating clockwise.
pub fn spinner_right(data: &Frame) -> (r: bool)
    ensures
        r == bits_set(data@[3], 2),
{
    data[3] & 2 == 2
}

/// Returns true if the spinner is rotating counter-clockwise.
pub fn spinner_left(data: &Frame) -> (r: bool)
    ensures
        r == bits_set(data@[3], 4),
{
    data[3] & 4 == 4
}

/// Returns true if the spinner button is pressed.
pub fn spinner_button(data: &Frame) -> (r: bool)
    ensures
        r == bits_set(data@[3], 8),
{
    data[3] & 8 == 8
}

/// Returns true if the playstation button is pressed.
pub fn playstation_button(data: &Frame) -> (r: bool)
    ensures
        r == bits_set(data@[3], 16),
{
    data[3] & 16 == 16
}

/// Get the clutch value (255 released, 0 fully pressed).
pub fn clutch(data: &Frame) -> (r: u8)
    ensures
        r == data@[8],
{
    data[8]
}

/// Get the shifter x axis.
pub fn shifter_x(data: &Frame) -> (r: u8)
    ensures
        r == data@[9],
{
    data[9]
}

/// Get the shifter y axis.
pub fn shifter_y(data: &Frame) -> (r: u8)
    ensures
        r == data@[10],
{
    data[10]
}

/// Returns true if the shifter is pressed down into the unit.
pub fn shifter_pressed(data: &Frame) -> (r: bool)
    ensures
        r == (data@[11] == 1),
{
    data[11] == 1
}

/// Percentage that a pedal is pressed, from its raw value: raw 0 is fully
/// pressed (100), raw 255 released (0), in between `raw * 100 / 255` rounded
/// to the nearest integer and subtracted from 100.
pub open spec fn pedal_percent(raw: u8) -> int {
    100 - (200 * raw + 255) / 510
}

/// Converts a raw pedal value (0-255) to the percentage pressed (0-100).
pub fn pedal_to_percent(num: u8) -> (r: u8)
    ensures
        r == pedal_percent(num),
        r <= 100,
{
    let scaled: u16 = (num as u16 * 200 + 255) / 510;
    100 - scaled as u8
}

/// Snapshot of every control, decoded from one report.
#[derive(Debug, PartialEq, Eq, Structural, Clone, Copy)]
pub struct DecodedState {
    pub steering: u8,
    pub steering_fine: u8,
    pub throttle: u8,
    pub brake: u8,
    pub clutch: u8,
    pub dpad: DpadPosition,
    pub gear: GearSelector,
    pub x_button: bool,
    pub square_button: bool,
    pub circle_button: bool,
    pub triangle_button: bool,
    pub right_shifter: bool,
    pub left_shifter: bool,
    pub r2_button: bool,
    pub l2_button: bool,
    pub share_button: bool,
    pub options_button: bool,
    pub r3_button: bool,
    pub l3_button: bool,
    pub plus_button: bool,
    pub minus_button: bool,
    pub spinner_right: bool,
    pub spinner_left: bool,
    pub spinner_button: bool,
    pub playstation_button: bool,
    pub shifter_x: u8,
    pub shifter_y: u8,
    pub shifter_pressed: bool,
}

/// The snapshot that a report of twelve bytes `s` decodes to.
pub open spec fn decoded(s: Seq<u8>) -> DecodedState {
    DecodedState {
        steering: s[5],
        steering_fine: s[4],
        throttle: s[6],
        brake: s[7],
        clutch: s[8],
        dpad: dpad_of(s[0]),
        gear: gear_of(s[2]),
        x_button: bits_set(s[0], 16),
        square_button: bits_set(s[0], 32),
        circle_button: bits_set(s[0], 64),
        triangle_button: bits_set(s[0], 128),
        right_shifter: bits_set(s[1], 1),
        left_shifter: bits_set(s[1], 2),
        r2_button: bits_set(s[1], 4),
        l2_button: bits_set(s[1], 8),
        share_button: bits_set(s[1], 16),
        options_button: bits_set(s[1], 32),
        r3_button: bits_set(s[1], 64),
        l3_button: bits_set(s[1], 128),
        plus_button: bits_set(s[2], 128),
        minus_button: bits_set(s[3], 1),
        spinner_right: bits_set(s[3], 2),
        spinner_left: bits_set(s[3], 4),
        spinner_button: bits_set(s[3], 8),
        playstation_button: bits_set(s[3], 16),
        shifter_x: s[9],
        shifter_y: s[10],
        shifter_pressed: s[11] == 1,
    }
}

/// Decodes every control of a report at once.
pub fn decode(data: &Frame) -> (r: DecodedState)
    ensures
        r == decoded(data@),
{
    DecodedState {
        steering: steering(data),
        steering_fine: steering_fine(data),
        throttle: throttle(data),
        brake: brake(data),
        clutch: clutch(data),
        dpad: dpad(data),
        gear: gear_selector(data),
        x_button: x_button(data),
        square_button: square_button(data),
        circle_button: circle_button(data),
        triangle_button: triangle_button(data),
        right_shifter: right_shifter(data),
        left_shifter: left_shifter(data),
        r2_button: r2_button(data),
        l2_button: l2_button(data),
        share_button: share_button(data),
        options_button: options_button(data),
        r3_button: r3_button(data),
        l3_button: l3_button(data),
        plus_button: plus_button(data),
        minus_button: minus_button(data),
        spinner_right: spinner_right(data),
        spinner_left: spinner_left(data),
        spinner_button: spinner_button(data),
        playstation_button: playstation_button(data),
        shifter_x: shifter_x(data),
        shifter_y: shifter_y(data),
        shifter_pressed: shifter_pressed(data),
    }
}

/// Decoding depends on the bytes alone: two reports with the same bytes
/// decode to the same snapshot.
pub proof fn lemma_decode_deterministic(a: Frame, b: Frame)
    requires
        a@ == b@,
    ensures
        decoded(a@) == decoded(b@),
{
}

/// The low nibble of byte 0 selects the directional pad position: 0 is up,
/// the values 0 to 7 name eight distinct positions, and 8 to 15 all mean
/// the pad is centred.
pub proof fn lemma_dpad_nibble(b: u8, c: u8)
    ensures
        b % 16 == 0 ==> dpad_of(b) == DpadPosition::Up,
        b % 16 >= 8 <==> dpad_of(b) == DpadPosition::Center,
        b % 16 < 8 && c % 16 < 8 ==> (dpad_of(b) == dpad_of(c) <==> b % 16 == c % 16),
{
    assert(b & 15u8 == b % 16) by (bit_vector);
    assert(c & 15u8 == c % 16) by (bit_vector);
}

/// Number of bits set among the low seven bits of a byte.
pub open spec fn low_seven_bits_set(b: u8) -> int {
    (b & 1u8) as int + ((b >> 1u8) & 1u8) as int + ((b >> 2u8) & 1u8) as int + ((b >> 3u8)
        & 1u8) as int + ((b >> 4u8) & 1u8) as int + ((b >> 5u8) & 1u8) as int + ((b >> 6u8)
        & 1u8) as int
}

/// Byte 2 masked to its low seven bits selects the gear: 64 is reverse, 0 is
/// neutral, and any value with more than one of those bits set is neutral.
pub proof fn lemma_gear_boundaries(b: u8)
    ensures
        b & 127u8 == 64 ==> gear_of(b) == GearSelector::Reverse,
        b & 127u8 == 0 ==> gear_of(b) == GearSelector::Neutral,
        low_seven_bits_set(b) > 1 ==> gear_of(b) == GearSelector::Neutral,
{
    let g = b & 127u8;
    assert(g == 1 || g == 2 || g == 4 || g == 8 || g == 16 || g == 32 || g == 64
        ==> low_seven_bits_set(b) == 1) by (bit_vector)
        requires
            g == b & 127u8,
    ;
}

} // verus!
