//! Incremental update of a memory record from the changed bytes of a report.
//!
//! Layout of a report, byte by byte:
//!
//! - 0: directional pad in the low nibble (0 up, then clockwise to 7 top
//!   left, 8 and above centred); X 16, square 32, circle 64, triangle 128.
//! - 1: right shifter paddle 1, left shifter paddle 2, R2 4, L2 8, share 16,
//!   options 32, R3 64, L3 128.
//! - 2: gear in the low seven bits (0 neutral, 1 to 32 first to sixth, 64
//!   reverse); plus button 128.
//! - 3: minus button 1, spinner right 2, spinner left 4, spinner button 8,
//!   PlayStation button 16.
//! - 4: fine wheel turn; 5: wheel turn (0 far left, 255 far right).
//! - 6, 7, 8: gas, brake and clutch pedals (0 fully pressed, 255 released).
//! - 9, 10: shifter X and Y coordinates.
//! - 11: shifter pressed down into the unit.

use vstd::prelude::*;

use crate::state::{
    bits_set, dpad, dpad_of, gear_of, gear_selector, pedal_percent, pedal_to_percent,
};
use crate::{DpadPosition, GearSelector};

pub use crate::events::diff_positions;

verus! {

/// Wheel controls, each button as 1 (pressed) or 0.
#[derive(Debug, PartialEq, Eq, Structural, Clone, Copy)]
pub struct WheelMemory {
    /// Wheel turn, 0 far left to 255 far right.
    pub turn: u8,
    pub shift_left: u8,
    pub shift_right: u8,
    /// Directional pad: 0 centred, 1 up, then clockwise to 8 top left.
    pub dpad: u8,
    pub button_x: u8,
    pub button_square: u8,
    pub button_circle: u8,
    pub button_triangle: u8,
    pub button_r2: u8,
    pub button_l2: u8,
    pub button_share: u8,
    pub button_option: u8,
    pub button_r3: u8,
    pub button_l3: u8,
    pub button_plus: u8,
    pub button_minus: u8,
    /// Spinner: 0 still, 1 left, 2 right.
    pub spinner: u8,
    pub button_spinner: u8,
    pub button_playstation: u8,
}

/// Pedals, each as the percentage pressed.
#[derive(Debug, PartialEq, Eq, Structural, Clone, Copy)]
pub struct PedalsMemory {
    pub gas: u8,
    pub brake: u8,
    pub clutch: u8,
}

/// Shifter: gear 0 neutral, 1 to 6, 7 reverse.
#[derive(Debug, PartialEq, Eq, Structural, Clone, Copy)]
pub struct ShifterMemory {
    pub gear: u8,
}

/// The last known value of every control.
#[derive(Debug, PartialEq, Eq, Structural, Clone, Copy)]
pub struct Memory {
    pub wheel: WheelMemory,
    pub pedals: PedalsMemory,
    pub shifter: ShifterMemory,
}

/// 1 for true, 0 for false.
pub open spec fn flag(b: bool) -> u8 {
    if b {
        1
    } else {
        0
    }
}

/// Memory code of a directional pad position.
pub open spec fn dpad_code(p: DpadPosition) -> u8 {
    match p {
        DpadPosition::Center => 0,
        DpadPosition::Up => 1,
        DpadPosition::TopRight => 2,
        DpadPosition::Right => 3,
        DpadPosition::BottomRight => 4,
        DpadPosition::Down => 5,
        DpadPosition::BottomLeft => 6,
        DpadPosition::Left => 7,
        DpadPosition::TopLeft => 8,
    }
}

/// Memory code of a gear.
pub open spec fn gear_code(g: GearSelector) -> u8 {
    match g {
        GearSelector::Neutral => 0,
        GearSelector::First => 1,
        GearSelector::Second => 2,
        GearSelector::Third => 3,
        GearSelector::Fourth => 4,
        GearSelector::Fifth => 5,
        GearSelector::Sixth => 6,
        GearSelector::Reverse => 7,
    }
}

/// Memory code of the spinner bits of byte 3.
pub open spec fn spinner_code(b: u8) -> u8 {
    if b & 2u8 != 0 {
        2
    } else if b & 4u8 != 0 {
        1
    } else {
        0
    }
}

/// `m` with the gear taken from report `d`.
pub open spec fn with_gear(m: Memory, d: Seq<u8>) -> Memory {
    Memory { shifter: ShifterMemory { gear: gear_code(gear_of(d[2])) }, ..m }
}

/// `m` updated with the controls of byte position `i` of report `d`.
pub open spec fn with_position(m: Memory, i: usize, d: Seq<u8>) -> Memory {
    if i == 0 {
        Memory {
            wheel: WheelMemory {
                dpad: dpad_code(dpad_of(d[0])),
                button_x: flag(bits_set(d[0], 16)),
                button_square: flag(bits_set(d[0], 32)),
                button_circle: flag(bits_set(d[0], 64)),
                button_triangle: flag(bits_set(d[0], 128)),
                ..m.wheel
            },
            ..m
        }
    } else if i == 1 {
        Memory {
            wheel: WheelMemory {
                shift_right: d[1] & 1u8,
                shift_left: flag(bits_set(d[1], 2)),
                button_r2: flag(bits_set(d[1], 4)),
                button_l2: flag(bits_set(d[1], 8)),
                button_share: flag(bits_set(d[1], 16)),
                button_option: flag(bits_set(d[1], 32)),
                button_r3: flag(bits_set(d[1], 64)),
                button_l3: flag(bits_set(d[1], 128)),
                ..m.wheel
            },
            ..m
        }
    } else if i == 2 {
        Memory {
            wheel: WheelMemory { button_plus: flag(bits_set(d[2], 128)), ..m.wheel },
            ..with_gear(m, d)
        }
    } else if i == 3 {
        Memory {
            wheel: WheelMemory {
                button_minus: d[3] & 1u8,
                spinner: spinner_code(d[3]),
                button_spinner: flag(bits_set(d[3], 8)),
                button_playstation: flag(bits_set(d[3], 16)),
                ..m.wheel
            },
            ..m
        }
    } else if i == 4 || i == 5 {
        Memory { wheel: WheelMemory { turn: d[5], ..m.wheel }, ..m }
    } else if i == 6 {
        Memory { pedals: PedalsMemory { gas: pedal_percent(d[6]) as u8, ..m.pedals }, ..m }
    } else if i == 7 {
        Memory { pedals: PedalsMemory { brake: pedal_percent(d[7]) as u8, ..m.pedals }, ..m }
    } else if i == 8 {
        Memory { pedals: PedalsMemory { clutch: pedal_percent(d[8]) as u8, ..m.pedals }, ..m }
    } else if i == 11 {
        with_gear(m, d)
    } else {
        m
    }
}

/// `m` updated with each of the byte positions `ps` of report `d`, in order.
pub open spec fn with_positions(m: Memory, ps: Seq<usize>, d: Seq<u8>) -> Memory
    decreases ps.len(),
{
    if ps.len() == 0 {
        m
    } else {
        with_position(with_positions(m, ps.drop_last(), d), ps.last(), d)
    }
}

impl Memory {
    /// A memory with every control at 0.
    pub fn new() -> (r: Memory)
        ensures
            r == (Memory {
                wheel: WheelMemory {
                    turn: 0,
                    shift_left: 0,
                    shift_right: 0,
                    dpad: 0,
                    button_x: 0,
                    button_square: 0,
                    button_circle: 0,
                    button_triangle: 0,
                    button_r2: 0,
                    button_l2: 0,
                    button_share: 0,
                    button_option: 0,
                    button_r3: 0,
                    button_l3: 0,
                    button_plus: 0,
                    button_minus: 0,
                    spinner: 0,
                    button_spinner: 0,
                    button_playstation: 0,
                },
                pedals: PedalsMemory { gas: 0, brake: 0, clutch: 0 },
                shifter: ShifterMemory { gear: 0 },
            }),
    {
        Memory {
            wheel: WheelMemory {
                turn: 0,
                shift_left: 0,
                shift_right: 0,
                dpad: 0,
                button_x: 0,
                button_square: 0,
                button_circle: 0,
                button_triangle: 0,
                button_r2: 0,
                button_l2: 0,
                button_share: 0,
                button_option: 0,
                button_r3: 0,
                button_l3: 0,
                button_plus: 0,
                button_minus: 0,
                spinner: 0,
                button_spinner: 0,
                button_playstation: 0,
            },
            pedals: PedalsMemory { gas: 0, brake: 0, clutch: 0 },
            shifter: ShifterMemory { gear: 0 },
        }
    }
}

/// Updates `memory` with the controls of every byte position listed in
/// `data_diff_positions`, taken from report `data`; positions that carry no
/// remembered control are skipped.
pub fn map_data(data_diff_positions: Vec<usize>, data: [u8; 12], memory: &mut Memory)
    ensures
        *final(memory) == with_positions(*old(memory), data_diff_positions@, data@),
{
    for k in 0..data_diff_positions.len()
        invariant
            *memory == with_positions(*old(memory), data_diff_positions@.take(k as int), data@),
    {
        proof {
            assert(data_diff_positions@.take(k + 1).drop_last() =~= data_diff_positions@.take(
                k as int,
            ));
        }
        match data_diff_positions[k] {
            0 => {
                wheel_dpad(data, memory);
                wheel_buttons_symbols(data, memory);
            },
            1 => {
                wheel_shift_pedals(data, memory);
                wheel_buttons(data, memory);
            },
            2 => {
                shifter_gear(data, memory);
                wheel_button_plus(data, memory);
            },
            3 => wheel_spinner_and_buttons(data, memory),
            4 | 5 => wheel_turn(data, memory),
            6 => pedals_gas(data, memory),
            7 => pedals_brake(data, memory),
            8 => pedals_clutch(data, memory),
            11 => shifter_gear(data, memory),
            _ => {},
        }
    }
    proof {
        assert(data_diff_positions@.take(data_diff_positions@.len() as int)
            =~= data_diff_positions@);
    }
}

fn flag_of(b: bool) -> (r: u8)
    ensures
        r == flag(b),
{
    if b {
        1
    } else {
        0
    }
}

fn wheel_button_plus(data: [u8; 12], memory: &mut Memory)
    ensures
        *final(memory) == (Memory {
            wheel: WheelMemory { button_plus: flag(bits_set(data@[2], 128)), ..old(memory).wheel },
            ..*old(memory)
        }),
{
    let d = data[2];
    memory.wheel.button_plus = flag_of(d & 128 == 128);
}

fn wheel_buttons(data: [u8; 12], memory: &mut Memory)
    ensures
        *final(memory) == (Memory {
            wheel: WheelMemory {
                button_r2: flag(bits_set(data@[1], 4)),
                button_l2: flag(bits_set(data@[1], 8)),
                button_share: flag(bits_set(data@[1], 16)),
                button_option: flag(bits_set(data@[1], 32)),
                button_r3: flag(bits_set(data@[1], 64)),
                button_l3: flag(bits_set(data@[1], 128)),
                ..old(memory).wheel
            },
            ..*old(memory)
        }),
{
    let d = data[1];
    memory.wheel.button_r2 = flag_of(d & 4 == 4);
    memory.wheel.button_l2 = flag_of(d & 8 == 8);
    memory.wheel.button_share = flag_of(d & 16 == 16);
    memory.wheel.button_option = flag_of(d & 32 == 32);
    memory.wheel.button_r3 = flag_of(d & 64 == 64);
    memory.wheel.button_l3 = flag_of(d & 128 == 128);
}

fn wheel_buttons_symbols(data: [u8; 12], memory: &mut Memory)
    ensures
        *final(memory) == (Memory {
            wheel: WheelMemory {
                button_x: flag(bits_set(data@[0], 16)),
                button_square: flag(bits_set(data@[0], 32)),
                button_circle: flag(bits_set(data@[0], 64)),
                button_triangle: flag(bits_set(data@[0], 128)),
                ..old(memory).wheel
            },
            ..*old(memory)
        }),
{
    let d = data[0];
    memory.wheel.button_x = flag_of(d & 16 == 16);
    memory.wheel.button_square = flag_of(d & 32 == 32);
    memory.wheel.button_circle = flag_of(d & 64 == 64);
    memory.wheel.button_triangle = flag_of(d & 128 == 128);
}

fn wheel_dpad(data: [u8; 12], memory: &mut Memory)
    ensures
        *final(memory) == (Memory {
            wheel: WheelMemory { dpad: dpad_code(dpad_of(data@[0])), ..old(memory).wheel },
            ..*old(memory)
        }),
{
    memory.wheel.dpad = match dpad(&data) {
        DpadPosition::Center => 0,
        DpadPosition::Up => 1,
        DpadPosition::TopRight => 2,
        DpadPosition::Right => 3,
        DpadPosition::BottomRight => 4,
        DpadPosition::Down => 5,
        DpadPosition::BottomLeft => 6,
        DpadPosition::Left => 7,
        DpadPosition::TopLeft => 8,
    };
}

fn wheel_shift_pedals(data: [u8; 12], memory: &mut Memory)
    ensures
        *final(memory) == (Memory {
            wheel: WheelMemory {
                shift_right: data@[1] & 1u8,
                shift_left: flag(bits_set(data@[1], 2)),
                ..old(memory).wheel
            },
            ..*old(memory)
        }),
{
    let d = data[1];
    memory.wheel.shift_right = d & 1;
    memory.wheel.shift_left = flag_of(d & 2 == 2);
}

fn wheel_spinner_and_buttons(data: [u8; 12], memory: &mut Memory)
    ensures
        *final(memory) == (Memory {
            wheel: WheelMemory {
                button_minus: data@[3] & 1u8,
                spinner: spinner_code(data@[3]),
                button_spinner: flag(bits_set(data@[3], 8)),
                button_playstation: flag(bits_set(data@[3], 16)),
                ..old(memory).wheel
            },
            ..*old(memory)
        }),
{
    let d = data[3];
    memory.wheel.button_minus = d & 1;
    if d & 2 != 0 {
        memory.wheel.spinner = 2;
    } else if d & 4 != 0 {
        memory.wheel.spinner = 1;
    } else {
        memory.wheel.spinner = 0;
    }
    memory.wheel.button_spinner = flag_of(d & 8 == 8);
    memory.wheel.button_playstation = flag_of(d & 16 == 16);
}

fn wheel_turn(data: [u8; 12], memory: &mut Memory)
    ensures
        *final(memory) == (Memory {
            wheel: WheelMemory { turn: data@[5], ..old(memory).wheel },
            ..*old(memory)
        }),
{
    memory.wheel.turn = data[5];
}

fn pedals_brake(data: [u8; 12], memory: &mut Memory)
    ensures
        *final(memory) == (Memory {
            pedals: PedalsMemory { brake: pedal_percent(data@[7]) as u8, ..old(memory).pedals },
            ..*old(memory)
        }),
{
    memory.pedals.brake = pedal_to_percent(data[7]);
}

fn pedals_clutch(data: [u8; 12], memory: &mut Memory)
    ensures
        *final(memory) == (Memory {
            pedals: PedalsMemory { clutch: pedal_percent(data@[8]) as u8, ..old(memory).pedals },
            ..*old(memory)
        }),
{
    memory.pedals.clutch = pedal_to_percent(data[8]);
}

fn pedals_gas(data: [u8; 12], memory: &mut Memory)
    ensures
        *final(memory) == (Memory {
            pedals: PedalsMemory { gas: pedal_percent(data@[6]) as u8, ..old(memory).pedals },
            ..*old(memory)
        }),
{
    memory.pedals.gas = pedal_to_percent(data[6]);
}

fn shifter_gear(data: [u8; 12], memory: &mut Memory)
    ensures
        *final(memory) == with_gear(*old(memory), data@),
{
    memory.shifter.gear = match gear_selector(&data) {
        GearSelector::Neutral => 0,
        GearSelector::First => 1,
        GearSelector::Second => 2,
        GearSelector::Third => 3,
        GearSelector::Fourth => 4,
        GearSelector::Fifth => 5,
        GearSelector::Sixth => 6,
        GearSelector::Reverse => 7,
    };
}

} // verus!
