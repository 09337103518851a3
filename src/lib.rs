//! Decoding, change detection and event dispatch for the input reports of a
//! Logitech G29 steering wheel.

use vstd::prelude::*;

pub mod data_map;
pub mod device;
pub mod events;
pub mod session;
pub mod state;

verus! {

/// One input report of the wheel: twelve bytes, each addressed by position.
pub type Frame = [u8; 12];

/// Position of the directional pad.
#[derive(Debug, PartialEq, Eq, Structural, Clone, Copy, Hash)]
pub enum DpadPosition {
    Up,
    TopRight,
    Right,
    BottomRight,
    Down,
    BottomLeft,
    Left,
    TopLeft,
    Center,
}

/// Gear selected on the shifter.
#[derive(Debug, PartialEq, Eq, Structural, Clone, Copy, Hash)]
pub enum GearSelector {
    Neutral,
    First,
    Second,
    Third,
    Fourth,
    Fifth,
    Sixth,
    Reverse,
}

/// LED lights on the wheel's rev indicator; `Other` holds any combination
/// as a bit mask.
#[derive(Debug, PartialEq, Eq, Structural, Clone, Copy)]
pub enum Led {
    Off,
    GreenOne,
    GreenTwo,
    OrangeOne,
    OrangeTwo,
    Red,
    All,
    Other(u8),
}

impl Led {
    /// The bit mask that lights these LEDs.
    pub open spec fn bits(self) -> u8 {
        match self {
            Led::Off => 0x00,
            Led::GreenOne => 0x01,
            Led::GreenTwo => 0x02,
            Led::OrangeOne => 0x04,
            Led::OrangeTwo => 0x08,
            Led::Red => 0x10,
            Led::All => 0x1f,
            Led::Other(val) => val,
        }
    }

    /// The LEDs lit by both `self` and `other`.
    pub open spec fn union(self, other: Led) -> Led {
        if self == Led::Off {
            other
        } else if other == Led::Off {
            self
        } else {
            Led::Other(self.bits() | other.bits())
        }
    }

    /// The bit mask that lights these LEDs.
    pub fn as_u8(&self) -> (r: u8)
        ensures
            r == self.bits(),
    {
        match self {
            Led::Off => 0x00,
            Led::GreenOne => 0x01,
            Led::GreenTwo => 0x02,
            Led::OrangeOne => 0x04,
            Led::OrangeTwo => 0x08,
            Led::Red => 0x10,
            Led::All => 0x1f,
            Led::Other(val) => *val,
        }
    }
}

impl core::ops::BitOr for Led {
    type Output = Led;

    fn bitor(self, other: Led) -> (r: Led)
        ensures
            r == self.union(other),
    {
        match (self, other) {
            (Led::Off, _) => other,
            (_, Led::Off) => self,
            _ => Led::Other(self.as_u8() | other.as_u8()),
        }
    }
}

impl vstd::std_specs::ops::BitOrSpecImpl for Led {
    open spec fn obeys_bitor_spec() -> bool {
        true
    }

    open spec fn bitor_req(self, rhs: Led) -> bool {
        true
    }

    open spec fn bitor_spec(self, rhs: Led) -> Led {
        self.union(rhs)
    }
}

/// Settings applied when the wheel starts listening.
#[derive(Debug, PartialEq, Eq, Clone, Copy, Hash)]
pub struct Options {
    /// Print diagnostics.
    pub debug: bool,
    /// Rotation range in degrees, 40 to 900.
    pub range: u16,
    /// Auto-center force and turning multiplier.
    pub auto_center: [u8; 2],
    /// Whether the wheel centres itself.
    pub auto_center_enabled: bool,
}

impl Default for Options {
    fn default() -> (r: Options)
        ensures
            r == (Options {
                debug: false,
                range: 900,
                auto_center: [0x07, 0xff],
                auto_center_enabled: true,
            }),
    {
        Options { auto_center: [0x07, 0xff], debug: false, range: 900, auto_center_enabled: true }
    }
}

} // verus!
