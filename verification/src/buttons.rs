//! The button-state bitmask: a 16-bit big-endian value read as a 2-byte
//! report from the HID interface. The high byte carries the six soft buttons
//! and the left rotary, the low byte the directional pad and the right
//! rotary. Reserved bits are kept and ignored, never rejected.

use vstd::prelude::*;

verus! {

pub const S1: u16 = 0x0100;

pub const S2: u16 = 0x0200;

pub const S3: u16 = 0x0400;

pub const S4: u16 = 0x0800;

pub const S5: u16 = 0x1000;

pub const S6: u16 = 0x2000;

pub const LEFT_ANTICLOCKWISE: u16 = 0x4000;

pub const LEFT_CLOCKWISE: u16 = 0x8000;

pub const UP: u16 = 0x0001;

pub const DOWN: u16 = 0x0002;

pub const RIGHT_ANTICLOCKWISE: u16 = 0x0004;

pub const RIGHT_CLOCKWISE: u16 = 0x0008;

/// The decoded button state: the full 16-bit mask, reserved bits included.
#[derive(Clone, Copy, PartialEq, Eq, Structural, Debug)]
pub struct Buttons {
    pub bits: u16,
}

impl Buttons {
    /// Decodes one 2-byte big-endian HID report.
    pub fn from_report(report: &[u8; 2]) -> (b: Buttons)
        ensures
            b.bits == report@[0] * 256 + report@[1],
    {
        let hi: u8 = report[0];
        let lo: u8 = report[1];
        let bits: u16 = ((hi as u16) << 8) | (lo as u16);
        proof {
            assert(bits == hi * 256 + lo) by (bit_vector)
                requires
                    bits == ((hi as u16) << 8) | (lo as u16),
            ;
        }
        Buttons { bits }
    }

    /// Whether every button of the mask is currently pressed.
    pub open spec fn spec_pressed(self, mask: u16) -> bool {
        self.bits & mask == mask
    }

    /// Tests the state against a mask: true when every bit of the mask is
    /// set. Reserved bits outside the mask are ignored.
    pub fn pressed(&self, mask: u16) -> (r: bool)
        ensures
            r == self.spec_pressed(mask),
    {
        self.bits & mask == mask
    }

    /// Whether no button at all is pressed; reserved bits are ignored.
    pub fn none_pressed(&self) -> (r: bool)
        ensures
            r == (self.bits & 0xff0f == 0),
    {
        self.bits & 0xff0f == 0
    }
}

} // verus!
