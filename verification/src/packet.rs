//! Decoding of sample packets.
//!
//! A sample is a block of consecutive registers, read in one go. Its fields
//! are packed: in absolute mode one byte carries the high bits of both
//! coordinates, in relative mode the sign of each delta sits in the first
//! byte, apart from its eight low bits.
use vstd::prelude::*;

verus! {

/// A sample in absolute mode: where the touch is, and how strong.
#[derive(Clone, Copy, Debug, PartialEq, Eq, Structural)]
pub struct AbsoluteData {
    /// Horizontal position. The sensor documents 2047 as its maximum; the
    /// four high bits that are decoded leave room up to 4095.
    pub x: u16,
    /// Vertical position. The sensor documents 1535 as its maximum; the
    /// three high bits that are decoded leave room up to 2047.
    pub y: u16,
    /// Strength of the touch, from 0 to 63; 0 when nothing touches the pad.
    pub z: u8,
    /// State of the six buttons, one bit each.
    pub button_flags: u8,
}

/// The state of the three buttons of a relative sample.
#[derive(Clone, Copy, Debug, PartialEq, Eq, Structural)]
pub struct Buttons {
    /// Primary button, or a tap.
    pub primary: bool,
    /// Secondary button, or a tap in the top right corner.
    pub secondary: bool,
    /// Auxiliary button.
    pub auxiliary: bool,
}

/// A sample in relative mode: how far the touch has moved.
#[derive(Clone, Copy, Debug, PartialEq, Eq, Structural)]
pub struct RelativeData {
    /// Horizontal movement, from -256 to 255.
    pub x: i16,
    /// Vertical movement, from -256 to 255.
    pub y: i16,
    /// Wheel count.
    pub wheel: i8,
    /// State of the buttons.
    pub buttons: Buttons,
}

/// A byte read as a signed number in two's complement.
pub open spec fn signed_byte(byte: u8) -> int {
    if byte < 128 {
        byte as int
    } else {
        byte - 256
    }
}

/// Eight low bits and a sign flag read as a signed nine-bit number.
pub open spec fn signed_delta(low: u8, negative: bool) -> int {
    if negative {
        low - 256
    } else {
        low as int
    }
}

impl AbsoluteData {
    /// Smallest horizontal position.
    pub const X_MIN: u16 = 0;

    /// Smallest vertical position.
    pub const Y_MIN: u16 = 0;

    /// Largest horizontal position that the sensor documents.
    pub const X_MAX: u16 = 2047;

    /// Largest vertical position that the sensor documents.
    pub const Y_MAX: u16 = 1535;

    /// The sample that a block of six packet bytes holds. Byte 2 and the low
    /// nibble of byte 4 make X; byte 3 and bits 4 to 6 of byte 4 make Y; the
    /// six low bits of byte 5 are Z and those of byte 0 the buttons.
    pub open spec fn decode_spec(block: Seq<u8>) -> AbsoluteData
        recommends
            block.len() == 6,
    {
        AbsoluteData {
            x: (block[2] as u16) | (((block[4] & 0x0F) as u16) << 8u16),
            y: (block[3] as u16) | (((block[4] & 0x70) as u16) << 4u16),
            z: block[5] & 0x3F,
            button_flags: block[0] & 0x3F,
        }
    }

    /// Decodes a block of six packet bytes. Besides the bit layout, the
    /// result is given as plain arithmetic: the high bits count in units of
    /// 256.
    pub fn decode(block: &[u8; 6]) -> (sample: AbsoluteData)
        ensures
            sample == Self::decode_spec(block@),
            sample.x == block@[2] + 256 * (block@[4] % 16),
            sample.y == block@[3] + 256 * ((block@[4] / 16) % 8),
            sample.z == block@[5] % 64,
            sample.button_flags == block@[0] % 64,
            sample.x <= 4095,
            sample.y <= 2047,
            sample.z <= 63,
            sample.button_flags <= 63,
    {
        let b0 = block[0];
        let b2 = block[2];
        let b3 = block[3];
        let b4 = block[4];
        let b5 = block[5];
        let x: u16 = (b2 as u16) | (((b4 & 0x0F) as u16) << 8);
        let y: u16 = (b3 as u16) | (((b4 & 0x70) as u16) << 4);
        assert(x == b2 + 256 * (b4 % 16) && y == b3 + 256 * ((b4 / 16) % 8)) by (bit_vector)
            requires
                x == (b2 as u16) | (((b4 & 0x0F) as u16) << 8u16),
                y == (b3 as u16) | (((b4 & 0x70) as u16) << 4u16),
        ;
        assert(b5 & 0x3F == b5 % 64 && b0 & 0x3F == b0 % 64) by (bit_vector);
        AbsoluteData { x, y, z: b5 & 0x3F, button_flags: b0 & 0x3F }
    }

    /// Whether anything touches the pad.
    pub fn touched(&self) -> (t: bool)
        ensures
            t == (self.z != 0),
    {
        self.z != 0
    }
}

impl Buttons {
    /// The buttons that the first packet byte reports in its bits 0, 1 and 2.
    pub open spec fn decode_spec(byte: u8) -> Buttons {
        Buttons {
            primary: byte & 0x01 != 0,
            secondary: byte & 0x02 != 0,
            auxiliary: byte & 0x04 != 0,
        }
    }

    /// Decodes the buttons from the first packet byte.
    pub fn decode(byte: u8) -> (buttons: Buttons)
        ensures
            buttons == Self::decode_spec(byte),
    {
        Buttons {
            primary: byte & 0x01 != 0,
            secondary: byte & 0x02 != 0,
            auxiliary: byte & 0x04 != 0,
        }
    }
}

impl RelativeData {
    /// The sample that a block of four packet bytes holds. Bytes 1 and 2 are
    /// the low bits of the X and Y deltas, bits 4 and 5 of byte 0 their
    /// signs; byte 3 is the wheel count in two's complement; bits 0 to 2 of
    /// byte 0 are the buttons.
    pub open spec fn decode_spec(block: Seq<u8>) -> RelativeData
        recommends
            block.len() == 4,
    {
        RelativeData {
            x: signed_delta(block[1], block[0] & 0x10 != 0) as i16,
            y: signed_delta(block[2], block[0] & 0x20 != 0) as i16,
            wheel: signed_byte(block[3]) as i8,
            buttons: Buttons::decode_spec(block[0]),
        }
    }

    /// Decodes a block of four packet bytes.
    pub fn decode(block: &[u8; 4]) -> (sample: RelativeData)
        ensures
            sample == Self::decode_spec(block@),
            sample.x == signed_delta(block@[1], block@[0] & 0x10 != 0),
            sample.y == signed_delta(block@[2], block@[0] & 0x20 != 0),
            sample.wheel == signed_byte(block@[3]),
            -256 <= sample.x <= 255,
            -256 <= sample.y <= 255,
    {
        let b0 = block[0];
        let b3 = block[3];
        let mut x: i16 = block[1] as i16;
        let mut y: i16 = block[2] as i16;
        if (b0 & 0x10) > 0 {
            x = x - 256;
        }
        if (b0 & 0x20) > 0 {
            y = y - 256;
        }
        let wheel: i8 = #[verifier::truncate]
        (b3 as i8);
        assert(wheel == signed_byte(b3)) by {
            assert(b3 < 128 ==> (b3 as i8) == b3) by (bit_vector);
            assert(b3 >= 128 ==> (b3 as i8) == b3 - 256) by (bit_vector);
        }
        RelativeData { x, y, wheel, buttons: Buttons::decode(b0) }
    }
}

} // verus!
