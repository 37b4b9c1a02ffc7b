//! The two reporting modes: the flags of each, and the feed registers that
//! the flags compose to.
//!
//! Several bits of the feed registers switch a feature *off*, while the flags
//! here switch it *on*: the composer inverts each of them.
use vstd::prelude::*;
use crate::config::{bit, bit_of};
use crate::laws::{law_absolute_feed_config1_bits, law_relative_feed_config2_bits};

verus! {

/// A reporting mode. Its flags decide the two feed registers.
pub trait Mode {
    /// The first feed register: bit 0 enables the feed, bit 1 selects
    /// absolute reporting, bits 2, 3 and 4 disable the filter, the X axis and
    /// the Y axis, bit 6 inverts Y and bit 7 inverts X.
    spec fn feed_config1_spec(&self) -> u8;

    /// The second feed register.
    spec fn feed_config2_spec(&self) -> u8;

    /// Composes the first feed register.
    fn feed_config1(&self) -> (byte: u8)
        ensures
            byte == self.feed_config1_spec(),
    ;

    /// Composes the second feed register.
    fn feed_config2(&self) -> (byte: u8)
        ensures
            byte == self.feed_config2_spec(),
    ;
}

/// Relative reporting: the sensor reports movement, as a mouse does.
#[derive(Clone, Copy, Debug, PartialEq, Eq, Structural)]
pub struct Relative {
    /// Report the X axis.
    pub x: bool,
    /// Report the Y axis.
    pub y: bool,
    /// Apply the hardware filter to the data.
    pub filter: bool,
    /// Swap X and Y.
    pub swap_x_y: bool,
    /// Let a drag go on after the finger was lifted at an edge.
    pub glide_extend: bool,
    /// Report scrolling.
    pub scroll: bool,
    /// Let a tap in the upper right corner act as the secondary button.
    pub secondary_tap: bool,
    /// Report taps. Without it secondary taps are off as well.
    pub taps: bool,
    /// Report a fourth packet byte that holds the wheel count.
    pub intellimouse: bool,
}

/// Absolute reporting: the sensor reports the position of the touch.
#[derive(Clone, Copy, Debug, PartialEq, Eq, Structural)]
pub struct Absolute {
    /// Report the X axis.
    pub x: bool,
    /// Report the Y axis.
    pub y: bool,
    /// Apply the hardware filter to the data.
    pub filter: bool,
    /// Invert the X count.
    pub invert_x: bool,
    /// Invert the Y count.
    pub invert_y: bool,
}

/// The bits of the first feed register that both modes share: the feed is
/// enabled, and each of the three flags clears the bit that would disable its
/// feature.
pub open spec fn common_feed_bits(x: bool, y: bool, filter: bool) -> u8 {
    1u8 | bit(!y) << 4u8 | bit(!x) << 3u8 | bit(!filter) << 2u8
}

/// In the shared bits of the first feed register, bit 0 is set, bits 2, 3
/// and 4 are the opposites of the filter, X and Y flags, and no other bit is
/// set.
pub proof fn lemma_common_feed_bits(x: bool, y: bool, filter: bool)
    ensures
        (common_feed_bits(x, y, filter) & 0x04 != 0) == !filter,
        (common_feed_bits(x, y, filter) & 0x08 != 0) == !x,
        (common_feed_bits(x, y, filter) & 0x10 != 0) == !y,
        common_feed_bits(x, y, filter) & 0x01 == 0x01,
        common_feed_bits(x, y, filter) & 0xE2 == 0,
        common_feed_bits(x, y, filter) == 1 + 4 * bit(!filter) + 8 * bit(!x) + 16 * bit(!y),
{
    let ny = bit(!y);
    let nx = bit(!x);
    let nf = bit(!filter);
    let byte = common_feed_bits(x, y, filter);
    assert((byte & 0x04 != 0) == (nf == 1) && (byte & 0x08 != 0) == (nx == 1) && (byte & 0x10 != 0)
        == (ny == 1) && byte & 0x01 == 0x01 && byte & 0xE2 == 0 && byte == 1 + 4 * nf + 8 * nx
        + 16 * ny) by (bit_vector)
        requires
            ny <= 1 && nx <= 1 && nf <= 1,
            byte == 1u8 | ny << 4u8 | nx << 3u8 | nf << 2u8,
    ;
}

/// The second feed register in absolute mode: every relative feature is off.
pub const ABSOLUTE_FEED_CONFIG2: u8 = 0x1F;

impl Relative {
    /// The flags that the two feed registers stand for.
    pub open spec fn from_registers_spec(feed_config1: u8, feed_config2: u8) -> Relative {
        Relative {
            x: feed_config1 & 0x08 == 0,
            y: feed_config1 & 0x10 == 0,
            filter: feed_config1 & 0x04 == 0,
            swap_x_y: feed_config2 & 0x80 != 0,
            glide_extend: feed_config2 & 0x10 == 0,
            scroll: feed_config2 & 0x08 == 0,
            secondary_tap: feed_config2 & 0x04 == 0,
            taps: feed_config2 & 0x02 == 0,
            intellimouse: feed_config2 & 0x01 != 0,
        }
    }

    /// Reads the flags back from the two feed registers.
    pub fn from_registers(feed_config1: u8, feed_config2: u8) -> (flags: Relative)
        ensures
            flags == Self::from_registers_spec(feed_config1, feed_config2),
    {
        Relative {
            x: feed_config1 & 0x08 == 0,
            y: feed_config1 & 0x10 == 0,
            filter: feed_config1 & 0x04 == 0,
            swap_x_y: feed_config2 & 0x80 != 0,
            glide_extend: feed_config2 & 0x10 == 0,
            scroll: feed_config2 & 0x08 == 0,
            secondary_tap: feed_config2 & 0x04 == 0,
            taps: feed_config2 & 0x02 == 0,
            intellimouse: feed_config2 & 0x01 != 0,
        }
    }
}

impl Mode for Relative {
    open spec fn feed_config1_spec(&self) -> u8 {
        common_feed_bits(self.x, self.y, self.filter)
    }

    open spec fn feed_config2_spec(&self) -> u8 {
        bit(self.swap_x_y) << 7u8 | bit(!self.glide_extend) << 4u8 | bit(!self.scroll) << 3u8
            | bit(!self.secondary_tap) << 2u8 | bit(!self.taps) << 1u8 | bit(self.intellimouse)
    }

    /// Bit 0 is set, bit 1 is clear, and bits 2, 3 and 4 are the opposites
    /// of the filter, X and Y flags.
    fn feed_config1(&self) -> (byte: u8)
        ensures
            (byte & 0x04 != 0) == !self.filter,
            (byte & 0x08 != 0) == !self.x,
            (byte & 0x10 != 0) == !self.y,
            byte & 0x01 == 0x01,
            byte & 0xE2 == 0,
            byte == 1 + 4 * bit(!self.filter) + 8 * bit(!self.x) + 16 * bit(!self.y),
    {
        let ny = bit_of(!self.y);
        let nx = bit_of(!self.x);
        let nf = bit_of(!self.filter);
        proof {
            lemma_common_feed_bits(self.x, self.y, self.filter);
        }
        let byte: u8 = 1 | ny << 4 | nx << 3 | nf << 2;
        byte
    }

    /// Bits 7 and 0 are the swap and intellimouse flags; bits 4, 3, 2 and 1
    /// are the opposites of the glide-extend, scroll, secondary-tap and taps
    /// flags.
    fn feed_config2(&self) -> (byte: u8)
        ensures
            Relative::from_registers_spec(self.feed_config1_spec(), byte) == *self,
            byte & 0x60 == 0,
            byte == 128 * bit(self.swap_x_y) + 16 * bit(!self.glide_extend) + 8 * bit(
                !self.scroll,
            ) + 4 * bit(!self.secondary_tap) + 2 * bit(!self.taps) + bit(self.intellimouse),
    {
        let sw = bit_of(self.swap_x_y);
        let ng = bit_of(!self.glide_extend);
        let ns = bit_of(!self.scroll);
        let nt = bit_of(!self.secondary_tap);
        let na = bit_of(!self.taps);
        let im = bit_of(self.intellimouse);
        proof {
            lemma_common_feed_bits(self.x, self.y, self.filter);
            law_relative_feed_config2_bits(*self);
        }
        sw << 7 | ng << 4 | ns << 3 | nt << 2 | na << 1 | im
    }
}

impl Absolute {
    /// The flags that the first feed register stands for.
    pub open spec fn from_register_spec(feed_config1: u8) -> Absolute {
        Absolute {
            x: feed_config1 & 0x08 == 0,
            y: feed_config1 & 0x10 == 0,
            filter: feed_config1 & 0x04 == 0,
            invert_x: feed_config1 & 0x80 != 0,
            invert_y: feed_config1 & 0x40 != 0,
        }
    }

    /// Reads the flags back from the first feed register.
    pub fn from_register(feed_config1: u8) -> (flags: Absolute)
        ensures
            flags == Self::from_register_spec(feed_config1),
    {
        Absolute {
            x: feed_config1 & 0x08 == 0,
            y: feed_config1 & 0x10 == 0,
            filter: feed_config1 & 0x04 == 0,
            invert_x: feed_config1 & 0x80 != 0,
            invert_y: feed_config1 & 0x40 != 0,
        }
    }
}

impl Mode for Absolute {
    open spec fn feed_config1_spec(&self) -> u8 {
        common_feed_bits(self.x, self.y, self.filter) | bit(self.invert_y) << 6u8 | bit(
            self.invert_x,
        ) << 7u8 | 0x02u8
    }

    open spec fn feed_config2_spec(&self) -> u8 {
        ABSOLUTE_FEED_CONFIG2
    }

    /// Bits 0 and 1 are set, bits 2, 3 and 4 are the opposites of the
    /// filter, X and Y flags, bit 6 is the invert-Y flag and bit 7 the
    /// invert-X flag.
    fn feed_config1(&self) -> (byte: u8)
        ensures
            (byte & 0x04 != 0) == !self.filter,
            (byte & 0x08 != 0) == !self.x,
            (byte & 0x10 != 0) == !self.y,
            (byte & 0x40 != 0) == self.invert_y,
            (byte & 0x80 != 0) == self.invert_x,
            byte & 0x03 == 0x03,
            byte & 0x20 == 0,
            Absolute::from_register_spec(byte) == *self,
            byte == 3 + 4 * bit(!self.filter) + 8 * bit(!self.x) + 16 * bit(!self.y) + 64 * bit(
                self.invert_y,
            ) + 128 * bit(self.invert_x),
    {
        let ny = bit_of(!self.y);
        let nx = bit_of(!self.x);
        let nf = bit_of(!self.filter);
        let iy = bit_of(self.invert_y);
        let ix = bit_of(self.invert_x);
        proof {
            law_absolute_feed_config1_bits(*self);
        }
        1 | ny << 4 | nx << 3 | nf << 2 | iy << 6 | ix << 7 | 0x02
    }

    /// Always `0b11111`: every relative feature is switched off.
    fn feed_config2(&self) -> (byte: u8) {
        ABSOLUTE_FEED_CONFIG2
    }
}

impl Default for Absolute {
    /// Every flag is off.
    fn default() -> (flags: Self)
        ensures
            flags == (Absolute {
                x: false,
                y: false,
                filter: false,
                invert_x: false,
                invert_y: false,
            }),
    {
        Absolute { x: false, y: false, filter: false, invert_x: false, invert_y: false }
    }
}

} // verus!
