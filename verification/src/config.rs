//! Calibration options and the flags that both reporting modes share.
use vstd::prelude::*;
use crate::laws::{law_calibration_round_trip, law_config_overrides_common_flags};

verus! {

/// The value of a flag as one bit.
pub open spec fn bit(flag: bool) -> u8 {
    if flag {
        1
    } else {
        0
    }
}

/// The value of a flag as one bit.
pub fn bit_of(flag: bool) -> (b: u8)
    ensures
        b == bit(flag),
        b <= 1,
{
    if flag {
        1
    } else {
        0
    }
}

/// The calibration byte that is written when a sensor is initialised with
/// calibration.
pub const INIT_CALIBRATION: u8 = 0x1F;

/// The bits of the first feed register that the common flags decide.
pub const COMMON_FLAGS_MASK: u8 = 0x1C;

/// The flags that both reporting modes share, and whether the sensor is
/// calibrated when it is initialised.
#[derive(Clone, Copy, Debug, PartialEq, Eq, Structural)]
pub struct Config {
    /// Report the X axis.
    pub x: bool,
    /// Report the Y axis.
    pub y: bool,
    /// Apply the hardware filter to the data.
    pub filter: bool,
    /// Run a calibration while the sensor is initialised.
    pub calibrate: bool,
}

impl Config {
    /// The first feed register for these flags and a mode whose own first
    /// feed register is `mode_byte`: the feed is enabled, bits 2, 3 and 4 are
    /// the opposites of the filter, X and Y flags, and every other bit is
    /// that of `mode_byte`.
    pub open spec fn feed_config1_spec(&self, mode_byte: u8) -> u8 {
        (mode_byte & !COMMON_FLAGS_MASK) | 1u8 | bit(!self.y) << 4u8 | bit(!self.x) << 3u8 | bit(
            !self.filter,
        ) << 2u8
    }

    /// Composes the first feed register for these flags and a mode whose own
    /// first feed register is `mode_byte`.
    pub fn feed_config1(&self, mode_byte: u8) -> (byte: u8)
        ensures
            byte == self.feed_config1_spec(mode_byte),
            (byte & 0x04 != 0) == !self.filter,
            (byte & 0x08 != 0) == !self.x,
            (byte & 0x10 != 0) == !self.y,
            byte & 0x01 == 0x01,
            byte & 0xE2 == mode_byte & 0xE2,
            byte == (mode_byte & 0xE2) + 1 + 4 * bit(!self.filter) + 8 * bit(!self.x) + 16 * bit(
                !self.y,
            ),
    {
        let ny = bit_of(!self.y);
        let nx = bit_of(!self.x);
        let nf = bit_of(!self.filter);
        proof {
            law_config_overrides_common_flags(*self, mode_byte);
        }
        (mode_byte & !COMMON_FLAGS_MASK) | 1 | ny << 4 | nx << 3 | nf << 2
    }
}

impl Default for Config {
    /// Both axes and the filter are on; no calibration.
    fn default() -> (c: Self)
        ensures
            c == (Config { x: true, y: true, filter: true, calibrate: false }),
    {
        Config { x: true, y: true, filter: true, calibrate: false }
    }
}

/// Compensations that a calibration run applies.
#[derive(Clone, Copy, Debug, PartialEq, Eq, Structural)]
pub struct Calibration {
    /// Background compensation.
    pub background_comp: bool,
    /// NERD compensation.
    pub nerd_comp: bool,
    /// Track error compensation.
    pub track_error_comp: bool,
    /// Tap compensation.
    pub tap_comp: bool,
    /// Palm error compensation.
    pub palm_error_comp: bool,
    /// Use the calibration matrix. The register holds the opposite: its bit
    /// is set to switch the matrix off.
    pub calibration_matrix: bool,
    /// Check for noise before calibrating.
    pub force_precalibration_noise_check: bool,
}

impl Calibration {
    /// The byte that starts a calibration run with these options: bit 0
    /// starts the run, bits 1 to 5 and 7 enable a compensation each, and bit 6
    /// disables the calibration matrix.
    pub open spec fn config_byte_spec(&self) -> u8 {
        1u8 | bit(self.background_comp) << 1u8 | bit(self.nerd_comp) << 2u8 | bit(
            self.track_error_comp,
        ) << 3u8 | bit(self.tap_comp) << 4u8 | bit(self.palm_error_comp) << 5u8 | bit(
            !self.calibration_matrix,
        ) << 6u8 | bit(self.force_precalibration_noise_check) << 7u8
    }

    /// The options that a calibration register holding `byte` stands for.
    pub open spec fn from_config_byte_spec(byte: u8) -> Calibration {
        Calibration {
            background_comp: byte & 0x02 != 0,
            nerd_comp: byte & 0x04 != 0,
            track_error_comp: byte & 0x08 != 0,
            tap_comp: byte & 0x10 != 0,
            palm_error_comp: byte & 0x20 != 0,
            calibration_matrix: byte & 0x40 == 0,
            force_precalibration_noise_check: byte & 0x80 != 0,
        }
    }

    /// Composes the byte that starts a calibration run with these options.
    pub fn config_byte(&self) -> (byte: u8)
        ensures
            byte == self.config_byte_spec(),
            byte & 0x01 == 0x01,
            Self::from_config_byte_spec(byte) == *self,
            byte == 1 + 2 * bit(self.background_comp) + 4 * bit(self.nerd_comp) + 8 * bit(
                self.track_error_comp,
            ) + 16 * bit(self.tap_comp) + 32 * bit(self.palm_error_comp) + 64 * bit(
                !self.calibration_matrix,
            ) + 128 * bit(self.force_precalibration_noise_check),
    {
        let b1 = bit_of(self.background_comp);
        let b2 = bit_of(self.nerd_comp);
        let b3 = bit_of(self.track_error_comp);
        let b4 = bit_of(self.tap_comp);
        let b5 = bit_of(self.palm_error_comp);
        let b6 = bit_of(!self.calibration_matrix);
        let b7 = bit_of(self.force_precalibration_noise_check);
        proof {
            law_calibration_round_trip(*self);
        }
        1 | b1 << 1 | b2 << 2 | b3 << 3 | b4 << 4 | b5 << 5 | b6 << 6 | b7 << 7
    }
}

impl Calibration {
    /// The options of the calibration that runs when a sensor is
    /// initialised: the background, NERD, track error and tap compensations,
    /// with the calibration matrix and without the noise check. They compose
    /// to `0b1_1111`.
    pub fn at_init() -> (c: Self)
        ensures
            c == (Calibration {
                background_comp: true,
                nerd_comp: true,
                track_error_comp: true,
                tap_comp: true,
                palm_error_comp: false,
                calibration_matrix: true,
                force_precalibration_noise_check: false,
            }),
            c.config_byte_spec() == INIT_CALIBRATION,
    {
        proof {
            law_calibration_round_trip(
                Calibration {
                    background_comp: true,
                    nerd_comp: true,
                    track_error_comp: true,
                    tap_comp: true,
                    palm_error_comp: false,
                    calibration_matrix: true,
                    force_precalibration_noise_check: false,
                },
            );
        }
        Calibration {
            background_comp: true,
            nerd_comp: true,
            track_error_comp: true,
            tap_comp: true,
            palm_error_comp: false,
            calibration_matrix: true,
            force_precalibration_noise_check: false,
        }
    }
}

impl Default for Calibration {
    /// The calibration matrix and the noise check are on, every
    /// compensation is off.
    fn default() -> (c: Self)
        ensures
            c == (Calibration {
                background_comp: false,
                nerd_comp: false,
                track_error_comp: false,
                tap_comp: false,
                palm_error_comp: false,
                calibration_matrix: true,
                force_precalibration_noise_check: true,
            }),
    {
        Calibration {
            background_comp: false,
            nerd_comp: false,
            track_error_comp: false,
            tap_comp: false,
            palm_error_comp: false,
            calibration_matrix: true,
            force_precalibration_noise_check: true,
        }
    }
}

} // verus!
