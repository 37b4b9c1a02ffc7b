//! The values of the device state that the host reads and writes: the power
//! mode and the status flags.
use vstd::prelude::*;
use crate::laws::law_power_mode_round_trip;

verus! {

/// Bit of the system register that puts the sensor to sleep.
pub const SLEEP_BIT: u8 = 0x04;

/// Bit of the system register that shuts the sensor down.
pub const SHUTDOWN_BIT: u8 = 0x02;

/// Bit of the status register that reports a completed command.
pub const COMMAND_COMPLETE_BIT: u8 = 0x08;

/// Bit of the status register that reports new data.
pub const DATA_READY_BIT: u8 = 0x04;

/// The power mode of the sensor.
#[derive(Clone, Copy, Debug, PartialEq, Eq, Structural)]
pub enum PowerMode {
    /// The sensor measures while it is touched and idles in between.
    Active,
    /// The sensor drops to low power after some seconds without a touch and
    /// wakes up when it is touched.
    Sleep,
    /// The sensor does not track touches at all.
    Shutdown,
}

impl PowerMode {
    /// The value of the system register that selects this mode.
    pub open spec fn bits_spec(self) -> u8 {
        match self {
            PowerMode::Active => 0,
            PowerMode::Sleep => SLEEP_BIT,
            PowerMode::Shutdown => SHUTDOWN_BIT,
        }
    }

    /// The mode that a system register holding `byte` stands for: shutdown
    /// if its bit is set, whatever else is; else sleep if that bit is set;
    /// else active.
    pub open spec fn from_bits_spec(byte: u8) -> PowerMode {
        if byte & SHUTDOWN_BIT != 0 {
            PowerMode::Shutdown
        } else if byte & SLEEP_BIT != 0 {
            PowerMode::Sleep
        } else {
            PowerMode::Active
        }
    }

    /// The value of the system register that selects this mode. Decoding it
    /// gives the mode back.
    pub fn bits(self) -> (byte: u8)
        ensures
            byte == self.bits_spec(),
            Self::from_bits_spec(byte) == self,
    {
        proof {
            law_power_mode_round_trip(self);
        }
        match self {
            PowerMode::Active => 0,
            PowerMode::Sleep => SLEEP_BIT,
            PowerMode::Shutdown => SHUTDOWN_BIT,
        }
    }

    /// Decodes the system register. The shutdown bit is looked at first, so
    /// a register that holds both bits reads as shutdown.
    pub fn from_bits(byte: u8) -> (mode: PowerMode)
        ensures
            mode == Self::from_bits_spec(byte),
            byte & SHUTDOWN_BIT != 0 ==> mode == PowerMode::Shutdown,
    {
        if byte & SHUTDOWN_BIT != 0 {
            PowerMode::Shutdown
        } else if byte & SLEEP_BIT != 0 {
            PowerMode::Sleep
        } else {
            PowerMode::Active
        }
    }
}

/// The two flags of the status register. Both stay set until the host
/// clears them, and one write clears both.
#[derive(Clone, Copy, Debug, PartialEq, Eq, Structural)]
pub struct Status {
    /// A command, such as a calibration or the power-on reset, has completed.
    pub command_complete: bool,
    /// A new sample is ready.
    pub data_ready: bool,
}

impl Status {
    /// The flags that a status register holding `byte` stands for.
    pub open spec fn from_byte_spec(byte: u8) -> Status {
        Status {
            command_complete: byte & COMMAND_COMPLETE_BIT != 0,
            data_ready: byte & DATA_READY_BIT != 0,
        }
    }

    /// Decodes the status register.
    pub fn from_byte(byte: u8) -> (status: Status)
        ensures
            status == Self::from_byte_spec(byte),
    {
        Status {
            command_complete: byte & COMMAND_COMPLETE_BIT != 0,
            data_ready: byte & DATA_READY_BIT != 0,
        }
    }
}

} // verus!
