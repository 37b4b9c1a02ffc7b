//! The register map of the sensor.
use vstd::prelude::*;

verus! {

/// A register of the sensor. The set is closed: every variant has a fixed
/// address that fits the five address bits of a command byte.
#[derive(Clone, Copy, Debug, PartialEq, Eq, Structural)]
pub enum Register {
    /// Firmware ASIC id.
    FirmwareId,
    /// Firmware revision number.
    FirmwareVersion,
    /// Status flags.
    Status1,
    /// System operation and power mode bits.
    SysConfig1,
    /// Feed operation and configuration bits, first byte.
    FeedConfig1,
    /// Feed operation and configuration bits, second byte.
    FeedConfig2,
    /// Calibration configuration bits.
    CalConfig1,
    /// Number of samples generated per second.
    SampleRate,
    /// Number of empty packets sent once a touch has lifted.
    ZIdle,
    /// Pen Z-on threshold.
    ZScaler,
    /// Sleep interval.
    SleepInterval,
    /// Sleep timer.
    SleepTimer,
    /// First byte of the sample packet.
    PacketByte0,
    /// Product id.
    ProductId,
}

impl Register {
    /// The address of the register on the device.
    pub open spec fn addr(self) -> u8 {
        match self {
            Register::FirmwareId => 0x00,
            Register::FirmwareVersion => 0x01,
            Register::Status1 => 0x02,
            Register::SysConfig1 => 0x03,
            Register::FeedConfig1 => 0x04,
            Register::FeedConfig2 => 0x05,
            Register::CalConfig1 => 0x07,
            Register::SampleRate => 0x09,
            Register::ZIdle => 0x0A,
            Register::ZScaler => 0x0B,
            Register::SleepInterval => 0x0C,
            Register::SleepTimer => 0x0D,
            Register::PacketByte0 => 0x12,
            Register::ProductId => 0x1F,
        }
    }

    /// The address of the register on the device; it never exceeds 31.
    pub fn address(self) -> (a: u8)
        ensures
            a == self.addr(),
            a <= 0x1F,
    {
        match self {
            Register::FirmwareId => 0x00,
            Register::FirmwareVersion => 0x01,
            Register::Status1 => 0x02,
            Register::SysConfig1 => 0x03,
            Register::FeedConfig1 => 0x04,
            Register::FeedConfig2 => 0x05,
            Register::CalConfig1 => 0x07,
            Register::SampleRate => 0x09,
            Register::ZIdle => 0x0A,
            Register::ZScaler => 0x0B,
            Register::SleepInterval => 0x0C,
            Register::SleepTimer => 0x0D,
            Register::PacketByte0 => 0x12,
            Register::ProductId => 0x1F,
        }
    }
}

} // verus!
