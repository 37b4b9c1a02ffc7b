//! Driver logic for the Cirque Pinnacle capacitive touch sensor on a
//! synchronous full-duplex serial bus.
//!
//! The crate follows the layers of the device protocol:
//!
//! * [`register`] names the registers of the sensor,
//! * [`frame`] builds the byte frames that read and write them,
//! * [`mode`] holds the flags of the two reporting modes and composes the
//!   feed registers from them,
//! * [`config`] holds the calibration options and the flags that both modes
//!   share,
//! * [`packet`] decodes sample packets,
//! * [`state`] encodes the power mode and decodes the status flags,
//! * [`bus`] is the transport that the driver talks through, and the record
//!   of what was exchanged over it,
//! * [`touchpad`] is the device handle,
//! * [`init`] brings a sensor up, on a handle or together with making one,
//!   and [`builder`] collects the settings for it one by one,
//! * [`laws`] states what holds across several of the above.
//!
//! Nothing here touches hardware: the handle is generic over a [`Bus`], and
//! every contract speaks of the transactions that the handle asked of it.
pub mod builder;
pub mod bus;
pub mod config;
pub mod frame;
pub mod init;
pub mod laws;
pub mod mode;
pub mod packet;
pub mod register;
pub mod state;
pub mod touchpad;

pub use builder::{PinnacleTouchpadBuilder, Settings};
pub use bus::{Bus, Exchange, Request};
pub use config::{bit_of, Calibration, Config, COMMON_FLAGS_MASK, INIT_CALIBRATION};
pub use frame::{
    block_fill, block_header, read_command, read_frame, write_command, write_frame, ADDR_MASK,
    READ_BITS, READ_CONTINUE, READ_FILL, SETTLE_DELAY_NS, WRITE_BITS,
};
pub use mode::{Absolute, Mode, Relative, ABSOLUTE_FEED_CONFIG2};
pub use packet::{AbsoluteData, Buttons, RelativeData};
pub use register::Register;
pub use state::{
    PowerMode, Status, COMMAND_COMPLETE_BIT, DATA_READY_BIT, SHUTDOWN_BIT, SLEEP_BIT,
};
pub use touchpad::{Touchpad, CALIBRATE_BIT, FEED_DISABLE_MASK, FEED_ENABLE_BIT};
