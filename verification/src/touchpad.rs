//! The device handle.
//!
//! Every operation is a short, fixed run of bus transactions. It stops at the
//! first transaction that fails and returns that error as it is; it never
//! retries. The handle keeps a ghost history of the transactions it has made,
//! and the contract of each operation says which ones it adds. An entry is
//! only ever an exchange that the bus made: nothing else can be shown to be
//! an answer of the bus.
use vstd::prelude::*;
use crate::bus::{
    acknowledged, answers_block, genuine, lemma_history_grows, ran_until_failure, read_ran,
    received, write_ran, Bus, Exchange, Request,
};
use crate::config::Calibration;
use crate::frame::{
    block_fill, block_fill_spec, block_header, block_header_spec, read_frame, write_frame,
    SETTLE_DELAY_NS,
};
use crate::mode::{Absolute, Mode, Relative};
use crate::packet::{AbsoluteData, RelativeData};
use crate::register::Register;
use crate::state::{PowerMode, Status};

verus! {

/// The mask that clears the feed-enable bit of the first feed register.
pub const FEED_DISABLE_MASK: u8 = 0xFE;

/// The feed-enable bit of the first feed register.
pub const FEED_ENABLE_BIT: u8 = 0x01;

/// The calibration-in-progress bit of the calibration register.
pub const CALIBRATE_BIT: u8 = 0x01;

/// An operation that clears both status flags ran: one write of zero to the
/// status register, followed by the settle delay.
pub open spec fn flags_cleared<T, E>(done: Seq<Exchange<E>>, result: Result<T, E>) -> bool {
    &&& ran_until_failure(done, 1, result)
    &&& done[0].is_settled_write(Register::Status1.addr(), 0, SETTLE_DELAY_NS)
}

/// An operation that reads the status flags ran: it read the status
/// register and returned the flags that the value stands for.
pub open spec fn status_read<E>(done: Seq<Exchange<E>>, result: Result<Status, E>) -> bool {
    &&& ran_until_failure(done, 1, result)
    &&& done[0].is_read(Register::Status1.addr())
    &&& result matches Ok(status) ==> status == Status::from_byte_spec(done[0].value())
}

/// An operation that reads the power mode ran: it read the system register
/// and returned the mode that the value stands for.
pub open spec fn power_mode_read<E>(done: Seq<Exchange<E>>, result: Result<PowerMode, E>) -> bool {
    &&& ran_until_failure(done, 1, result)
    &&& done[0].is_read(Register::SysConfig1.addr())
    &&& result matches Ok(mode) ==> mode == PowerMode::from_bits_spec(done[0].value())
}

/// An operation that polls a calibration ran: it read the calibration
/// register and returned whether bit 0 of the value is set.
pub open spec fn calibration_polled<E>(done: Seq<Exchange<E>>, result: Result<bool, E>) -> bool {
    &&& ran_until_failure(done, 1, result)
    &&& done[0].is_read(Register::CalConfig1.addr())
    &&& result matches Ok(set) ==> set == (done[0].value() & CALIBRATE_BIT != 0)
}

/// An operation that switches the feed ran: it read the first feed register
/// and wrote it back with bit 0 set to `on` and every other bit as it was
/// read.
pub open spec fn feed_switched<E>(done: Seq<Exchange<E>>, on: bool, result: Result<(), E>) -> bool {
    &&& ran_until_failure(done, 2, result)
    &&& done[0].is_read(Register::FeedConfig1.addr())
    &&& done.len() > 1 ==> done[1].is_write(
        Register::FeedConfig1.addr(),
        if on {
            done[0].value() | FEED_ENABLE_BIT
        } else {
            done[0].value() & FEED_DISABLE_MASK
        },
    )
}

/// An operation that starts a calibration ran: it switched the feed off and
/// then wrote `byte` to the calibration register.
pub open spec fn calibration_started<E>(done: Seq<Exchange<E>>, byte: u8, result: Result<(), E>) -> bool {
    &&& ran_until_failure(done, 3, result)
    &&& done[0].is_read(Register::FeedConfig1.addr())
    &&& done.len() > 1 ==> done[1].is_write(
        Register::FeedConfig1.addr(),
        done[0].value() & FEED_DISABLE_MASK,
    )
    &&& done.len() > 2 ==> done[2].is_write(Register::CalConfig1.addr(), byte)
}

/// An operation that fetches a sample of `n` bytes ran: it read `n`
/// registers from the first packet byte on, and then cleared the status
/// flags.
pub open spec fn sample_fetched<T, E>(done: Seq<Exchange<E>>, n: nat, result: Result<T, E>) -> bool {
    &&& ran_until_failure(done, 2, result)
    &&& done[0].is_block_read(Register::PacketByte0.addr(), n)
    &&& done.len() > 1 ==> done[1].is_settled_write(Register::Status1.addr(), 0, SETTLE_DELAY_NS)
}

/// A sensor in reporting mode `M` behind the bus `B`. The mode is fixed when
/// the handle is made.
pub struct Touchpad<B: Bus, M: Mode> {
    bus: B,
    log: Ghost<Seq<Exchange<B::Error>>>,
    mode: std::marker::PhantomData<M>,
}

impl<B: Bus, M: Mode> Touchpad<B, M> {
    /// Every transaction that the handle has made on its bus, oldest first.
    pub closed spec fn history(&self) -> Seq<Exchange<B::Error>> {
        self.log@
    }

    /// Every transaction of the history from position `from` on is genuine:
    /// its reply is an answer of the method of the bus type to its request,
    /// which the handle can have from a call of its bus only.
    pub open spec fn answered_since(&self, from: nat) -> bool {
        forall|i: int| from <= i < self.history().len() ==> genuine::<B>(#[trigger] self.history()[i])
    }

    /// The handle has made every transaction that `before` had made, in the
    /// same order, and maybe more after them; and each of those after them
    /// is genuine.
    pub open spec fn continues(&self, before: Self) -> bool {
        &&& before.history().is_prefix_of(self.history())
        &&& self.answered_since(before.history().len())
    }

    /// The transactions that the handle has made after those of `before`.
    pub open spec fn since(&self, before: Self) -> Seq<Exchange<B::Error>> {
        self.history().skip(before.history().len() as int)
    }

    /// A handle on the sensor behind `bus` that has not talked to it yet.
    /// Nothing is sent: the sensor is as it was, and [`Touchpad::start`]
    /// brings it up.
    pub fn new(bus: B) -> (pad: Self)
        ensures
            pad.history() == Seq::<Exchange<B::Error>>::empty(),
    {
        Touchpad { bus, log: Ghost(Seq::empty()), mode: std::marker::PhantomData }
    }

    /// Reads one register: one transfer of a read frame, whose last byte is
    /// the value. A transfer that fails is not repeated, and its error is
    /// returned unchanged.
    pub fn read(&mut self, register: Register) -> (result: Result<u8, B::Error>)
        ensures
            final(self).continues(*old(self)),
            read_ran(final(self).since(*old(self)), register.addr(), result),
    {
        let frame = read_frame(register.address());
        let reply = self.bus.transfer(frame);
        let ghost exchange = Exchange {
            request: Request::Transfer { frame: frame@ },
            reply: received(reply),
        };
        self.log = Ghost(self.log@.push(exchange));
        assert(self.since(*old(self)) =~= seq![exchange]);
        assert(genuine::<B>(exchange));
        match reply {
            Ok(bytes) => Ok(bytes[3]),
            Err(e) => Err(e),
        }
    }

    /// Writes one register: one write of a write frame.
    pub(crate) fn write(&mut self, register: Register, value: u8) -> (result: Result<
        (),
        B::Error,
    >)
        ensures
            final(self).continues(*old(self)),
            write_ran(final(self).since(*old(self)), register.addr(), value, result),
    {
        let frame = write_frame(register.address(), value);
        let reply = self.bus.write(frame);
        let ghost exchange = Exchange {
            request: Request::Write { frame: frame@ },
            reply: acknowledged(reply),
        };
        self.log = Ghost(self.log@.push(exchange));
        assert(self.since(*old(self)) =~= seq![exchange]);
        assert(genuine::<B>(exchange));
        reply
    }

    /// Writes one register and lets the device settle: one write of a write
    /// frame, followed in the same transaction by the settle delay.
    fn write_with_delay(&mut self, register: Register, value: u8) -> (result: Result<
        (),
        B::Error,
    >)
        ensures
            final(self).continues(*old(self)),
            ran_until_failure(final(self).since(*old(self)), 1, result),
            final(self).since(*old(self))[0].is_settled_write(
                register.addr(),
                value,
                SETTLE_DELAY_NS,
            ),
    {
        let frame = write_frame(register.address(), value);
        let reply = self.bus.write_then_delay(frame, SETTLE_DELAY_NS);
        let ghost exchange = Exchange {
            request: Request::WriteThenDelay { frame: frame@, nanos: SETTLE_DELAY_NS },
            reply: acknowledged(reply),
        };
        self.log = Ghost(self.log@.push(exchange));
        assert(self.since(*old(self)) =~= seq![exchange]);
        assert(genuine::<B>(exchange));
        reply
    }

    /// Reads `N` registers in a row: one transaction of two transfers, the
    /// command with two continuation markers, then `N` markers of which the
    /// last is the fill marker. The bytes that come in during the second
    /// transfer are the values.
    fn read_multi<const N: usize>(&mut self, register: Register) -> (result: Result<
        [u8; N],
        B::Error,
    >)
        requires
            N >= 1,
        ensures
            old(self).history().is_prefix_of(final(self).history()),
            ran_until_failure(final(self).since(*old(self)), 1, result),
            final(self).since(*old(self))[0].is_block_read(register.addr(), N as nat),
            answers_block::<B, N>(
                block_header_spec(register.addr()),
                block_fill_spec(N as nat),
                final(self).since(*old(self))[0].reply,
            ),
            result matches Ok(bytes) ==> bytes@ == final(self).since(*old(self))[0].bytes(),
    {
        let header = block_header(register.address());
        let body = block_fill::<N>();
        let reply = self.bus.transfer_block(header, body);
        let ghost exchange = Exchange {
            request: Request::TransferBlock { header: header@, body: body@ },
            reply: received(reply),
        };
        self.log = Ghost(self.log@.push(exchange));
        assert(self.since(*old(self)) =~= seq![exchange]);
        reply
    }

    /// Reads the product id.
    pub fn product_id(&mut self) -> (result: Result<u8, B::Error>)
        ensures
            final(self).continues(*old(self)),
            read_ran(final(self).since(*old(self)), Register::ProductId.addr(), result),
    {
        self.read(Register::ProductId)
    }

    /// Reads the firmware ASIC id.
    pub fn firmware_id(&mut self) -> (result: Result<u8, B::Error>)
        ensures
            final(self).continues(*old(self)),
            read_ran(final(self).since(*old(self)), Register::FirmwareId.addr(), result),
    {
        self.read(Register::FirmwareId)
    }

    /// Reads the firmware revision number.
    pub fn firmware_version(&mut self) -> (result: Result<u8, B::Error>)
        ensures
            final(self).continues(*old(self)),
            read_ran(final(self).since(*old(self)), Register::FirmwareVersion.addr(), result),
    {
        self.read(Register::FirmwareVersion)
    }

    /// Reads the status register and decodes its two flags. Poll this for
    /// `data_ready` before fetching a sample.
    pub fn status(&mut self) -> (result: Result<Status, B::Error>)
        ensures
            final(self).continues(*old(self)),
            status_read(final(self).since(*old(self)), result),
    {
        match self.read(Register::Status1) {
            Ok(byte) => Ok(Status::from_byte(byte)),
            Err(e) => Err(e),
        }
    }

    /// Starts a calibration run with the options `c`: switches the feed off,
    /// then writes the options, with the start bit, to the calibration
    /// register.
    ///
    /// The sensor reports nothing until the run is over and the feed is
    /// switched on again: the caller polls [`Touchpad::calibrated`] until the
    /// sensor has cleared the start bit, and then calls
    /// [`Touchpad::enable_feed`].
    pub fn calibrate(&mut self, c: &Calibration) -> (result: Result<(), B::Error>)
        ensures
            final(self).continues(*old(self)),
            calibration_started(final(self).since(*old(self)), c.config_byte_spec(), result),
    {
        let data = c.config_byte();
        let ghost before = self.history();
        match self.disable_feed() {
            Ok(_) => {},
            Err(e) => {
                return Err(e);
            },
        }
        let ghost between = self.history();
        let result = self.write(Register::CalConfig1, data);
        proof {
            lemma_history_grows(before, between, self.history());
        }
        result
    }

    /// Reads the calibration register and reports whether its bit 0 is set.
    /// Writing the bit starts a run, and the sensor clears it when the run is
    /// over.
    pub fn calibrated(&mut self) -> (result: Result<bool, B::Error>)
        ensures
            final(self).continues(*old(self)),
            calibration_polled(final(self).since(*old(self)), result),
    {
        match self.read(Register::CalConfig1) {
            Ok(config) => Ok((config & CALIBRATE_BIT) != 0),
            Err(e) => Err(e),
        }
    }

    /// Clears the command-complete and data-ready flags, both at once, and
    /// waits until the device takes the next command.
    pub fn clear_flags(&mut self) -> (result: Result<(), B::Error>)
        ensures
            final(self).continues(*old(self)),
            flags_cleared(final(self).since(*old(self)), result),
    {
        self.write_with_delay(Register::Status1, 0x00)
    }

    /// Reads the number of samples generated per second.
    pub fn sample_rate(&mut self) -> (result: Result<u8, B::Error>)
        ensures
            final(self).continues(*old(self)),
            read_ran(final(self).since(*old(self)), Register::SampleRate.addr(), result),
    {
        self.read(Register::SampleRate)
    }

    /// Sets the number of samples generated per second.
    pub fn set_sample_rate(&mut self, sample_rate: u8) -> (result: Result<(), B::Error>)
        ensures
            final(self).continues(*old(self)),
            write_ran(
                final(self).since(*old(self)),
                Register::SampleRate.addr(),
                sample_rate,
                result,
            ),
    {
        self.write(Register::SampleRate, sample_rate)
    }

    /// Reads the number of empty packets that the sensor sends once a touch
    /// has lifted.
    pub fn z_idle(&mut self) -> (result: Result<u8, B::Error>)
        ensures
            final(self).continues(*old(self)),
            read_ran(final(self).since(*old(self)), Register::ZIdle.addr(), result),
    {
        self.read(Register::ZIdle)
    }

    /// Sets the number of empty packets that the sensor sends once a touch
    /// has lifted.
    pub fn set_z_idle(&mut self, z_idle: u8) -> (result: Result<(), B::Error>)
        ensures
            final(self).continues(*old(self)),
            write_ran(final(self).since(*old(self)), Register::ZIdle.addr(), z_idle, result),
    {
        self.write(Register::ZIdle, z_idle)
    }

    /// Reads the pen Z-on threshold.
    pub fn z_scaler(&mut self) -> (result: Result<u8, B::Error>)
        ensures
            final(self).continues(*old(self)),
            read_ran(final(self).since(*old(self)), Register::ZScaler.addr(), result),
    {
        self.read(Register::ZScaler)
    }

    /// Sets the pen Z-on threshold.
    pub fn set_z_scaler(&mut self, z_scaler: u8) -> (result: Result<(), B::Error>)
        ensures
            final(self).continues(*old(self)),
            write_ran(final(self).since(*old(self)), Register::ZScaler.addr(), z_scaler, result),
    {
        self.write(Register::ZScaler, z_scaler)
    }

    /// Reads the sleep timer.
    pub fn sleep_timer(&mut self) -> (result: Result<u8, B::Error>)
        ensures
            final(self).continues(*old(self)),
            read_ran(final(self).since(*old(self)), Register::SleepTimer.addr(), result),
    {
        self.read(Register::SleepTimer)
    }

    /// Sets the sleep timer.
    pub fn set_sleep_timer(&mut self, sleep_timer: u8) -> (result: Result<(), B::Error>)
        ensures
            final(self).continues(*old(self)),
            write_ran(
                final(self).since(*old(self)),
                Register::SleepTimer.addr(),
                sleep_timer,
                result,
            ),
    {
        self.write(Register::SleepTimer, sleep_timer)
    }

    /// Reads the sleep interval.
    pub fn sleep_interval(&mut self) -> (result: Result<u8, B::Error>)
        ensures
            final(self).continues(*old(self)),
            read_ran(final(self).since(*old(self)), Register::SleepInterval.addr(), result),
    {
        self.read(Register::SleepInterval)
    }

    /// Sets the sleep interval.
    pub fn set_sleep_interval(&mut self, sleep_interval: u8) -> (result: Result<(), B::Error>)
        ensures
            final(self).continues(*old(self)),
            write_ran(
                final(self).since(*old(self)),
                Register::SleepInterval.addr(),
                sleep_interval,
                result,
            ),
    {
        self.write(Register::SleepInterval, sleep_interval)
    }

    /// Switches the feed off: reads the first feed register and writes it
    /// back with bit 0 cleared. The two transactions are not atomic.
    pub fn disable_feed(&mut self) -> (result: Result<(), B::Error>)
        ensures
            final(self).continues(*old(self)),
            feed_switched(final(self).since(*old(self)), false, result),
    {
        let ghost before = self.history();
        let config = match self.read(Register::FeedConfig1) {
            Ok(config) => config,
            Err(e) => {
                return Err(e);
            },
        };
        let ghost between = self.history();
        let result = self.write(Register::FeedConfig1, config & FEED_DISABLE_MASK);
        proof {
            lemma_history_grows(before, between, self.history());
        }
        result
    }

    /// Switches the feed on: reads the first feed register and writes it
    /// back with bit 0 set. The two transactions are not atomic.
    pub fn enable_feed(&mut self) -> (result: Result<(), B::Error>)
        ensures
            final(self).continues(*old(self)),
            feed_switched(final(self).since(*old(self)), true, result),
    {
        let ghost before = self.history();
        let config = match self.read(Register::FeedConfig1) {
            Ok(config) => config,
            Err(e) => {
                return Err(e);
            },
        };
        let ghost between = self.history();
        let result = self.write(Register::FeedConfig1, config | FEED_ENABLE_BIT);
        proof {
            lemma_history_grows(before, between, self.history());
        }
        result
    }

    /// Reads the system register and decodes the power mode. The shutdown
    /// bit is looked at first: a register that holds both bits reads as
    /// shutdown.
    pub fn power_mode(&mut self) -> (result: Result<PowerMode, B::Error>)
        ensures
            final(self).continues(*old(self)),
            power_mode_read(final(self).since(*old(self)), result),
    {
        match self.read(Register::SysConfig1) {
            Ok(byte) => Ok(PowerMode::from_bits(byte)),
            Err(e) => Err(e),
        }
    }

    /// Sets the power mode: writes 0 for active, `0b100` for sleep and
    /// `0b10` for shutdown to the system register.
    pub fn set_power_mode(&mut self, mode: PowerMode) -> (result: Result<(), B::Error>)
        ensures
            final(self).continues(*old(self)),
            write_ran(
                final(self).since(*old(self)),
                Register::SysConfig1.addr(),
                mode.bits_spec(),
                result,
            ),
    {
        self.write(Register::SysConfig1, mode.bits())
    }
}

impl<B: Bus> Touchpad<B, Absolute> {
    /// Fetches the current sample: reads the six packet registers in one
    /// block, decodes them, and clears the status flags.
    ///
    /// The registers are read as they are. Without a set `data_ready` flag
    /// they hold an old sample, or zeros.
    pub fn read_absolute(&mut self) -> (result: Result<AbsoluteData, B::Error>)
        ensures
            final(self).continues(*old(self)),
            sample_fetched(final(self).since(*old(self)), 6, result),
            result matches Ok(sample) ==> sample == AbsoluteData::decode_spec(
                final(self).since(*old(self))[0].bytes(),
            ),
    {
        let ghost before = self.history();
        let block = match self.read_multi::<6>(Register::PacketByte0) {
            Ok(block) => block,
            Err(e) => {
                return Err(e);
            },
        };
        let sample = AbsoluteData::decode(&block);
        let ghost between = self.history();
        let cleared = self.clear_flags();
        proof {
            lemma_history_grows(before, between, self.history());
        }
        match cleared {
            Ok(_) => Ok(sample),
            Err(e) => Err(e),
        }
    }
}

impl<B: Bus> Touchpad<B, Relative> {
    /// Fetches the current sample: reads the four packet registers in one
    /// block, decodes them, and clears the status flags.
    ///
    /// The registers are read as they are. Without a set `data_ready` flag
    /// they hold an old sample, or zeros.
    pub fn read_relative(&mut self) -> (result: Result<RelativeData, B::Error>)
        ensures
            final(self).continues(*old(self)),
            sample_fetched(final(self).since(*old(self)), 4, result),
            result matches Ok(sample) ==> sample == RelativeData::decode_spec(
                final(self).since(*old(self))[0].bytes(),
            ),
    {
        let ghost before = self.history();
        let block = match self.read_multi::<4>(Register::PacketByte0) {
            Ok(block) => block,
            Err(e) => {
                return Err(e);
            },
        };
        let sample = RelativeData::decode(&block);
        let ghost between = self.history();
        let cleared = self.clear_flags();
        proof {
            lemma_history_grows(before, between, self.history());
        }
        match cleared {
            Ok(_) => Ok(sample),
            Err(e) => Err(e),
        }
    }
}

} // verus!
