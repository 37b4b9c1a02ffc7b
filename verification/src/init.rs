//! Initialisation of a sensor.
//!
//! A sensor is brought up by a fixed run of writes: the status flags are
//! cleared, the power mode is set to active, and the two feed registers are
//! written, the second one first. A calibration, if asked for, is started
//! before the last write, which switches the feed on.
//!
//! [`Touchpad::start`] and [`Touchpad::start_with`] run it on a handle, and
//! say of every outcome what was sent. The `init` functions make the handle
//! too. They give it back only when the run succeeded: when it failed, the
//! handle is dropped with its bus and its history, and their contracts say
//! nothing of that case.
use vstd::prelude::*;
use crate::bus::{lemma_history_grows, ran_until_failure, Bus, Exchange};
use crate::config::{Calibration, Config, INIT_CALIBRATION};
use crate::frame::SETTLE_DELAY_NS;
use crate::mode::{Absolute, Mode, Relative};
use crate::register::Register;
use crate::state::PowerMode;
use crate::touchpad::{Touchpad, FEED_DISABLE_MASK};

verus! {

/// An initialisation with the feed registers `config1` and `config2` ran.
///
/// It cleared the status flags and let the device settle, set the power mode
/// to active and wrote the second feed register. With `calibrate` it then
/// switched the feed off and wrote the calibration byte. Last it wrote the
/// first feed register.
pub open spec fn initialised<T, E>(
    done: Seq<Exchange<E>>,
    config1: u8,
    config2: u8,
    calibrate: bool,
    result: Result<T, E>,
) -> bool {
    &&& ran_until_failure(
        done,
        if calibrate {
            7
        } else {
            4
        },
        result,
    )
    &&& done[0].is_settled_write(Register::Status1.addr(), 0, SETTLE_DELAY_NS)
    &&& done.len() > 1 ==> done[1].is_write(Register::SysConfig1.addr(), 0)
    &&& done.len() > 2 ==> done[2].is_write(Register::FeedConfig2.addr(), config2)
    &&& if calibrate {
        &&& done.len() > 3 ==> done[3].is_read(Register::FeedConfig1.addr())
        &&& done.len() > 4 ==> done[4].is_write(
            Register::FeedConfig1.addr(),
            done[3].value() & FEED_DISABLE_MASK,
        )
        &&& done.len() > 5 ==> done[5].is_write(Register::CalConfig1.addr(), INIT_CALIBRATION)
        &&& done.len() > 6 ==> done[6].is_write(Register::FeedConfig1.addr(), config1)
    } else {
        done.len() > 3 ==> done[3].is_write(Register::FeedConfig1.addr(), config1)
    }
}

impl<B: Bus, M: Mode> Touchpad<B, M> {
    /// Runs the initialisation with the feed registers `config1` and
    /// `config2`.
    fn bring_up(&mut self, config1: u8, config2: u8, calibrate: bool) -> (result: Result<
        (),
        B::Error,
    >)
        ensures
            final(self).continues(*old(self)),
            initialised(final(self).since(*old(self)), config1, config2, calibrate, result),
    {
        let ghost h0 = self.history();
        match self.clear_flags() {
            Ok(_) => {},
            Err(e) => {
                return Err(e);
            },
        }
        let ghost h1 = self.history();
        let powered = self.set_power_mode(PowerMode::Active);
        let ghost h2 = self.history();
        proof {
            lemma_history_grows(h0, h1, h2);
        }
        match powered {
            Ok(_) => {},
            Err(e) => {
                return Err(e);
            },
        }
        let second = self.write(Register::FeedConfig2, config2);
        let ghost h3 = self.history();
        proof {
            lemma_history_grows(h0, h2, h3);
        }
        match second {
            Ok(_) => {},
            Err(e) => {
                return Err(e);
            },
        }
        if calibrate {
            let started = self.calibrate(&Calibration::at_init());
            let ghost h6 = self.history();
            proof {
                lemma_history_grows(h0, h3, h6);
            }
            match started {
                Ok(_) => {},
                Err(e) => {
                    return Err(e);
                },
            }
            let first = self.write(Register::FeedConfig1, config1);
            proof {
                lemma_history_grows(h0, h6, self.history());
            }
            first
        } else {
            let first = self.write(Register::FeedConfig1, config1);
            proof {
                lemma_history_grows(h0, h3, self.history());
            }
            first
        }
    }

    /// Brings up the sensor in the mode of `mode`, with calibration if
    /// `calibrate` is set.
    ///
    /// The run stops at the first transaction that fails and returns its
    /// error unchanged; nothing is sent after it.
    pub fn start(&mut self, mode: &M, calibrate: bool) -> (result: Result<(), B::Error>)
        ensures
            final(self).continues(*old(self)),
            initialised(
                final(self).since(*old(self)),
                mode.feed_config1_spec(),
                mode.feed_config2_spec(),
                calibrate,
                result,
            ),
    {
        let config1 = mode.feed_config1();
        let config2 = mode.feed_config2();
        self.bring_up(config1, config2, calibrate)
    }

    /// Brings up the sensor in the mode of `mode`. The axis and filter flags
    /// of `config` take the place of those of `mode`; `mode` decides the
    /// other bits of the first feed register and the second feed register.
    ///
    /// The run stops at the first transaction that fails and returns its
    /// error unchanged; nothing is sent after it.
    pub fn start_with(&mut self, config: Config, mode: &M) -> (result: Result<(), B::Error>)
        ensures
            final(self).continues(*old(self)),
            initialised(
                final(self).since(*old(self)),
                config.feed_config1_spec(mode.feed_config1_spec()),
                mode.feed_config2_spec(),
                config.calibrate,
                result,
            ),
    {
        let config1 = config.feed_config1(mode.feed_config1());
        let config2 = mode.feed_config2();
        self.bring_up(config1, config2, config.calibrate)
    }
}

impl Relative {
    /// Brings up the sensor behind `bus` in relative mode with these flags,
    /// without calibration.
    ///
    /// A handle that is returned has made exactly the four writes of the
    /// run, on its bus, and each succeeded. Of a failure the contract says nothing: see
    /// [`Touchpad::start`].
    pub fn init<B: Bus>(&self, bus: B) -> (result: Result<Touchpad<B, Relative>, B::Error>)
        ensures
            result matches Ok(pad) ==> {
                &&& pad.answered_since(0)
                &&& initialised(
                    pad.history(),
                    self.feed_config1_spec(),
                    self.feed_config2_spec(),
                    false,
                    result,
                )
            },
    {
        let mut pad = Touchpad::new(bus);
        let started = pad.start(self, false);
        assert(pad.history() =~= pad.history().skip(0));
        match started {
            Ok(_) => Ok(pad),
            Err(e) => Err(e),
        }
    }
}

impl Absolute {
    /// Brings up the sensor behind `bus` in absolute mode with these flags,
    /// without calibration.
    ///
    /// A handle that is returned has made exactly the four writes of the
    /// run, on its bus, and each succeeded. Of a failure the contract says nothing: see
    /// [`Touchpad::start`].
    pub fn init<B: Bus>(&self, bus: B) -> (result: Result<Touchpad<B, Absolute>, B::Error>)
        ensures
            result matches Ok(pad) ==> {
                &&& pad.answered_since(0)
                &&& initialised(
                    pad.history(),
                    self.feed_config1_spec(),
                    self.feed_config2_spec(),
                    false,
                    result,
                )
            },
    {
        let mut pad = Touchpad::new(bus);
        let started = pad.start(self, false);
        assert(pad.history() =~= pad.history().skip(0));
        match started {
            Ok(_) => Ok(pad),
            Err(e) => Err(e),
        }
    }
}

impl Config {
    /// Brings up the sensor behind `bus` in the mode of `mode`. The axis and
    /// filter flags of this configuration take the place of those of `mode`;
    /// `mode` decides the other bits of the first feed register and the
    /// second feed register.
    ///
    /// A handle that is returned has made exactly the transactions of the
    /// run, on its bus, and each succeeded. Of a failure the contract says nothing: see
    /// [`Touchpad::start_with`].
    pub fn init<M: Mode, B: Bus>(self, mode: &M, bus: B) -> (result: Result<
        Touchpad<B, M>,
        B::Error,
    >)
        ensures
            result matches Ok(pad) ==> {
                &&& pad.answered_since(0)
                &&& initialised(
                    pad.history(),
                    self.feed_config1_spec(mode.feed_config1_spec()),
                    mode.feed_config2_spec(),
                    self.calibrate,
                    result,
                )
            },
    {
        let mut pad = Touchpad::new(bus);
        let started = pad.start_with(self, mode);
        assert(pad.history() =~= pad.history().skip(0));
        match started {
            Ok(_) => Ok(pad),
            Err(e) => Err(e),
        }
    }
}

} // verus!
