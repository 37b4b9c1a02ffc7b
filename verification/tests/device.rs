use std::cell::RefCell;
use std::rc::Rc;

use pinnacle::{
    Absolute, AbsoluteData, Bus, Buttons, Calibration, Config, PowerMode, Register, Relative,
    RelativeData, Status, Touchpad,
};

/// One transaction as the bus saw it.
#[derive(Debug, Clone, PartialEq, Eq)]
enum Seen {
    Transfer(Vec<u8>),
    Write(Vec<u8>),
    WriteThenDelay(Vec<u8>, u32),
    Block(Vec<u8>, Vec<u8>),
}

/// A sensor that is nothing but its 32 registers.
struct Sensor {
    registers: [u8; 32],
    seen: Vec<Seen>,
    /// Number of the transaction that fails, counted from 0.
    fail_at: Option<usize>,
}

#[derive(Debug, Clone, Copy, PartialEq, Eq)]
struct BusFault(usize);

#[derive(Clone)]
struct SensorBus(Rc<RefCell<Sensor>>);

impl SensorBus {
    fn new() -> SensorBus {
        SensorBus(Rc::new(RefCell::new(Sensor { registers: [0; 32], seen: Vec::new(), fail_at: None })))
    }

    fn failing_at(n: usize) -> SensorBus {
        let bus = SensorBus::new();
        bus.0.borrow_mut().fail_at = Some(n);
        bus
    }

    fn register(&self, addr: usize) -> u8 {
        self.0.borrow().registers[addr]
    }

    fn set_register(&self, addr: usize, value: u8) {
        self.0.borrow_mut().registers[addr] = value;
    }

    fn seen(&self) -> Vec<Seen> {
        self.0.borrow().seen.clone()
    }

    fn forget(&self) {
        self.0.borrow_mut().seen.clear();
    }

    fn fail_next(&self) {
        let n = self.0.borrow().seen.len();
        self.0.borrow_mut().fail_at = Some(n);
    }

    fn record(&mut self, seen: Seen) -> Result<(), BusFault> {
        let mut sensor = self.0.borrow_mut();
        let n = sensor.seen.len();
        sensor.seen.push(seen);
        if sensor.fail_at == Some(n) {
            Err(BusFault(n))
        } else {
            Ok(())
        }
    }
}

impl Bus for SensorBus {
    type Error = BusFault;

    fn transfer(&mut self, frame: [u8; 4]) -> Result<[u8; 4], BusFault> {
        self.record(Seen::Transfer(frame.to_vec()))?;
        let value = self.register((frame[0] & 0x1F) as usize);
        Ok([0x11, 0x22, 0x33, value])
    }

    fn write(&mut self, frame: [u8; 2]) -> Result<(), BusFault> {
        self.record(Seen::Write(frame.to_vec()))?;
        self.set_register((frame[0] & 0x1F) as usize, frame[1]);
        Ok(())
    }

    fn write_then_delay(&mut self, frame: [u8; 2], nanos: u32) -> Result<(), BusFault> {
        self.record(Seen::WriteThenDelay(frame.to_vec(), nanos))?;
        self.set_register((frame[0] & 0x1F) as usize, frame[1]);
        Ok(())
    }

    fn transfer_block<const N: usize>(
        &mut self,
        header: [u8; 3],
        body: [u8; N],
    ) -> Result<[u8; N], BusFault> {
        self.record(Seen::Block(header.to_vec(), body.to_vec()))?;
        let start = (header[0] & 0x1F) as usize;
        let mut out = [0u8; N];
        for i in 0..N {
            out[i] = self.register(start + i);
        }
        Ok(out)
    }
}

fn plain_relative() -> Relative {
    Relative {
        x: true,
        y: true,
        filter: true,
        swap_x_y: false,
        glide_extend: true,
        scroll: true,
        secondary_tap: true,
        taps: true,
        intellimouse: false,
    }
}

fn plain_absolute() -> Absolute {
    Absolute { x: true, y: true, filter: true, invert_x: false, invert_y: false }
}

fn relative_pad() -> (SensorBus, Touchpad<SensorBus, Relative>) {
    let bus = SensorBus::new();
    let pad = plain_relative().init(bus.clone()).unwrap();
    bus.forget();
    (bus, pad)
}

fn absolute_pad() -> (SensorBus, Touchpad<SensorBus, Absolute>) {
    let bus = SensorBus::new();
    let pad = plain_absolute().init(bus.clone()).unwrap();
    bus.forget();
    (bus, pad)
}

#[test]
fn relative_init_writes_four_registers_in_order() {
    let bus = SensorBus::new();
    bus.set_register(0x02, 0x0C);
    bus.set_register(0x03, 0x04);
    let flags = Relative {
        x: true,
        y: false,
        filter: true,
        swap_x_y: true,
        glide_extend: false,
        scroll: true,
        secondary_tap: false,
        taps: true,
        intellimouse: true,
    };
    let pad = flags.init(bus.clone());
    assert!(pad.is_ok());
    assert_eq!(
        bus.seen(),
        vec![
            Seen::WriteThenDelay(vec![0x82, 0x00], 50_000),
            Seen::Write(vec![0x83, 0x00]),
            Seen::Write(vec![0x85, 0b1001_0101]),
            Seen::Write(vec![0x84, 0b0001_0001]),
        ]
    );
    assert_eq!(bus.register(0x02), 0);
    assert_eq!(bus.register(0x03), 0);
    assert_eq!(bus.register(0x05), 0b1001_0101);
    assert_eq!(bus.register(0x04), 0b0001_0001);
}

#[test]
fn absolute_init_writes_four_registers_in_order() {
    let bus = SensorBus::new();
    let flags = Absolute { x: true, y: true, filter: false, invert_x: true, invert_y: false };
    let pad = flags.init(bus.clone());
    assert!(pad.is_ok());
    assert_eq!(
        bus.seen(),
        vec![
            Seen::WriteThenDelay(vec![0x82, 0x00], 50_000),
            Seen::Write(vec![0x83, 0x00]),
            Seen::Write(vec![0x85, 0b0001_1111]),
            Seen::Write(vec![0x84, 0b1000_0111]),
        ]
    );
}

#[test]
fn config_init_without_calibration() {
    let bus = SensorBus::new();
    let config = Config { x: false, y: true, filter: true, calibrate: false };
    let pad = config.init(&plain_absolute(), bus.clone());
    assert!(pad.is_ok());
    assert_eq!(
        bus.seen(),
        vec![
            Seen::WriteThenDelay(vec![0x82, 0x00], 50_000),
            Seen::Write(vec![0x83, 0x00]),
            Seen::Write(vec![0x85, 0b0001_1111]),
            Seen::Write(vec![0x84, 0b0000_1011]),
        ]
    );
}

#[test]
fn config_init_with_calibration() {
    let bus = SensorBus::new();
    bus.set_register(0x04, 0b0000_0111);
    let config = Config { calibrate: true, ..Config::default() };
    let pad = config.init(&plain_relative(), bus.clone());
    assert!(pad.is_ok());
    assert_eq!(
        bus.seen(),
        vec![
            Seen::WriteThenDelay(vec![0x82, 0x00], 50_000),
            Seen::Write(vec![0x83, 0x00]),
            Seen::Write(vec![0x85, 0b0000_0000]),
            Seen::Transfer(vec![0xA4, 0xFB, 0xFB, 0xFB]),
            Seen::Write(vec![0x84, 0b0000_0110]),
            Seen::Write(vec![0x87, 0b0001_1111]),
            Seen::Write(vec![0x84, 0b0000_0001]),
        ]
    );
}

#[test]
fn init_stops_at_the_first_failure() {
    for n in 0..4 {
        let bus = SensorBus::failing_at(n);
        let pad = plain_relative().init(bus.clone());
        assert_eq!(pad.err(), Some(BusFault(n)));
        assert_eq!(bus.seen().len(), n + 1);
    }
    for n in 0..7 {
        let bus = SensorBus::failing_at(n);
        let config = Config { calibrate: true, ..Config::default() };
        let pad = config.init(&plain_absolute(), bus.clone());
        assert_eq!(pad.err(), Some(BusFault(n)));
        assert_eq!(bus.seen().len(), n + 1);
    }
}

#[test]
fn a_new_handle_sends_nothing() {
    let bus = SensorBus::new();
    let _pad: Touchpad<SensorBus, Relative> = Touchpad::new(bus.clone());
    assert!(bus.seen().is_empty());
}

#[test]
fn start_brings_up_a_new_handle() {
    let bus = SensorBus::new();
    let flags = Absolute { x: true, y: true, filter: true, invert_x: false, invert_y: true };
    let mut pad = Touchpad::new(bus.clone());
    assert_eq!(pad.start(&flags, false), Ok(()));
    assert_eq!(
        bus.seen(),
        vec![
            Seen::WriteThenDelay(vec![0x82, 0x00], 50_000),
            Seen::Write(vec![0x83, 0x00]),
            Seen::Write(vec![0x85, 0b0001_1111]),
            Seen::Write(vec![0x84, 0b0100_0011]),
        ]
    );
    bus.forget();
    assert_eq!(pad.start(&flags, true), Ok(()));
    assert_eq!(
        bus.seen(),
        vec![
            Seen::WriteThenDelay(vec![0x82, 0x00], 50_000),
            Seen::Write(vec![0x83, 0x00]),
            Seen::Write(vec![0x85, 0b0001_1111]),
            Seen::Transfer(vec![0xA4, 0xFB, 0xFB, 0xFB]),
            Seen::Write(vec![0x84, 0b0100_0010]),
            Seen::Write(vec![0x87, 0b0001_1111]),
            Seen::Write(vec![0x84, 0b0100_0011]),
        ]
    );
}

#[test]
fn start_with_takes_the_common_flags_of_the_configuration() {
    let bus = SensorBus::new();
    let mut pad = Touchpad::new(bus.clone());
    let config = Config { x: true, y: false, filter: true, calibrate: false };
    assert_eq!(pad.start_with(config, &plain_relative()), Ok(()));
    assert_eq!(
        bus.seen(),
        vec![
            Seen::WriteThenDelay(vec![0x82, 0x00], 50_000),
            Seen::Write(vec![0x83, 0x00]),
            Seen::Write(vec![0x85, 0b0000_0000]),
            Seen::Write(vec![0x84, 0b0001_0001]),
        ]
    );
}

#[test]
fn start_stops_at_the_failure_and_keeps_the_later_registers() {
    for n in 0..4usize {
        let bus = SensorBus::failing_at(n);
        for addr in 0..32 {
            bus.set_register(addr, 0xEE);
        }
        let mut pad = Touchpad::new(bus.clone());
        assert_eq!(pad.start(&plain_relative(), false), Err(BusFault(n)));
        assert_eq!(bus.seen().len(), n + 1);
        let order = [0x02usize, 0x03, 0x05, 0x04];
        for (k, addr) in order.iter().enumerate() {
            if k >= n {
                assert_eq!(bus.register(*addr), 0xEE);
            } else {
                assert_ne!(bus.register(*addr), 0xEE);
            }
        }
        assert_eq!(bus.register(0x07), 0xEE);
    }
}

#[test]
fn a_failed_register_read_is_not_repeated() {
    let (bus, mut pad) = relative_pad();
    for addr in 0..32 {
        bus.set_register(addr, 0x5A);
    }
    bus.fail_next();
    assert_eq!(pad.read(Register::ZScaler), Err(BusFault(0)));
    assert_eq!(bus.seen(), vec![Seen::Transfer(vec![0xAB, 0xFB, 0xFB, 0xFB])]);
    for addr in 0..32 {
        assert_eq!(bus.register(addr), 0x5A);
    }
    assert_eq!(pad.read(Register::ZScaler), Ok(0x5A));
}

#[test]
fn identification_registers() {
    let (bus, mut pad) = relative_pad();
    bus.set_register(0x00, 0x07);
    bus.set_register(0x01, 0x3A);
    bus.set_register(0x1F, 0x55);
    assert_eq!(pad.firmware_id(), Ok(0x07));
    assert_eq!(pad.firmware_version(), Ok(0x3A));
    assert_eq!(pad.product_id(), Ok(0x55));
    assert_eq!(
        bus.seen(),
        vec![
            Seen::Transfer(vec![0xA0, 0xFB, 0xFB, 0xFB]),
            Seen::Transfer(vec![0xA1, 0xFB, 0xFB, 0xFB]),
            Seen::Transfer(vec![0xBF, 0xFB, 0xFB, 0xFB]),
        ]
    );
}

#[test]
fn a_read_returns_the_fourth_byte() {
    let (bus, mut pad) = relative_pad();
    // the bus answers 0x11, 0x22, 0x33 in the first three positions
    bus.set_register(0x0A, 0x1E);
    assert_eq!(pad.z_idle(), Ok(0x1E));
    bus.set_register(0x0A, 0x11);
    assert_eq!(pad.z_idle(), Ok(0x11));
}

#[test]
fn status_is_decoded() {
    let (bus, mut pad) = relative_pad();
    bus.set_register(0x02, 0b0100);
    assert_eq!(pad.status(), Ok(Status { command_complete: false, data_ready: true }));
    bus.set_register(0x02, 0b1000);
    assert_eq!(pad.status(), Ok(Status { command_complete: true, data_ready: false }));
    assert_eq!(bus.seen()[0], Seen::Transfer(vec![0xA2, 0xFB, 0xFB, 0xFB]));
}

#[test]
fn clear_flags_writes_zero_and_waits() {
    let (bus, mut pad) = relative_pad();
    bus.set_register(0x02, 0b1100);
    assert_eq!(pad.clear_flags(), Ok(()));
    assert_eq!(bus.seen(), vec![Seen::WriteThenDelay(vec![0x82, 0x00], 50_000)]);
    assert_eq!(pad.status(), Ok(Status { command_complete: false, data_ready: false }));
}

#[test]
fn tuning_registers_are_written_and_read_back() {
    let (bus, mut pad) = absolute_pad();
    assert_eq!(pad.set_sample_rate(100), Ok(()));
    assert_eq!(pad.set_z_idle(30), Ok(()));
    assert_eq!(pad.set_z_scaler(8), Ok(()));
    assert_eq!(pad.set_sleep_interval(73), Ok(()));
    assert_eq!(pad.set_sleep_timer(39), Ok(()));
    assert_eq!(
        bus.seen(),
        vec![
            Seen::Write(vec![0x89, 100]),
            Seen::Write(vec![0x8A, 30]),
            Seen::Write(vec![0x8B, 8]),
            Seen::Write(vec![0x8C, 73]),
            Seen::Write(vec![0x8D, 39]),
        ]
    );
    bus.forget();
    assert_eq!(pad.sample_rate(), Ok(100));
    assert_eq!(pad.z_idle(), Ok(30));
    assert_eq!(pad.z_scaler(), Ok(8));
    assert_eq!(pad.sleep_interval(), Ok(73));
    assert_eq!(pad.sleep_timer(), Ok(39));
    assert_eq!(
        bus.seen(),
        vec![
            Seen::Transfer(vec![0xA9, 0xFB, 0xFB, 0xFB]),
            Seen::Transfer(vec![0xAA, 0xFB, 0xFB, 0xFB]),
            Seen::Transfer(vec![0xAB, 0xFB, 0xFB, 0xFB]),
            Seen::Transfer(vec![0xAC, 0xFB, 0xFB, 0xFB]),
            Seen::Transfer(vec![0xAD, 0xFB, 0xFB, 0xFB]),
        ]
    );
}

#[test]
fn power_mode_round_trips_through_the_sensor() {
    let (bus, mut pad) = relative_pad();
    assert_eq!(pad.power_mode(), Ok(PowerMode::Active));
    assert_eq!(pad.set_power_mode(PowerMode::Sleep), Ok(()));
    assert_eq!(bus.register(0x03), 0b100);
    assert_eq!(pad.power_mode(), Ok(PowerMode::Sleep));
    assert_eq!(pad.set_power_mode(PowerMode::Shutdown), Ok(()));
    assert_eq!(bus.register(0x03), 0b10);
    assert_eq!(pad.power_mode(), Ok(PowerMode::Shutdown));
    assert_eq!(pad.set_power_mode(PowerMode::Active), Ok(()));
    assert_eq!(bus.register(0x03), 0);
    assert_eq!(pad.power_mode(), Ok(PowerMode::Active));
}

#[test]
fn power_mode_with_both_bits_is_shutdown() {
    let (bus, mut pad) = relative_pad();
    bus.set_register(0x03, 0b110);
    assert_eq!(pad.power_mode(), Ok(PowerMode::Shutdown));
}

#[test]
fn feed_is_switched_by_read_modify_write() {
    let (bus, mut pad) = absolute_pad();
    bus.set_register(0x04, 0b1100_0011);
    assert_eq!(pad.disable_feed(), Ok(()));
    assert_eq!(
        bus.seen(),
        vec![Seen::Transfer(vec![0xA4, 0xFB, 0xFB, 0xFB]), Seen::Write(vec![0x84, 0b1100_0010])]
    );
    bus.forget();
    assert_eq!(pad.enable_feed(), Ok(()));
    assert_eq!(
        bus.seen(),
        vec![Seen::Transfer(vec![0xA4, 0xFB, 0xFB, 0xFB]), Seen::Write(vec![0x84, 0b1100_0011])]
    );
    assert_eq!(bus.register(0x04), 0b1100_0011);
}

#[test]
fn calibrate_disables_the_feed_then_writes_the_options() {
    let (bus, mut pad) = relative_pad();
    bus.set_register(0x04, 0b0000_0001);
    assert_eq!(pad.calibrate(&Calibration::default()), Ok(()));
    assert_eq!(
        bus.seen(),
        vec![
            Seen::Transfer(vec![0xA4, 0xFB, 0xFB, 0xFB]),
            Seen::Write(vec![0x84, 0b0000_0000]),
            Seen::Write(vec![0x87, 0b1000_0001]),
        ]
    );
}

#[test]
fn calibrated_reports_bit_zero() {
    let (bus, mut pad) = relative_pad();
    bus.set_register(0x07, 0b1000_0001);
    assert_eq!(pad.calibrated(), Ok(true));
    bus.set_register(0x07, 0b1000_0000);
    assert_eq!(pad.calibrated(), Ok(false));
    assert_eq!(bus.seen()[0], Seen::Transfer(vec![0xA7, 0xFB, 0xFB, 0xFB]));
}

#[test]
fn read_absolute_reads_a_block_and_clears_the_flags() {
    let (bus, mut pad) = absolute_pad();
    let block = [0x3F, 0x00, 0xFF, 0xFF, 0x7F, 0x3F];
    for (i, b) in block.iter().enumerate() {
        bus.set_register(0x12 + i, *b);
    }
    bus.set_register(0x02, 0b0100);
    let sample = pad.read_absolute().unwrap();
    assert_eq!(sample, AbsoluteData { x: 4095, y: 2047, z: 63, button_flags: 63 });
    assert_eq!(sample, AbsoluteData::decode(&block));
    assert_eq!(
        bus.seen(),
        vec![
            Seen::Block(vec![0xB2, 0xFC, 0xFC], vec![0xFC, 0xFC, 0xFC, 0xFC, 0xFC, 0xFB]),
            Seen::WriteThenDelay(vec![0x82, 0x00], 50_000),
        ]
    );
    assert_eq!(bus.register(0x02), 0);
}

#[test]
fn read_relative_reads_a_block_and_clears_the_flags() {
    let (bus, mut pad) = relative_pad();
    let block = [0x35, 0x01, 0x02, 0xFE];
    for (i, b) in block.iter().enumerate() {
        bus.set_register(0x12 + i, *b);
    }
    bus.set_register(0x02, 0b0100);
    let sample = pad.read_relative().unwrap();
    assert_eq!(
        sample,
        RelativeData {
            x: -255,
            y: -254,
            wheel: -2,
            buttons: Buttons { primary: true, secondary: false, auxiliary: true },
        }
    );
    assert_eq!(
        bus.seen(),
        vec![
            Seen::Block(vec![0xB2, 0xFC, 0xFC], vec![0xFC, 0xFC, 0xFC, 0xFB]),
            Seen::WriteThenDelay(vec![0x82, 0x00], 50_000),
        ]
    );
    assert_eq!(bus.register(0x02), 0);
}

#[test]
fn reading_without_data_ready_gives_the_registers_as_they_are() {
    let (_bus, mut pad) = absolute_pad();
    assert_eq!(pad.read_absolute(), Ok(AbsoluteData { x: 0, y: 0, z: 0, button_flags: 0 }));
}

#[test]
fn a_failed_read_propagates_and_sends_nothing_more() {
    let (bus, mut pad) = relative_pad();
    bus.set_register(0x04, 0x01);
    bus.set_register(0x07, 0x55);
    bus.fail_next();
    assert_eq!(pad.calibrate(&Calibration::default()), Err(BusFault(0)));
    assert_eq!(bus.seen(), vec![Seen::Transfer(vec![0xA4, 0xFB, 0xFB, 0xFB])]);
    assert_eq!(bus.register(0x04), 0x01);
    assert_eq!(bus.register(0x07), 0x55);
}

#[test]
fn a_failed_write_leaves_the_other_registers_alone() {
    let (bus, mut pad) = relative_pad();
    for addr in 0..32 {
        bus.set_register(addr, addr as u8 + 1);
    }
    bus.fail_next();
    assert_eq!(pad.set_z_idle(0x77), Err(BusFault(0)));
    for addr in 0..32 {
        assert_eq!(bus.register(addr), addr as u8 + 1);
    }
    assert_eq!(pad.set_z_idle(0x77), Ok(()));
    for addr in 0..32 {
        if addr == 0x0A {
            assert_eq!(bus.register(addr), 0x77);
        } else {
            assert_eq!(bus.register(addr), addr as u8 + 1);
        }
    }
}

#[test]
fn a_failed_flag_clear_fails_the_sample() {
    let (bus, mut pad) = absolute_pad();
    bus.set_register(0x02, 0b0100);
    bus.0.borrow_mut().fail_at = Some(1);
    assert_eq!(pad.read_absolute(), Err(BusFault(1)));
    assert_eq!(bus.seen().len(), 2);
    assert_eq!(bus.register(0x02), 0b0100);
}

#[test]
fn every_single_step_operation_propagates_the_error() {
    let (bus, mut pad) = relative_pad();
    bus.fail_next();
    assert_eq!(pad.status(), Err(BusFault(0)));
    bus.fail_next();
    assert_eq!(pad.power_mode(), Err(BusFault(1)));
    bus.fail_next();
    assert_eq!(pad.set_power_mode(PowerMode::Sleep), Err(BusFault(2)));
    bus.fail_next();
    assert_eq!(pad.clear_flags(), Err(BusFault(3)));
    bus.fail_next();
    assert_eq!(pad.calibrated(), Err(BusFault(4)));
    bus.fail_next();
    assert_eq!(pad.read_relative(), Err(BusFault(5)));
    bus.fail_next();
    assert_eq!(pad.enable_feed(), Err(BusFault(6)));
    bus.fail_next();
    assert_eq!(pad.disable_feed(), Err(BusFault(7)));
    assert_eq!(bus.seen().len(), 8);
    assert_eq!(bus.register(0x03), 0);
}
