use std::cell::RefCell;
use std::rc::Rc;

use pinnacle::{Bus, PinnacleTouchpadBuilder, Settings};

/// A bus that remembers the writes it saw and answers every read with zeros.
#[derive(Clone)]
struct Recorder {
    writes: Rc<RefCell<Vec<(u8, u8)>>>,
    reads: Rc<RefCell<Vec<u8>>>,
    fail_at: Option<usize>,
}

impl Recorder {
    fn new() -> Recorder {
        Recorder {
            writes: Rc::new(RefCell::new(Vec::new())),
            reads: Rc::new(RefCell::new(Vec::new())),
            fail_at: None,
        }
    }

    fn step(&self) -> Result<(), u8> {
        let n = self.writes.borrow().len() + self.reads.borrow().len();
        if self.fail_at == Some(n) {
            Err(n as u8)
        } else {
            Ok(())
        }
    }
}

impl Bus for Recorder {
    type Error = u8;

    fn transfer(&mut self, frame: [u8; 4]) -> Result<[u8; 4], u8> {
        self.step()?;
        self.reads.borrow_mut().push(frame[0]);
        Ok([0, 0, 0, 0])
    }

    fn write(&mut self, frame: [u8; 2]) -> Result<(), u8> {
        self.step()?;
        self.writes.borrow_mut().push((frame[0], frame[1]));
        Ok(())
    }

    fn write_then_delay(&mut self, frame: [u8; 2], _nanos: u32) -> Result<(), u8> {
        self.step()?;
        self.writes.borrow_mut().push((frame[0], frame[1]));
        Ok(())
    }

    fn transfer_block<const N: usize>(
        &mut self,
        header: [u8; 3],
        _body: [u8; N],
    ) -> Result<[u8; N], u8> {
        self.step()?;
        self.reads.borrow_mut().push(header[0]);
        Ok([0; N])
    }
}

#[test]
fn builder_starts_with_initial_settings() {
    let builder = PinnacleTouchpadBuilder::new(Recorder::new());
    assert_eq!(
        builder.settings(),
        Settings {
            x: true,
            y: true,
            filter: true,
            swap_x_y: true,
            glide_extend: false,
            scroll: false,
            secondary_tap: false,
            all_taps: false,
            intellimouse: false,
            invert_x: false,
            invert_y: false,
            calibrate: false,
        }
    );
}

#[test]
fn builder_setters_change_one_setting_each() {
    let start = PinnacleTouchpadBuilder::new(Recorder::new()).settings();
    let b = PinnacleTouchpadBuilder::new(Recorder::new());
    assert_eq!(b.disable_x().settings(), Settings { x: false, ..start });
    let b = PinnacleTouchpadBuilder::new(Recorder::new());
    assert_eq!(b.disable_x().enable_x().settings(), start);
    let b = PinnacleTouchpadBuilder::new(Recorder::new());
    assert_eq!(b.disable_y().settings(), Settings { y: false, ..start });
    let b = PinnacleTouchpadBuilder::new(Recorder::new());
    assert_eq!(b.disable_y().enable_y().settings(), start);
    let b = PinnacleTouchpadBuilder::new(Recorder::new());
    assert_eq!(b.disable_filter().settings(), Settings { filter: false, ..start });
    let b = PinnacleTouchpadBuilder::new(Recorder::new());
    assert_eq!(b.disable_filter().enable_filter().settings(), start);
    let b = PinnacleTouchpadBuilder::new(Recorder::new());
    assert_eq!(b.swap_x_y(false).settings(), Settings { swap_x_y: false, ..start });
    let b = PinnacleTouchpadBuilder::new(Recorder::new());
    assert_eq!(b.enable_glide_extend().settings(), Settings { glide_extend: true, ..start });
    let b = PinnacleTouchpadBuilder::new(Recorder::new());
    assert_eq!(b.enable_glide_extend().disable_glide_extend().settings(), start);
    let b = PinnacleTouchpadBuilder::new(Recorder::new());
    assert_eq!(b.enable_scroll().settings(), Settings { scroll: true, ..start });
    let b = PinnacleTouchpadBuilder::new(Recorder::new());
    assert_eq!(b.enable_scroll().disable_scroll().settings(), start);
    let b = PinnacleTouchpadBuilder::new(Recorder::new());
    assert_eq!(b.enable_secondary_tap().settings(), Settings { secondary_tap: true, ..start });
    let b = PinnacleTouchpadBuilder::new(Recorder::new());
    assert_eq!(b.enable_secondary_tap().disable_secondary_tap().settings(), start);
    let b = PinnacleTouchpadBuilder::new(Recorder::new());
    assert_eq!(b.enable_all_taps().settings(), Settings { all_taps: true, ..start });
    let b = PinnacleTouchpadBuilder::new(Recorder::new());
    assert_eq!(b.enable_all_taps().disable_all_taps().settings(), start);
    let b = PinnacleTouchpadBuilder::new(Recorder::new());
    assert_eq!(b.enable_intellimouse().settings(), Settings { intellimouse: true, ..start });
    let b = PinnacleTouchpadBuilder::new(Recorder::new());
    assert_eq!(b.enable_intellimouse().disable_intellimouse().settings(), start);
    let b = PinnacleTouchpadBuilder::new(Recorder::new());
    assert_eq!(b.calibrate().settings(), Settings { calibrate: true, ..start });
}

#[test]
fn builder_mode_choice_keeps_the_settings() {
    let b = PinnacleTouchpadBuilder::new(Recorder::new()).disable_y().enable_scroll();
    let chosen = b.settings();
    assert_eq!(b.relative_mode().settings(), chosen);
    let b = PinnacleTouchpadBuilder::new(Recorder::new()).disable_y().enable_scroll();
    assert_eq!(b.absolute_mode().settings(), chosen);
}

#[test]
fn builder_inverts_in_absolute_mode() {
    let b = PinnacleTouchpadBuilder::new(Recorder::new()).absolute_mode();
    let start = b.settings();
    assert_eq!(b.invert_x(true).settings(), Settings { invert_x: true, ..start });
    let b = PinnacleTouchpadBuilder::new(Recorder::new()).absolute_mode();
    assert_eq!(b.invert_y(true).settings(), Settings { invert_y: true, ..start });
    let b = PinnacleTouchpadBuilder::new(Recorder::new()).absolute_mode();
    assert_eq!(b.invert_y(true).invert_y(false).settings(), start);
}

#[test]
fn settings_split_by_mode() {
    let s = PinnacleTouchpadBuilder::new(Recorder::new())
        .disable_x()
        .enable_all_taps()
        .enable_intellimouse()
        .settings();
    let r = s.relative();
    assert!(!r.x && r.y && r.filter && r.swap_x_y && r.taps && r.intellimouse);
    assert!(!r.glide_extend && !r.scroll && !r.secondary_tap);
    let a = s.absolute();
    assert!(!a.x && a.y && a.filter && !a.invert_x && !a.invert_y);
}

#[test]
fn builder_builds_relative_mode() {
    let bus = Recorder::new();
    let pad = PinnacleTouchpadBuilder::new(bus.clone())
        .relative_mode()
        .enable_scroll()
        .enable_all_taps()
        .disable_filter()
        .build();
    assert!(pad.is_ok());
    assert_eq!(
        *bus.writes.borrow(),
        vec![(0x82, 0x00), (0x83, 0x00), (0x85, 0b1001_0100), (0x84, 0b0000_0101)]
    );
    assert!(bus.reads.borrow().is_empty());
}

#[test]
fn builder_builds_absolute_mode_with_calibration() {
    let bus = Recorder::new();
    let pad = PinnacleTouchpadBuilder::new(bus.clone())
        .absolute_mode()
        .invert_y(true)
        .calibrate()
        .build();
    assert!(pad.is_ok());
    assert_eq!(
        *bus.writes.borrow(),
        vec![
            (0x82, 0x00),
            (0x83, 0x00),
            (0x85, 0b0001_1111),
            (0x84, 0x00),
            (0x87, 0b0001_1111),
            (0x84, 0b0100_0011),
        ]
    );
    assert_eq!(*bus.reads.borrow(), vec![0xA4]);
}

#[test]
fn builder_build_propagates_the_error() {
    let mut bus = Recorder::new();
    bus.fail_at = Some(2);
    let pad = PinnacleTouchpadBuilder::new(bus.clone()).relative_mode().build();
    assert_eq!(pad.err(), Some(2));
    assert_eq!(*bus.writes.borrow(), vec![(0x82, 0x00), (0x83, 0x00)]);
}
