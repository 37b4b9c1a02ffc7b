//! A builder that collects the settings of a sensor one by one and brings it
//! up with them.
use vstd::prelude::*;
use crate::bus::Bus;
use crate::init::initialised;
use crate::mode::{Absolute, Mode, Relative};
use crate::touchpad::Touchpad;

verus! {

/// Everything that a builder collects.
#[derive(Clone, Copy, Debug, PartialEq, Eq, Structural)]
pub struct Settings {
    /// Report the X axis.
    pub x: bool,
    /// Report the Y axis.
    pub y: bool,
    /// Apply the hardware filter to the data.
    pub filter: bool,
    /// Swap X and Y (relative mode).
    pub swap_x_y: bool,
    /// Let a drag go on after the finger was lifted at an edge (relative
    /// mode).
    pub glide_extend: bool,
    /// Report scrolling (relative mode).
    pub scroll: bool,
    /// Let a tap in the upper right corner act as the secondary button
    /// (relative mode).
    pub secondary_tap: bool,
    /// Report taps (relative mode).
    pub all_taps: bool,
    /// Report the wheel count in a fourth packet byte (relative mode).
    pub intellimouse: bool,
    /// Invert the X count (absolute mode).
    pub invert_x: bool,
    /// Invert the Y count (absolute mode).
    pub invert_y: bool,
    /// Run a calibration while the sensor is brought up.
    pub calibrate: bool,
}

impl Settings {
    /// The settings that a new builder starts with: both axes, the filter
    /// and the swap of X and Y are on, everything else is off.
    pub open spec fn initial() -> Settings {
        Settings {
            x: true,
            y: true,
            filter: true,
            swap_x_y: true,
            glide_extend: false,
            scroll: false,
            secondary_tap: false,
            all_taps: false,
            intellimouse: false,
            invert_x: false,
            invert_y: false,
            calibrate: false,
        }
    }

    /// The flags of relative mode among the settings.
    pub open spec fn relative_spec(self) -> Relative {
        Relative {
            x: self.x,
            y: self.y,
            filter: self.filter,
            swap_x_y: self.swap_x_y,
            glide_extend: self.glide_extend,
            scroll: self.scroll,
            secondary_tap: self.secondary_tap,
            taps: self.all_taps,
            intellimouse: self.intellimouse,
        }
    }

    /// The flags of absolute mode among the settings.
    pub open spec fn absolute_spec(self) -> Absolute {
        Absolute {
            x: self.x,
            y: self.y,
            filter: self.filter,
            invert_x: self.invert_x,
            invert_y: self.invert_y,
        }
    }

    /// The flags of relative mode among the settings.
    pub fn relative(&self) -> (flags: Relative)
        ensures
            flags == self.relative_spec(),
    {
        Relative {
            x: self.x,
            y: self.y,
            filter: self.filter,
            swap_x_y: self.swap_x_y,
            glide_extend: self.glide_extend,
            scroll: self.scroll,
            secondary_tap: self.secondary_tap,
            taps: self.all_taps,
            intellimouse: self.intellimouse,
        }
    }

    /// The flags of absolute mode among the settings.
    pub fn absolute(&self) -> (flags: Absolute)
        ensures
            flags == self.absolute_spec(),
    {
        Absolute {
            x: self.x,
            y: self.y,
            filter: self.filter,
            invert_x: self.invert_x,
            invert_y: self.invert_y,
        }
    }
}

/// Collects the settings of the sensor behind the bus `S`. `D` is `()` until
/// a mode is chosen, and the mode from then on.
pub struct PinnacleTouchpadBuilder<S, D> {
    bus: S,
    settings: Settings,
    mode: std::marker::PhantomData<D>,
}

impl<S, D> PinnacleTouchpadBuilder<S, D> {
    /// The settings collected so far.
    pub closed spec fn settings_spec(&self) -> Settings {
        self.settings
    }

    /// The bus that the sensor will be brought up on.
    pub closed spec fn bus_spec(&self) -> S {
        self.bus
    }

    /// The settings collected so far.
    pub fn settings(&self) -> (settings: Settings)
        ensures
            settings == self.settings_spec(),
    {
        self.settings
    }

    /// Reports the X axis.
    pub fn enable_x(self) -> (next: Self)
        ensures
            next.settings_spec() == (Settings { x: true, ..self.settings_spec() }),
            next.bus_spec() == self.bus_spec(),
    {
        let mut next = self;
        next.settings.x = true;
        next
    }

    /// Does not report the X axis.
    pub fn disable_x(self) -> (next: Self)
        ensures
            next.settings_spec() == (Settings { x: false, ..self.settings_spec() }),
            next.bus_spec() == self.bus_spec(),
    {
        let mut next = self;
        next.settings.x = false;
        next
    }

    /// Reports the Y axis.
    pub fn enable_y(self) -> (next: Self)
        ensures
            next.settings_spec() == (Settings { y: true, ..self.settings_spec() }),
            next.bus_spec() == self.bus_spec(),
    {
        let mut next = self;
        next.settings.y = true;
        next
    }

    /// Does not report the Y axis.
    pub fn disable_y(self) -> (next: Self)
        ensures
            next.settings_spec() == (Settings { y: false, ..self.settings_spec() }),
            next.bus_spec() == self.bus_spec(),
    {
        let mut next = self;
        next.settings.y = false;
        next
    }

    /// Applies the hardware filter.
    pub fn enable_filter(self) -> (next: Self)
        ensures
            next.settings_spec() == (Settings { filter: true, ..self.settings_spec() }),
            next.bus_spec() == self.bus_spec(),
    {
        let mut next = self;
        next.settings.filter = true;
        next
    }

    /// Does not apply the hardware filter.
    pub fn disable_filter(self) -> (next: Self)
        ensures
            next.settings_spec() == (Settings { filter: false, ..self.settings_spec() }),
            next.bus_spec() == self.bus_spec(),
    {
        let mut next = self;
        next.settings.filter = false;
        next
    }

    /// Swaps X and Y, or not.
    pub fn swap_x_y(self, swap: bool) -> (next: Self)
        ensures
            next.settings_spec() == (Settings { swap_x_y: swap, ..self.settings_spec() }),
            next.bus_spec() == self.bus_spec(),
    {
        let mut next = self;
        next.settings.swap_x_y = swap;
        next
    }

    /// Switches glide-extend on.
    pub fn enable_glide_extend(self) -> (next: Self)
        ensures
            next.settings_spec() == (Settings { glide_extend: true, ..self.settings_spec() }),
            next.bus_spec() == self.bus_spec(),
    {
        let mut next = self;
        next.settings.glide_extend = true;
        next
    }

    /// Switches glide-extend off.
    pub fn disable_glide_extend(self) -> (next: Self)
        ensures
            next.settings_spec() == (Settings { glide_extend: false, ..self.settings_spec() }),
            next.bus_spec() == self.bus_spec(),
    {
        let mut next = self;
        next.settings.glide_extend = false;
        next
    }

    /// Switches scrolling on.
    pub fn enable_scroll(self) -> (next: Self)
        ensures
            next.settings_spec() == (Settings { scroll: true, ..self.settings_spec() }),
            next.bus_spec() == self.bus_spec(),
    {
        let mut next = self;
        next.settings.scroll = true;
        next
    }

    /// Switches scrolling off.
    pub fn disable_scroll(self) -> (next: Self)
        ensures
            next.settings_spec() == (Settings { scroll: false, ..self.settings_spec() }),
            next.bus_spec() == self.bus_spec(),
    {
        let mut next = self;
        next.settings.scroll = false;
        next
    }

    /// Switches the secondary tap on.
    pub fn enable_secondary_tap(self) -> (next: Self)
        ensures
            next.settings_spec() == (Settings { secondary_tap: true, ..self.settings_spec() }),
            next.bus_spec() == self.bus_spec(),
    {
        let mut next = self;
        next.settings.secondary_tap = true;
        next
    }

    /// Switches the secondary tap off.
    pub fn disable_secondary_tap(self) -> (next: Self)
        ensures
            next.settings_spec() == (Settings { secondary_tap: false, ..self.settings_spec() }),
            next.bus_spec() == self.bus_spec(),
    {
        let mut next = self;
        next.settings.secondary_tap = false;
        next
    }

    /// Switches taps on.
    pub fn enable_all_taps(self) -> (next: Self)
        ensures
            next.settings_spec() == (Settings { all_taps: true, ..self.settings_spec() }),
            next.bus_spec() == self.bus_spec(),
    {
        let mut next = self;
        next.settings.all_taps = true;
        next
    }

    /// Switches taps off.
    pub fn disable_all_taps(self) -> (next: Self)
        ensures
            next.settings_spec() == (Settings { all_taps: false, ..self.settings_spec() }),
            next.bus_spec() == self.bus_spec(),
    {
        let mut next = self;
        next.settings.all_taps = false;
        next
    }

    /// Switches the wheel count on.
    pub fn enable_intellimouse(self) -> (next: Self)
        ensures
            next.settings_spec() == (Settings { intellimouse: true, ..self.settings_spec() }),
            next.bus_spec() == self.bus_spec(),
    {
        let mut next = self;
        next.settings.intellimouse = true;
        next
    }

    /// Switches the wheel count off.
    pub fn disable_intellimouse(self) -> (next: Self)
        ensures
            next.settings_spec() == (Settings { intellimouse: false, ..self.settings_spec() }),
            next.bus_spec() == self.bus_spec(),
    {
        let mut next = self;
        next.settings.intellimouse = false;
        next
    }

    /// Asks for a calibration while the sensor is brought up.
    pub fn calibrate(self) -> (next: Self)
        ensures
            next.settings_spec() == (Settings { calibrate: true, ..self.settings_spec() }),
            next.bus_spec() == self.bus_spec(),
    {
        let mut next = self;
        next.settings.calibrate = true;
        next
    }
}

impl<S: Bus> PinnacleTouchpadBuilder<S, ()> {
    /// A builder for the sensor behind `bus`, with the initial settings and
    /// no mode yet.
    pub fn new(bus: S) -> (builder: Self)
        ensures
            builder.settings_spec() == Settings::initial(),
            builder.bus_spec() == bus,
    {
        PinnacleTouchpadBuilder {
            bus,
            settings: Settings {
                x: true,
                y: true,
                filter: true,
                swap_x_y: true,
                glide_extend: false,
                scroll: false,
                secondary_tap: false,
                all_taps: false,
                intellimouse: false,
                invert_x: false,
                invert_y: false,
                calibrate: false,
            },
            mode: std::marker::PhantomData,
        }
    }

    /// Chooses relative mode; the settings stay as they are.
    pub fn relative_mode(self) -> (next: PinnacleTouchpadBuilder<S, Relative>)
        ensures
            next.settings_spec() == self.settings_spec(),
            next.bus_spec() == self.bus_spec(),
    {
        PinnacleTouchpadBuilder {
            bus: self.bus,
            settings: self.settings,
            mode: std::marker::PhantomData,
        }
    }

    /// Chooses absolute mode, with neither count inverted; the other
    /// settings stay as they are.
    pub fn absolute_mode(self) -> (next: PinnacleTouchpadBuilder<S, Absolute>)
        ensures
            next.settings_spec() == (Settings {
                invert_x: false,
                invert_y: false,
                ..self.settings_spec()
            }),
            next.bus_spec() == self.bus_spec(),
    {
        let mut settings = self.settings;
        settings.invert_x = false;
        settings.invert_y = false;
        PinnacleTouchpadBuilder { bus: self.bus, settings, mode: std::marker::PhantomData }
    }
}

impl<S> PinnacleTouchpadBuilder<S, Absolute> {
    /// Inverts the X count, or not.
    pub fn invert_x(self, invert: bool) -> (next: Self)
        ensures
            next.settings_spec() == (Settings { invert_x: invert, ..self.settings_spec() }),
            next.bus_spec() == self.bus_spec(),
    {
        let mut next = self;
        next.settings.invert_x = invert;
        next
    }

    /// Inverts the Y count, or not.
    pub fn invert_y(self, invert: bool) -> (next: Self)
        ensures
            next.settings_spec() == (Settings { invert_y: invert, ..self.settings_spec() }),
            next.bus_spec() == self.bus_spec(),
    {
        let mut next = self;
        next.settings.invert_y = invert;
        next
    }
}

impl<S: Bus> PinnacleTouchpadBuilder<S, Relative> {
    /// Brings up the sensor in relative mode with the settings collected.
    ///
    /// A handle that is returned has made exactly the transactions of the
    /// run, on its bus, and each succeeded. Of a failure the contract says nothing: see
    /// [`Touchpad::start`].
    pub fn build(self) -> (result: Result<Touchpad<S, Relative>, S::Error>)
        ensures
            result matches Ok(pad) ==> {
                &&& pad.answered_since(0)
                &&& initialised(
                    pad.history(),
                    self.settings_spec().relative_spec().feed_config1_spec(),
                    self.settings_spec().relative_spec().feed_config2_spec(),
                    self.settings_spec().calibrate,
                    result,
                )
            },
    {
        let flags = self.settings.relative();
        let calibrate = self.settings.calibrate;
        let mut pad = Touchpad::new(self.bus);
        let started = pad.start(&flags, calibrate);
        assert(pad.history() =~= pad.history().skip(0));
        match started {
            Ok(_) => Ok(pad),
            Err(e) => Err(e),
        }
    }
}

impl<S: Bus> PinnacleTouchpadBuilder<S, Absolute> {
    /// Brings up the sensor in absolute mode with the settings collected.
    ///
    /// A handle that is returned has made exactly the transactions of the
    /// run, on its bus, and each succeeded. Of a failure the contract says nothing: see
    /// [`Touchpad::start`].
    pub fn build(self) -> (result: Result<Touchpad<S, Absolute>, S::Error>)
        ensures
            result matches Ok(pad) ==> {
                &&& pad.answered_since(0)
                &&& initialised(
                    pad.history(),
                    self.settings_spec().absolute_spec().feed_config1_spec(),
                    self.settings_spec().absolute_spec().feed_config2_spec(),
                    self.settings_spec().calibrate,
                    result,
                )
            },
    {
        let flags = self.settings.absolute();
        let calibrate = self.settings.calibrate;
        let mut pad = Touchpad::new(self.bus);
        let started = pad.start(&flags, calibrate);
        assert(pad.history() =~= pad.history().skip(0));
        match started {
            Ok(_) => Ok(pad),
            Err(e) => Err(e),
        }
    }
}

} // verus!
