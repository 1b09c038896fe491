//! The status LED of the board, in its three kinds: an RGB LED driven by PWM,
//! a single LED that flashes in bursts, and a single LED that is on or off.
use vstd::prelude::*;

verus! {

/// The state of the device that the LED shows.
#[derive(Clone, Copy, PartialEq, Eq, Structural, Debug)]
pub enum Status {
    Initializing,
    Running,
    Setup,
    Error,
}

/// The level to drive a LED pin to: high unless the LED is wired inverted,
/// so that the LED is lit exactly when `on`.
pub fn pin_level_high(on: bool, inverted: bool) -> (high: bool)
    ensures
        high == (on != inverted),
{
    if inverted {
        !on
    } else {
        on
    }
}

// ---------------------------------------------------------------- RGB LED

/// The duty (0 to 255) of one channel of the RGB LED for a colour value:
/// the value scaled by the brightness, then inverted if the LED is.
pub open spec fn channel_duty(value: u8, brightness: u8, inverted: bool) -> u8 {
    let scaled = ((value as int * brightness as int) / 255) as u8;
    if inverted {
        (255 - scaled) as u8
    } else {
        scaled
    }
}

/// The settings of an RGB LED: whether its channels are inverted and its
/// brightness (255 is full).
pub struct RgbLedManager {
    pub inverted: bool,
    pub brightness: u8,
}

impl RgbLedManager {
    /// An RGB LED with the given wiring and brightness.
    pub fn new(inverted: bool, brightness: u8) -> (m: Self)
        ensures
            m.inverted == inverted,
            m.brightness == brightness,
    {
        RgbLedManager { inverted, brightness }
    }

    /// The duty of a channel for a colour value.
    pub fn apply_inversion(&self, value: u8) -> (d: u8)
        ensures
            d == channel_duty(value, self.brightness, self.inverted),
    {
        let v = value as u16;
        let b = self.brightness as u16;
        assert(v * b <= 65025) by (nonlinear_arith)
            requires
                v <= 255,
                b <= 255,
        ;
        let product: u16 = v * b;
        assert(product / 255 <= 255) by (nonlinear_arith)
            requires
                product == value as int * self.brightness as int,
                value <= 255,
                self.brightness <= 255,
        ;
        let scaled = (product / 255) as u8;
        if self.inverted {
            255 - scaled
        } else {
            scaled
        }
    }

    /// The duties of the red, green and blue channels for a colour.
    pub fn set_color(&self, r: u8, g: u8, b: u8) -> (d: (u32, u32, u32))
        ensures
            d.0 == channel_duty(r, self.brightness, self.inverted),
            d.1 == channel_duty(g, self.brightness, self.inverted),
            d.2 == channel_duty(b, self.brightness, self.inverted),
    {
        (self.apply_inversion(r) as u32, self.apply_inversion(g) as u32, self.apply_inversion(b) as u32)
    }

    /// The duties that light the LED white.
    pub fn set_on(&self) -> (d: (u32, u32, u32))
        ensures
            d.0 == channel_duty(255, self.brightness, self.inverted),
            d.1 == channel_duty(255, self.brightness, self.inverted),
            d.2 == channel_duty(255, self.brightness, self.inverted),
    {
        self.set_color(255, 255, 255)
    }

    /// The duties that turn the LED off.
    pub fn set_off(&self) -> (d: (u32, u32, u32))
        ensures
            d.0 == channel_duty(0, self.brightness, self.inverted),
            d.1 == channel_duty(0, self.brightness, self.inverted),
            d.2 == channel_duty(0, self.brightness, self.inverted),
    {
        self.set_color(0, 0, 0)
    }

    /// The duties that show a status.
    pub fn set_status(&self, status: Status) -> (d: (u32, u32, u32))
        ensures
            ({
                let (r, g, b) = status_rgb(status);
                &&& d.0 == channel_duty(r, self.brightness, self.inverted)
                &&& d.1 == channel_duty(g, self.brightness, self.inverted)
                &&& d.2 == channel_duty(b, self.brightness, self.inverted)
            }),
    {
        let (r, g, b) = status_color(status);
        self.set_color(r, g, b)
    }
}

/// The colour of each status: yellow while initializing, green when running,
/// blue in setup and red on error.
pub open spec fn status_rgb(status: Status) -> (u8, u8, u8) {
    match status {
        Status::Initializing => (255, 255, 0),
        Status::Running => (0, 255, 0),
        Status::Setup => (0, 0, 255),
        Status::Error => (255, 0, 0),
    }
}

/// The colour that shows a status.
pub fn status_color(status: Status) -> (c: (u8, u8, u8))
    ensures
        c == status_rgb(status),
{
    match status {
        Status::Initializing => (255, 255, 0),
        Status::Running => (0, 255, 0),
        Status::Setup => (0, 0, 255),
        Status::Error => (255, 0, 0),
    }
}

// ------------------------------------------------------- single flashing LED

/// 100 ms in nanoseconds: the shortest burst and pause a caller may set.
pub const MIN_PERIOD_NANOS: u128 = 100_000_000;

/// One second in nanoseconds.
pub const SECOND_NANOS: u128 = 1_000_000_000;

/// How long the LED stays dark or steadily lit before it looks at its
/// configuration again, in nanoseconds (300 s).
pub const IDLE_WAIT_NANOS: u128 = 300_000_000_000;

/// How a single LED flashes: a burst of `flashes` on/off cycles that lasts
/// `burst_nanos`, then a pause of `pause_nanos`, over and over.
#[derive(Clone, Copy, PartialEq, Eq, Structural, Debug)]
pub struct FlashConfig {
    pub flashes: u32,
    pub burst_nanos: u128,
    pub pause_nanos: u128,
}

/// What the LED does under a configuration.
#[derive(Clone, Copy, PartialEq, Eq, Structural, Debug)]
pub enum FlashMode {
    /// No flashes: the LED is left as it is and the thread waits `IDLE_WAIT_NANOS`.
    Dark,
    /// One flash with no burst and no pause: the LED is lit and the thread
    /// waits `IDLE_WAIT_NANOS`.
    SteadyOn,
    /// Bursts of flashes.
    Flashing,
}

/// No flashes keep the LED dark; a single flash without burst or pause
/// lights it steadily; anything else flashes.
pub open spec fn flash_mode_spec(c: FlashConfig) -> FlashMode {
    if c.flashes == 0 {
        FlashMode::Dark
    } else if c.flashes == 1 && c.burst_nanos == 0 && c.pause_nanos == 0 {
        FlashMode::SteadyOn
    } else {
        FlashMode::Flashing
    }
}

/// What the LED does under a configuration.
pub fn flash_mode(c: FlashConfig) -> (m: FlashMode)
    ensures
        m == flash_mode_spec(c),
{
    if c.flashes == 0 {
        FlashMode::Dark
    } else if c.flashes == 1 && c.burst_nanos == 0 && c.pause_nanos == 0 {
        FlashMode::SteadyOn
    } else {
        FlashMode::Flashing
    }
}

/// How long the LED stays on, and then off, in each flash of a burst: the
/// burst divided by twice the number of flashes.
pub fn on_off_nanos(c: FlashConfig) -> (d: u128)
    requires
        c.flashes > 0,
        2 * c.flashes <= u32::MAX,
    ensures
        d == c.burst_nanos as int / (2 * c.flashes as int),
{
    let twice: u32 = c.flashes * 2;
    c.burst_nanos / (twice as u128)
}

/// One step of a burst.
#[derive(Clone, Copy, PartialEq, Eq, Structural, Debug)]
pub enum FlashStep {
    /// Light the LED, then wait `on_off_nanos`.
    On,
    /// Darken the LED, then wait `on_off_nanos`.
    Off,
    /// Wait `pause_nanos`; the burst is over after it.
    Pause,
}

/// Step `k` of a burst of `flashes` flashes: on and off in turn, then the pause.
pub open spec fn flash_step_spec(flashes: u32, k: u64) -> Option<FlashStep> {
    if k < 2 * flashes {
        if k % 2 == 0 {
            Some(FlashStep::On)
        } else {
            Some(FlashStep::Off)
        }
    } else if k == 2 * flashes {
        Some(FlashStep::Pause)
    } else {
        None
    }
}

/// Step `k` of a burst, or nothing past its end.
pub fn flash_step(flashes: u32, k: u64) -> (s: Option<FlashStep>)
    ensures
        s == flash_step_spec(flashes, k),
{
    let twice: u64 = flashes as u64 * 2;
    if k < twice {
        if k % 2 == 0 {
            Some(FlashStep::On)
        } else {
            Some(FlashStep::Off)
        }
    } else if k == twice {
        Some(FlashStep::Pause)
    } else {
        None
    }
}

/// The step after step `k`, given whether the wait of step `k` was cut short
/// by a change of configuration: a cut-short on or off wait ends the burst, and
/// so does the pause, whatever ended it.
pub open spec fn next_flash_step_spec(flashes: u32, k: u64, interrupted: bool) -> Option<u64> {
    if k < 2 * flashes && !interrupted {
        Some((k + 1) as u64)
    } else {
        None
    }
}

/// The step that follows step `k`, or nothing when the burst is over.
pub fn next_flash_step(flashes: u32, k: u64, interrupted: bool) -> (n: Option<u64>)
    ensures
        n == next_flash_step_spec(flashes, k, interrupted),
{
    if k < flashes as u64 * 2 && !interrupted {
        Some(k + 1)
    } else {
        None
    }
}

/// Why a flash configuration was refused.
#[derive(Clone, Copy, PartialEq, Eq, Structural, Debug)]
pub enum LedError {
    /// The burst or the pause is shorter than 100 ms.
    PeriodTooShort,
}

/// The state that the caller and the flashing thread of a single LED share:
/// the configuration, and whether it changed since the thread last read it.
pub struct MonoLedManager {
    pub config: FlashConfig,
    pub updated: bool,
}

impl MonoLedManager {
    /// Three flashes in a one-second burst, then a one-second pause.
    pub fn new() -> (m: Self)
        ensures
            m.config == (FlashConfig { flashes: 3, burst_nanos: SECOND_NANOS, pause_nanos: SECOND_NANOS }),
            !m.updated,
    {
        MonoLedManager {
            config: FlashConfig { flashes: 3, burst_nanos: SECOND_NANOS, pause_nanos: SECOND_NANOS },
            updated: false,
        }
    }

    /// The flashing thread reads the configuration and clears the change mark.
    pub fn take_config(&mut self) -> (c: FlashConfig)
        ensures
            c == old(self).config,
            final(self).config == old(self).config,
            !final(self).updated,
    {
        self.updated = false;
        self.config
    }

    /// Sets the whole configuration; a burst or pause under 100 ms is refused
    /// and changes nothing.
    pub fn set_flash_config(&mut self, flashes: u32, burst_nanos: u128, pause_nanos: u128) -> (r: Result<(), LedError>)
        ensures
            (burst_nanos < MIN_PERIOD_NANOS || pause_nanos < MIN_PERIOD_NANOS) ==> r == Err::<(), LedError>(LedError::PeriodTooShort)
                && final(self).config == old(self).config && final(self).updated == old(self).updated,
            !(burst_nanos < MIN_PERIOD_NANOS || pause_nanos < MIN_PERIOD_NANOS) ==> r is Ok
                && final(self).config == (FlashConfig { flashes, burst_nanos, pause_nanos })
                && final(self).updated,
    {
        if burst_nanos < MIN_PERIOD_NANOS || pause_nanos < MIN_PERIOD_NANOS {
            return Err(LedError::PeriodTooShort);
        }
        self.config.flashes = flashes;
        self.config.burst_nanos = burst_nanos;
        self.config.pause_nanos = pause_nanos;
        self.updated = true;
        Ok(())
    }

    /// Sets the number of flashes per burst.
    pub fn set_flashes(&mut self, flashes: u32)
        ensures
            final(self).config == (FlashConfig { flashes, ..old(self).config }),
            final(self).updated,
    {
        self.config.flashes = flashes;
        self.updated = true;
    }

    /// Lights the LED steadily.
    pub fn set_on(&mut self)
        ensures
            final(self).config == (FlashConfig { flashes: 1, burst_nanos: 0, pause_nanos: 0 }),
            final(self).updated,
            flash_mode_spec(final(self).config) == FlashMode::SteadyOn,
    {
        self.config.flashes = 1;
        self.config.burst_nanos = 0;
        self.config.pause_nanos = 0;
        self.updated = true;
    }

    /// Stops the flashing.
    pub fn set_off(&mut self)
        ensures
            final(self).config == (FlashConfig { flashes: 0, ..old(self).config }),
            final(self).updated,
            flash_mode_spec(final(self).config) == FlashMode::Dark,
    {
        self.config.flashes = 0;
        self.updated = true;
    }

    /// Shows a status: one flash per burst while initializing, two in setup,
    /// three on error, and none when running.
    pub fn set_status(&mut self, status: Status)
        ensures
            final(self).config == (FlashConfig { flashes: status_flashes(status), ..old(self).config }),
            final(self).updated,
    {
        match status {
            Status::Initializing => self.set_flashes(1),
            Status::Running => self.set_off(),
            Status::Setup => self.set_flashes(2),
            Status::Error => self.set_flashes(3),
        }
    }
}

/// The flashes per burst that show each status.
pub open spec fn status_flashes(status: Status) -> u32 {
    match status {
        Status::Initializing => 1,
        Status::Running => 0,
        Status::Setup => 2,
        Status::Error => 3,
    }
}

// ------------------------------------------------------------ simple LED

/// A LED that is either on or off.
pub struct SimpleLedManager {
    pub inverted: bool,
}

impl SimpleLedManager {
    /// A LED with the given wiring.
    pub fn new(inverted: bool) -> (m: Self)
        ensures
            m.inverted == inverted,
    {
        SimpleLedManager { inverted }
    }

    /// The pin level that lights the LED (true is high).
    pub fn set_on(&self) -> (high: bool)
        ensures
            high == !self.inverted,
    {
        pin_level_high(true, self.inverted)
    }

    /// The pin level that darkens the LED.
    pub fn set_off(&self) -> (high: bool)
        ensures
            high == self.inverted,
    {
        pin_level_high(false, self.inverted)
    }

    /// The pin level that shows a status: lit unless running.
    pub fn set_status(&self, status: Status) -> (high: bool)
        ensures
            high == ((status != Status::Running) != self.inverted),
    {
        match status {
            Status::Running => self.set_off(),
            _ => self.set_on(),
        }
    }
}

} // verus!

verus! {

/// An inverted channel carries the complement of the plain one: their duties
/// add up to full scale for every value and brightness.
pub proof fn law_inversion_complements(value: u8, brightness: u8)
    ensures
        channel_duty(value, brightness, true) as int + channel_duty(value, brightness, false) as int == 255,
        channel_duty(value, brightness, false) <= brightness,
{
    assert((value as int * brightness as int) / 255 <= brightness as int) by (nonlinear_arith)
        requires
            value <= 255,
    ;
}

/// A burst that nothing interrupts lights and darkens the LED in turn, once
/// per flash, and then pauses; a change of configuration during a flash
/// ends the burst at once.
pub proof fn law_burst_shape(flashes: u32, k: u64)
    ensures
        k < flashes ==> flash_step_spec(flashes, (2 * k) as u64) == Some(FlashStep::On)
            && flash_step_spec(flashes, (2 * k + 1) as u64) == Some(FlashStep::Off),
        flash_step_spec(flashes, (2 * flashes) as u64) == Some(FlashStep::Pause),
        k < 2 * flashes ==> next_flash_step_spec(flashes, k, false) == Some((k + 1) as u64),
        next_flash_step_spec(flashes, k, true) is None,
        next_flash_step_spec(flashes, (2 * flashes) as u64, false) is None,
{
}

/// Every status shows as a distinct colour on the RGB LED.
pub proof fn law_status_colours_distinct(a: Status, b: Status)
    requires
        a != b,
    ensures
        status_rgb(a) != status_rgb(b),
{
}

} // verus!
