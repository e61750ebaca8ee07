use vstd::prelude::*;

verus! {

/// Period written to each channel, in nanoseconds (500 Hz).
pub const DEFAULT_PERIOD_NS: u32 = 2000000;

/// Brightness and channel fractions are expressed in thousandths: this value is 1.0.
pub const FULL_BRIGHTNESS: u32 = 1000;

#[verifier::external_type_specification]
#[verifier::external_body]
pub struct ExPwm(sysfs_pwm::Pwm);

#[verifier::external_type_specification]
#[verifier::external_body]
pub struct ExPwmError(sysfs_pwm::Error);

/// Relies on sysfs_pwm::Pwm::export: writes the channel number to the chip's export file.
/// Its outcome depends on the filesystem, so nothing is promised of it.
pub assume_specification[ sysfs_pwm::Pwm::export ](pwm: &sysfs_pwm::Pwm) -> (r: core::result::Result<(), sysfs_pwm::Error>);

/// Relies on sysfs_pwm::Pwm::unexport: writes the channel number to the chip's unexport file.
pub assume_specification[ sysfs_pwm::Pwm::unexport ](pwm: &sysfs_pwm::Pwm) -> (r: core::result::Result<(), sysfs_pwm::Error>);

/// Relies on sysfs_pwm::Pwm::enable: writes "1" or "0" to the channel's enable file.
pub assume_specification[ sysfs_pwm::Pwm::enable ](pwm: &sysfs_pwm::Pwm, enable: bool) -> (r: core::result::Result<(), sysfs_pwm::Error>);

/// Relies on sysfs_pwm::Pwm::set_duty_cycle_ns: writes the value to the channel's duty_cycle file.
pub assume_specification[ sysfs_pwm::Pwm::set_duty_cycle_ns ](pwm: &sysfs_pwm::Pwm, duty_cycle_ns: u32) -> (r: core::result::Result<(), sysfs_pwm::Error>);

/// Relies on sysfs_pwm::Pwm::set_period_ns: writes the value to the channel's period file.
pub assume_specification[ sysfs_pwm::Pwm::set_period_ns ](pwm: &sysfs_pwm::Pwm, period_ns: u32) -> (r: core::result::Result<(), sysfs_pwm::Error>);

/// What can go wrong while driving the LED.
#[derive(Clone, Copy, Debug, PartialEq, Eq, Structural)]
pub enum LedError {
    /// A channel could not be exported or given its period.
    Construction,
    /// A brightness outside `0..=FULL_BRIGHTNESS` was supplied.
    Validation,
    /// A channel rejected a write after validation passed.
    HardwareWrite,
    /// A channel could not be disabled or unexported while shutting down.
    Teardown,
}

/// An RGB colour, one byte per channel.
#[derive(Clone, Copy, Debug, PartialEq, Eq, Structural)]
pub struct PwmLedColour {
    pub red: u8,
    pub green: u8,
    pub blue: u8,
}

/// `round(level / 255 * FULL_BRIGHTNESS)`: a channel byte as a fraction in thousandths.
pub open spec fn level_fraction(level: u8) -> nat {
    ((2 * FULL_BRIGHTNESS * level + 255) / 510) as nat
}

/// `round(fraction * 255)` for a fraction in thousandths.
pub open spec fn fraction_level(fraction: nat) -> nat {
    ((510 * fraction + FULL_BRIGHTNESS) / (2 * FULL_BRIGHTNESS)) as nat
}

impl PwmLedColour {
    pub open spec fn channels(self) -> Seq<u8> {
        seq![self.red, self.green, self.blue]
    }

    pub fn new(red: u8, green: u8, blue: u8) -> (r: Self)
        ensures
            r.red == red,
            r.green == green,
            r.blue == blue,
    {
        Self { red, green, blue }
    }

    /// The three channels, in order red, green, blue, as fractions in thousandths.
    pub fn to_percentages(self) -> (r: Vec<u32>)
        ensures
            r@.len() == 3,
            forall|i: int| 0 <= i < 3 ==> r@[i] == level_fraction(#[trigger] self.channels()[i]),
    {
        let r = vec![to_fraction(self.red), to_fraction(self.green), to_fraction(self.blue)];
        assert(self.channels()[0] == self.red && self.channels()[1] == self.green && self.channels()[2] == self.blue);
        r
    }

    pub fn red() -> (r: Self)
        ensures
            r.red == 255 && r.green == 0 && r.blue == 0,
    {
        Self { red: 255, green: 0, blue: 0 }
    }

    pub fn green() -> (r: Self)
        ensures
            r.red == 0 && r.green == 255 && r.blue == 0,
    {
        Self { red: 0, green: 255, blue: 0 }
    }

    pub fn blue() -> (r: Self)
        ensures
            r.red == 0 && r.green == 0 && r.blue == 255,
    {
        Self { red: 0, green: 0, blue: 255 }
    }

    pub fn orange() -> (r: Self)
        ensures
            r.red == 255 && r.green == 70 && r.blue == 0,
    {
        Self { red: 255, green: 70, blue: 0 }
    }

    pub fn yellow() -> (r: Self)
        ensures
            r.red == 200 && r.green == 255 && r.blue == 0,
    {
        Self { red: 200, green: 255, blue: 0 }
    }

    pub fn off() -> (r: Self)
        ensures
            r.red == 0 && r.green == 0 && r.blue == 0,
    {
        Self { red: 0, green: 0, blue: 0 }
    }
}

fn to_fraction(level: u8) -> (r: u32)
    ensures
        r == level_fraction(level),
        r <= FULL_BRIGHTNESS,
{
    let l: u32 = level as u32;
    assert(l <= 255);
    (2000 * l + 255) / 510
}

/// Every channel's fraction lies in `0..=FULL_BRIGHTNESS` and rounds back to the channel byte.
pub proof fn lemma_fraction_round_trip(c: PwmLedColour)
    ensures
        forall|i: int| 0 <= i < 3 ==> {
            &&& level_fraction(#[trigger] c.channels()[i]) <= FULL_BRIGHTNESS
            &&& fraction_level(level_fraction(c.channels()[i])) == c.channels()[i]
        },
{
    assert forall|i: int| 0 <= i < 3 implies {
        &&& level_fraction(#[trigger] c.channels()[i]) <= FULL_BRIGHTNESS
        &&& fraction_level(level_fraction(c.channels()[i])) == c.channels()[i]
    } by {
        lemma_level_round_trip(c.channels()[i]);
    }
}

proof fn lemma_level_round_trip(level: u8)
    ensures
        level_fraction(level) <= FULL_BRIGHTNESS,
        fraction_level(level_fraction(level)) == level,
{
    let c = level as int;
    let q = (2000 * c + 255) / 510;
    assert(510 * q <= 2000 * c + 255 && 2000 * c + 255 < 510 * q + 510) by (nonlinear_arith)
        requires q == (2000 * c + 255) / 510, 0 <= c;
    assert((510 * q + 1000) / 2000 == c) by (nonlinear_arith)
        requires 510 * q <= 2000 * c + 255, 2000 * c + 255 < 510 * q + 510;
}

/// `round(level / 255 * brightness / FULL_BRIGHTNESS * period)`: the duty cycle, in
/// nanoseconds, that shows a channel byte at a brightness given in thousandths.
pub open spec fn duty_cycle_ns(level: u8, brightness: nat, period: nat) -> nat {
    ((2 * level * brightness * period + 255 * FULL_BRIGHTNESS) / (510 * FULL_BRIGHTNESS)) as nat
}

/// The duty cycles of the three channels, in order red, green, blue.
pub open spec fn colour_duty_cycles(colour: PwmLedColour, brightness: nat, period: nat) -> Seq<nat> {
    seq![
        duty_cycle_ns(colour.red, brightness, period),
        duty_cycle_ns(colour.green, brightness, period),
        duty_cycle_ns(colour.blue, brightness, period),
    ]
}

pub(crate) proof fn lemma_duty_cycle_bound(level: u8, brightness: nat, period: nat)
    requires
        brightness <= FULL_BRIGHTNESS,
    ensures
        duty_cycle_ns(level, brightness, period) <= period,
        level == 0 || brightness == 0 ==> duty_cycle_ns(level, brightness, period) == 0,
{
    let l = level as int;
    let b = brightness as int;
    let p = period as int;
    assert(2 * l * b * p <= 510000 * p) by (nonlinear_arith)
        requires 0 <= l <= 255, 0 <= b <= 1000, 0 <= p;
    assert((2 * l * b * p + 255000) / 510000 <= p) by (nonlinear_arith)
        requires 2 * l * b * p <= 510000 * p, 0 <= p;
    if l == 0 || b == 0 {
        assert(2 * l * b * p == 0) by (nonlinear_arith)
            requires l == 0 || b == 0;
    }
}

fn compute_duty_cycle(level: u8, brightness: u32, period: u32) -> (r: u32)
    requires
        brightness <= FULL_BRIGHTNESS,
    ensures
        r == duty_cycle_ns(level, brightness as nat, period as nat),
        r <= period,
{
    proof {
        lemma_duty_cycle_bound(level, brightness as nat, period as nat);
    }
    let l: u64 = level as u64;
    let b: u64 = brightness as u64;
    let p: u64 = period as u64;
    assert(2 * l * b <= 510000) by (nonlinear_arith)
        requires l <= 255, b <= 1000;
    assert(2 * l * b * p <= 510000 * 0x1_0000_0000u64) by (nonlinear_arith)
        requires 2 * l * b <= 510000, p < 0x1_0000_0000u64;
    let num: u64 = 2 * l * b * p + 255000;
    (num / 510000) as u32
}

/// A three-channel LED: the channels, their period, and the colour and brightness shown.
pub struct RgbLed {
    pwms: [sysfs_pwm::Pwm; 3],
    period_ns: u32,
    colour: PwmLedColour,
    brightness: u32,
    /// Duty cycles, in nanoseconds, last written to all three channels with success.
    duties: Ghost<Seq<nat>>,
    /// Output state last written to all three channels with success.
    enabled: Ghost<bool>,
    /// Value of `duties` when `enabled` was last written.
    switched_duties: Ghost<Seq<nat>>,
    /// Periods, in nanoseconds, last written to all three channels with success.
    periods: Ghost<Seq<nat>>,
}

impl RgbLed {
    #[verifier::type_invariant]
    spec fn wf(&self) -> bool {
        &&& self.period_ns == DEFAULT_PERIOD_NS
        &&& self.brightness <= FULL_BRIGHTNESS
    }

    pub closed spec fn colour(&self) -> PwmLedColour {
        self.colour
    }

    /// Brightness in thousandths.
    pub closed spec fn brightness(&self) -> nat {
        self.brightness as nat
    }

    pub closed spec fn period_ns(&self) -> nat {
        self.period_ns as nat
    }

    pub closed spec fn duties(&self) -> Seq<nat> {
        self.duties@
    }

    pub closed spec fn enabled(&self) -> bool {
        self.enabled@
    }

    /// The duty cycles that the channels held when the outputs were last enabled or disabled.
    pub closed spec fn switched_duties(&self) -> Seq<nat> {
        self.switched_duties@
    }

    pub closed spec fn periods(&self) -> Seq<nat> {
        self.periods@
    }

    /// The channel handles, in order red, green, blue.
    pub closed spec fn channels(&self) -> Seq<sysfs_pwm::Pwm> {
        self.pwms@
    }

    /// Exports the three channels (red, green, blue) and gives each the default period.
    /// The outputs stay disabled; the colour is black and the brightness full.
    pub fn new(pwm_r: sysfs_pwm::Pwm, pwm_g: sysfs_pwm::Pwm, pwm_b: sysfs_pwm::Pwm) -> (r: Result<Self, LedError>)
        ensures
            r matches Ok(led) ==> {
                &&& led.period_ns() == DEFAULT_PERIOD_NS
                &&& led.colour() == (PwmLedColour { red: 0, green: 0, blue: 0 })
                &&& led.brightness() == FULL_BRIGHTNESS
                &&& !led.enabled()
                &&& led.channels() == seq![pwm_r, pwm_g, pwm_b]
                &&& led.periods() == seq![DEFAULT_PERIOD_NS as nat, DEFAULT_PERIOD_NS as nat, DEFAULT_PERIOD_NS as nat]
            },
            r matches Err(e) ==> e == LedError::Construction,
    {
        if pwm_r.export().is_err() || pwm_g.export().is_err() || pwm_b.export().is_err() {
            return Err(LedError::Construction);
        }
        let ghost handles = seq![pwm_r, pwm_g, pwm_b];
        let mut led = RgbLed {
            pwms: [pwm_r, pwm_g, pwm_b],
            period_ns: DEFAULT_PERIOD_NS,
            colour: PwmLedColour::off(),
            brightness: FULL_BRIGHTNESS,
            duties: Ghost(Seq::empty()),
            enabled: Ghost(false),
            switched_duties: Ghost(Seq::empty()),
            periods: Ghost(Seq::empty()),
        };
        assert(led.pwms@ =~= handles);
        if led.set_all_periods(DEFAULT_PERIOD_NS).is_err() {
            return Err(LedError::Construction);
        }
        Ok(led)
    }

    /// Stores the colour and shows it at the current brightness.
    pub fn set_colour(&mut self, colour: PwmLedColour) -> (r: Result<(), LedError>)
        ensures
            final(self).colour() == colour,
            final(self).brightness() == old(self).brightness(),
            final(self).period_ns() == old(self).period_ns(),
            final(self).enabled() == old(self).enabled(),
            final(self).channels() == old(self).channels(),
            final(self).periods() == old(self).periods(),
            r is Ok ==> final(self).duties() == colour_duty_cycles(colour, old(self).brightness(), old(self).period_ns()),
            r matches Err(e) ==> e == LedError::HardwareWrite,
    {
        proof {
            use_type_invariant(&*self);
        }
        self.colour = colour;
        self.set_colour_with_brightness(colour, self.brightness)
    }

    /// Enables or disables the three outputs. Every channel is attempted, even after a
    /// failure on an earlier one.
    pub fn set_enable(&mut self, enable: bool) -> (r: Result<(), LedError>)
        ensures
            final(self).colour() == old(self).colour(),
            final(self).brightness() == old(self).brightness(),
            final(self).period_ns() == old(self).period_ns(),
            final(self).duties() == old(self).duties(),
            final(self).channels() == old(self).channels(),
            final(self).periods() == old(self).periods(),
            r is Ok ==> final(self).enabled() == enable && final(self).switched_duties() == old(self).duties(),
            r matches Err(e) ==> e == LedError::HardwareWrite,
    {
        proof {
            use_type_invariant(&*self);
        }
        let r0 = self.pwms[0].enable(enable);
        let r1 = self.pwms[1].enable(enable);
        let r2 = self.pwms[2].enable(enable);
        if r0.is_err() || r1.is_err() || r2.is_err() {
            return Err(LedError::HardwareWrite);
        }
        self.enabled = Ghost(enable);
        self.switched_duties = Ghost(self.duties@);
        Ok(())
    }

    /// Sets the brightness, in thousandths, and shows the current colour at it.
    /// A value outside `0..=FULL_BRIGHTNESS` is rejected and changes nothing.
    pub fn set_brightness(&mut self, brightness: i32) -> (r: Result<(), LedError>)
        ensures
            brightness < 0 || brightness > FULL_BRIGHTNESS ==> {
                &&& r == Err::<(), LedError>(LedError::Validation)
                &&& *final(self) == *old(self)
            },
            0 <= brightness <= FULL_BRIGHTNESS ==> {
                &&& final(self).brightness() == brightness
                &&& final(self).colour() == old(self).colour()
                &&& final(self).period_ns() == old(self).period_ns()
                &&& final(self).enabled() == old(self).enabled()
                &&& final(self).channels() == old(self).channels()
                &&& final(self).periods() == old(self).periods()
                &&& r is Ok ==> final(self).duties() == colour_duty_cycles(old(self).colour(), brightness as nat, old(self).period_ns())
                &&& r matches Err(e) ==> e == LedError::HardwareWrite
            },
    {
        proof {
            use_type_invariant(&*self);
        }
        if brightness < 0 || brightness > FULL_BRIGHTNESS as i32 {
            return Err(LedError::Validation);
        }
        self.brightness = brightness as u32;
        self.set_colour_with_brightness(self.colour, self.brightness)
    }

    fn set_colour_with_brightness(&mut self, colour: PwmLedColour, brightness: u32) -> (r: Result<(), LedError>)
        requires
            brightness <= FULL_BRIGHTNESS,
        ensures
            final(self).colour() == old(self).colour(),
            final(self).brightness() == old(self).brightness(),
            final(self).period_ns() == old(self).period_ns(),
            final(self).enabled() == old(self).enabled(),
            final(self).channels() == old(self).channels(),
            final(self).periods() == old(self).periods(),
            r is Ok ==> final(self).duties() == colour_duty_cycles(colour, brightness as nat, old(self).period_ns()),
            r matches Err(e) ==> e == LedError::HardwareWrite,
    {
        proof {
            use_type_invariant(&*self);
        }
        let red = compute_duty_cycle(colour.red, brightness, self.period_ns);
        let green = compute_duty_cycle(colour.green, brightness, self.period_ns);
        let blue = compute_duty_cycle(colour.blue, brightness, self.period_ns);
        if self.pwms[0].set_duty_cycle_ns(red).is_err() {
            return Err(LedError::HardwareWrite);
        }
        if self.pwms[1].set_duty_cycle_ns(green).is_err() {
            return Err(LedError::HardwareWrite);
        }
        if self.pwms[2].set_duty_cycle_ns(blue).is_err() {
            return Err(LedError::HardwareWrite);
        }
        let ghost written = seq![red as nat, green as nat, blue as nat];
        self.duties = Ghost(written);
        Ok(())
    }

    fn set_all_periods(&mut self, period: u32) -> (r: Result<(), LedError>)
        ensures
            final(self).channels() == old(self).channels(),
            final(self).period_ns() == old(self).period_ns(),
            final(self).colour() == old(self).colour(),
            final(self).brightness() == old(self).brightness(),
            final(self).duties() == old(self).duties(),
            final(self).enabled() == old(self).enabled(),
            r is Ok ==> final(self).periods() == seq![period as nat, period as nat, period as nat],
            r matches Err(e) ==> e == LedError::Construction,
    {
        proof {
            use_type_invariant(&*self);
        }
        if self.pwms[0].set_period_ns(period).is_err() || self.pwms[1].set_period_ns(period).is_err()
            || self.pwms[2].set_period_ns(period).is_err() {
            return Err(LedError::Construction);
        }
        let ghost written = seq![period as nat, period as nat, period as nat];
        self.periods = Ghost(written);
        Ok(())
    }

    /// Disables the outputs, then unexports the channels. Every step is attempted; any
    /// failure is reported as a teardown error.
    pub fn close(self) -> (r: Result<(), LedError>)
        ensures
            r matches Err(e) ==> e == LedError::Teardown,
    {
        let mut led = self;
        let disabled = led.set_enable(false);
        let u0 = led.pwms[0].unexport();
        let u1 = led.pwms[1].unexport();
        let u2 = led.pwms[2].unexport();
        if disabled.is_err() || u0.is_err() || u1.is_err() || u2.is_err() {
            return Err(LedError::Teardown);
        }
        Ok(())
    }
}

} // verus!
