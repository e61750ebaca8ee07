use vstd::prelude::*;

pub mod rgbled;
pub mod timing;

use crate::rgbled::{LedError, PwmLedColour, RgbLed, FULL_BRIGHTNESS};

verus! {

/// Time between two brightness updates of a breathing pattern, in milliseconds.
pub const BREATHE_UPDATE_PERIOD_MS: u64 = 5;

/// A lighting effect. Durations are whole cycles, in milliseconds.
#[derive(Clone, Copy, Debug, PartialEq, Eq, Structural)]
pub enum Pattern {
    /// On for half the cycle, off for the other half.
    Blink(u64, PwmLedColour),
    /// Two short flashes (each phase an eighth of the cycle), then off for five eighths.
    BlinkTwice(u64, PwmLedColour),
    /// The first colour for half the cycle, the second for the other half.
    BlinkBetweenColours(u64, PwmLedColour, PwmLedColour),
    /// Brightness ramps up over the first half of the cycle and down over the second, one
    /// update every `BREATHE_UPDATE_PERIOD_MS`. Each level is the update's position over
    /// the number of updates in a half, so the ramp spans the whole range from 0 to full.
    Breathe(u64, PwmLedColour),
    /// As `Breathe`, switching from the first colour to the second at the peak.
    BreatheBetweenColours(u64, PwmLedColour, PwmLedColour),
    /// The colour at full brightness, held until the pattern changes.
    Full(PwmLedColour),
}

/// One action of a render cycle.
#[derive(Clone, Copy, Debug, PartialEq, Eq, Structural)]
pub enum Step {
    SetColour(PwmLedColour),
    /// Brightness in thousandths.
    SetBrightness(u32),
    /// Wait, in milliseconds.
    Sleep(u64),
}

/// Number of brightness updates in each half of a breathing cycle.
pub open spec fn breathe_half_steps(period: u64) -> nat {
    (period / BREATHE_UPDATE_PERIOD_MS / 2) as nat
}

/// Brightness, in thousandths, at position `i` of a ramp that reaches full at `n`.
pub open spec fn ramp_level(n: nat, i: nat) -> nat {
    if n == 0 {
        0
    } else {
        (i * FULL_BRIGHTNESS / (n as int)) as nat
    }
}

/// Rising half of a breathing cycle: levels 1/n, 2/n, ..., n/n, each followed by a tick.
pub open spec fn ramp_up(n: nat) -> Seq<Step> {
    Seq::new(
        2 * n,
        |k: int|
            if k % 2 == 0 {
                Step::SetBrightness(ramp_level(n, (k / 2 + 1) as nat) as u32)
            } else {
                Step::Sleep(BREATHE_UPDATE_PERIOD_MS)
            },
    )
}

/// Falling half of a breathing cycle: levels (n-1)/n, ..., 1/n, 0, each followed by a tick.
pub open spec fn ramp_down(n: nat) -> Seq<Step> {
    Seq::new(
        2 * n,
        |k: int|
            if k % 2 == 0 {
                Step::SetBrightness(ramp_level(n, (n - 1 - k / 2) as nat) as u32)
            } else {
                Step::Sleep(BREATHE_UPDATE_PERIOD_MS)
            },
    )
}

/// The actions of one render cycle of a pattern, in order.
pub open spec fn pattern_steps(p: Pattern) -> Seq<Step> {
    match p {
        Pattern::Blink(d, c) => seq![
            Step::SetColour(c),
            Step::SetBrightness(FULL_BRIGHTNESS),
            Step::Sleep(d / 2),
            Step::SetBrightness(0),
            Step::Sleep(d / 2),
        ],
        Pattern::BlinkTwice(d, c) => seq![
            Step::SetColour(c),
            Step::SetBrightness(FULL_BRIGHTNESS),
            Step::Sleep(d / 8),
            Step::SetBrightness(0),
            Step::Sleep(d / 8),
            Step::SetBrightness(FULL_BRIGHTNESS),
            Step::Sleep(d / 8),
            Step::SetBrightness(0),
            Step::Sleep((d * 5 / 8) as u64),
        ],
        Pattern::BlinkBetweenColours(d, a, b) => seq![
            Step::SetColour(a),
            Step::SetBrightness(FULL_BRIGHTNESS),
            Step::Sleep(d / 2),
            Step::SetColour(b),
            Step::Sleep(d / 2),
        ],
        Pattern::Breathe(d, c) => seq![Step::SetColour(c)] + ramp_up(breathe_half_steps(d))
            + ramp_down(breathe_half_steps(d)),
        Pattern::BreatheBetweenColours(d, a, b) => seq![Step::SetColour(a)] + ramp_up(
            breathe_half_steps(d),
        ) + seq![Step::SetColour(b)] + ramp_down(breathe_half_steps(d)),
        Pattern::Full(c) => seq![Step::SetColour(c), Step::SetBrightness(FULL_BRIGHTNESS)],
    }
}

fn compute_ramp_level(n: u64, i: u64) -> (r: u32)
    requires
        i <= n,
    ensures
        r == ramp_level(n as nat, i as nat),
        r <= FULL_BRIGHTNESS,
{
    if n == 0 {
        return 0;
    }
    let num: u128 = i as u128 * 1000;
    assert(num <= n as u128 * 1000);
    proof {
        vstd::arithmetic::div_mod::lemma_div_is_ordered(num as int, n as int * 1000, n as int);
        vstd::arithmetic::div_mod::lemma_div_multiples_vanish(1000, n as int);
    }
    (num / n as u128) as u32
}

impl Pattern {
    /// Number of actions in one render cycle.
    pub fn step_count(&self) -> (r: u64)
        ensures
            r == pattern_steps(*self).len(),
    {
        match *self {
            Pattern::Blink(..) | Pattern::BlinkBetweenColours(..) => 5,
            Pattern::BlinkTwice(..) => 9,
            Pattern::Breathe(d, _) => 1 + 4 * (d / BREATHE_UPDATE_PERIOD_MS / 2),
            Pattern::BreatheBetweenColours(d, _, _) => 2 + 4 * (d / BREATHE_UPDATE_PERIOD_MS / 2),
            Pattern::Full(..) => 2,
        }
    }

    /// Action `k` of one render cycle.
    pub fn step_at(&self, k: u64) -> (r: Step)
        requires
            k < pattern_steps(*self).len(),
        ensures
            r == pattern_steps(*self)[k as int],
    {
        let tick = Step::Sleep(BREATHE_UPDATE_PERIOD_MS);
        match *self {
            Pattern::Blink(d, c) => {
                if k == 0 {
                    Step::SetColour(c)
                } else if k == 1 {
                    Step::SetBrightness(FULL_BRIGHTNESS)
                } else if k == 3 {
                    Step::SetBrightness(0)
                } else {
                    Step::Sleep(d / 2)
                }
            },
            Pattern::BlinkTwice(d, c) => {
                if k == 0 {
                    Step::SetColour(c)
                } else if k == 1 || k == 5 {
                    Step::SetBrightness(FULL_BRIGHTNESS)
                } else if k == 3 || k == 7 {
                    Step::SetBrightness(0)
                } else if k == 8 {
                    Step::Sleep((d as u128 * 5 / 8) as u64)
                } else {
                    Step::Sleep(d / 8)
                }
            },
            Pattern::BlinkBetweenColours(d, a, b) => {
                if k == 0 {
                    Step::SetColour(a)
                } else if k == 1 {
                    Step::SetBrightness(FULL_BRIGHTNESS)
                } else if k == 3 {
                    Step::SetColour(b)
                } else {
                    Step::Sleep(d / 2)
                }
            },
            Pattern::Breathe(d, c) => {
                let n = d / BREATHE_UPDATE_PERIOD_MS / 2;
                if k == 0 {
                    Step::SetColour(c)
                } else if k % 2 == 0 {
                    tick
                } else if k <= 2 * n {
                    Step::SetBrightness(compute_ramp_level(n, (k - 1) / 2 + 1))
                } else {
                    Step::SetBrightness(compute_ramp_level(n, n - 1 - (k - 1 - 2 * n) / 2))
                }
            },
            Pattern::BreatheBetweenColours(d, a, b) => {
                let n = d / BREATHE_UPDATE_PERIOD_MS / 2;
                if k == 0 {
                    Step::SetColour(a)
                } else if k <= 2 * n {
                    if k % 2 == 0 {
                        tick
                    } else {
                        Step::SetBrightness(compute_ramp_level(n, (k - 1) / 2 + 1))
                    }
                } else if k == 2 * n + 1 {
                    Step::SetColour(b)
                } else if k % 2 == 1 {
                    tick
                } else {
                    Step::SetBrightness(compute_ramp_level(n, n - 1 - (k - 2 - 2 * n) / 2))
                }
            },
            Pattern::Full(c) => {
                if k == 0 {
                    Step::SetColour(c)
                } else {
                    Step::SetBrightness(FULL_BRIGHTNESS)
                }
            },
        }
    }
}

/// What the pattern executor knows of its own state.
pub struct HandlerState {
    pub pattern: Pattern,
    pub running: bool,
    pub stop_requested: bool,
    /// Whether `start` or `teardown` has been called; a handler is started at most once.
    pub started: bool,
}

/// The pattern that a cycle boundary hands out, or `None` when rendering ends there.
pub open spec fn cycle_pattern(s: HandlerState) -> Option<Pattern> {
    if s.running && !s.stop_requested {
        Some(s.pattern)
    } else {
        None
    }
}

/// The state after a cycle boundary: rendering ends when a stop was requested.
pub open spec fn after_boundary(s: HandlerState) -> HandlerState {
    HandlerState { running: s.running && !s.stop_requested, ..s }
}

pub open spec fn after_set_pattern(s: HandlerState, p: Pattern) -> HandlerState {
    HandlerState { pattern: p, ..s }
}

pub open spec fn after_stop(s: HandlerState) -> HandlerState {
    HandlerState { stop_requested: true, ..s }
}

/// Renders a swappable pattern on an LED, one whole cycle at a time. The caller runs the
/// cycles: at each boundary `next_cycle` says which pattern to render (or that rendering
/// ends), and each action of that pattern's cycle goes through `apply`, waits aside.
pub struct PatternHandler {
    driver: RgbLed,
    pattern: Pattern,
    is_running: bool,
    has_started: bool,
    stop_flag: bool,
}

impl View for PatternHandler {
    type V = HandlerState;

    closed spec fn view(&self) -> HandlerState {
        HandlerState { pattern: self.pattern, running: self.is_running, stop_requested: self.stop_flag, started: self.has_started }
    }
}

impl PatternHandler {
    pub closed spec fn led(&self) -> RgbLed {
        self.driver
    }

    pub fn new(rgb_led: RgbLed, pattern: Pattern) -> (r: Self)
        ensures
            r@ == (HandlerState { pattern, running: false, stop_requested: false, started: false }),
            r.led() == rgb_led,
    {
        PatternHandler { driver: rgb_led, pattern, is_running: false, stop_flag: false, has_started: false }
    }

    /// Replaces the pattern; the cycle in progress, if any, is not affected.
    pub fn set_pattern(&mut self, pattern: &Pattern)
        ensures
            final(self)@ == after_set_pattern(old(self)@, *pattern),
            final(self).led() == old(self).led(),
    {
        self.pattern = *pattern;
    }

    /// Starts rendering: brightness goes to zero and the outputs are enabled. A handler
    /// starts once: starting it again, running or stopped, changes nothing and returns
    /// `Ok(false)`.
    pub fn start(&mut self) -> (r: Result<bool, LedError>)
        ensures
            old(self)@.started ==> r == Ok::<bool, LedError>(false) && *final(self) == *old(self),
            !old(self)@.started ==> {
                &&& final(self)@.pattern == old(self)@.pattern
                &&& !final(self)@.stop_requested
                &&& final(self)@.started
                &&& r matches Ok(started) ==> {
                    &&& started
                    &&& final(self)@.running
                    &&& final(self).led().brightness() == 0
                    &&& final(self).led().colour() == old(self).led().colour()
                    &&& final(self).led().enabled()
                    &&& final(self).led().duties() == rgbled::colour_duty_cycles(
                        old(self).led().colour(),
                        0,
                        old(self).led().period_ns(),
                    )
                }
                &&& r matches Err(e) ==> e == LedError::HardwareWrite && !final(self)@.running
            },
    {
        if self.has_started {
            return Ok(false);
        }
        self.has_started = true;
        self.is_running = false;
        self.stop_flag = false;
        if let Err(e) = self.driver.set_brightness(0) {
            return Err(e);
        }
        if let Err(e) = self.driver.set_enable(true) {
            return Err(e);
        }
        self.is_running = true;
        Ok(true)
    }

    /// Requests a stop; it is seen at the next cycle boundary.
    pub fn stop(&mut self)
        ensures
            final(self)@ == after_stop(old(self)@),
            final(self).led() == old(self).led(),
    {
        self.stop_flag = true;
    }

    /// A cycle boundary: the pattern to render next, or `None` once rendering has ended.
    pub fn next_cycle(&mut self) -> (r: Option<Pattern>)
        ensures
            r == cycle_pattern(old(self)@),
            final(self)@ == after_boundary(old(self)@),
            final(self).led() == old(self).led(),
    {
        if self.is_running && !self.stop_flag {
            Some(self.pattern)
        } else {
            self.is_running = false;
            None
        }
    }

    /// Performs one colour or brightness action on the LED; a wait does nothing here.
    pub fn apply(&mut self, step: Step) -> (r: Result<(), LedError>)
        ensures
            final(self)@ == old(self)@,
            step matches Step::SetColour(c) ==> {
                &&& final(self).led().colour() == c
                &&& final(self).led().brightness() == old(self).led().brightness()
                &&& r is Ok ==> final(self).led().duties() == rgbled::colour_duty_cycles(
                    c,
                    old(self).led().brightness(),
                    old(self).led().period_ns(),
                )
            },
            step matches Step::SetBrightness(b) ==> {
                &&& b > FULL_BRIGHTNESS ==> r == Err::<(), LedError>(LedError::Validation)
                    && final(self).led() == old(self).led()
                &&& b <= FULL_BRIGHTNESS ==> {
                    &&& final(self).led().colour() == old(self).led().colour()
                    &&& final(self).led().brightness() == b
                    &&& r is Ok ==> final(self).led().duties() == rgbled::colour_duty_cycles(
                        old(self).led().colour(),
                        b as nat,
                        old(self).led().period_ns(),
                    )
                }
            },
            step is Sleep ==> r is Ok && final(self).led() == old(self).led(),
            final(self).led().enabled() == old(self).led().enabled(),
            final(self).led().period_ns() == old(self).led().period_ns(),
            r matches Err(e) ==> e == LedError::HardwareWrite || e == LedError::Validation,
    {
        match step {
            Step::SetColour(c) => self.driver.set_colour(c),
            Step::SetBrightness(b) => {
                if b > FULL_BRIGHTNESS {
                    return Err(LedError::Validation);
                }
                self.driver.set_brightness(b as i32)
            },
            Step::Sleep(_) => Ok(()),
        }
    }

    /// Shuts rendering down: the pattern becomes black at full brightness, a stop is
    /// requested, black is written to the LED and only then are the outputs disabled.
    pub fn teardown(&mut self) -> (r: Result<(), LedError>)
        ensures
            final(self)@ == (HandlerState {
                pattern: Pattern::Full(PwmLedColour { red: 0, green: 0, blue: 0 }),
                running: false,
                stop_requested: true,
                started: true,
            }),
            r is Ok ==> {
                &&& final(self).led().duties() == seq![0nat, 0nat, 0nat]
                &&& final(self).led().switched_duties() == seq![0nat, 0nat, 0nat]
                &&& !final(self).led().enabled()
            },
            r matches Err(e) ==> e == LedError::HardwareWrite,
    {
        let black = PwmLedColour::off();
        self.pattern = Pattern::Full(black);
        self.stop_flag = true;
        self.is_running = false;
        self.has_started = true;
        if let Err(e) = self.driver.set_colour(black) {
            return Err(e);
        }
        if let Err(e) = self.driver.set_brightness(FULL_BRIGHTNESS as i32) {
            return Err(e);
        }
        proof {
            let p = self.driver.period_ns();
            rgbled::lemma_duty_cycle_bound(0, FULL_BRIGHTNESS as nat, p);
            assert(rgbled::colour_duty_cycles(black, FULL_BRIGHTNESS as nat, p) =~= seq![0nat, 0nat, 0nat]);
        }
        self.driver.set_enable(false)
    }

    /// Tears down as `teardown` does, then disables and unexports the channels. Every step
    /// is attempted; any failure is reported as a teardown error.
    pub fn close(self) -> (r: Result<(), LedError>)
        ensures
            r matches Err(e) ==> e == LedError::Teardown,
    {
        let mut handler = self;
        let shown = handler.teardown();
        let closed = handler.driver.close();
        if shown.is_err() || closed.is_err() {
            return Err(LedError::Teardown);
        }
        Ok(())
    }
}

} // verus!
