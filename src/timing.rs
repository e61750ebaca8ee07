use vstd::prelude::*;

use crate::rgbled::{PwmLedColour, FULL_BRIGHTNESS};
use crate::{
    after_boundary, after_set_pattern, after_stop, breathe_half_steps, cycle_pattern,
    pattern_steps, ramp_level, HandlerState, Pattern, Step, BREATHE_UPDATE_PERIOD_MS,
};

verus! {

/// How long an action waits, in milliseconds.
pub open spec fn sleep_ms(s: Step) -> nat {
    match s {
        Step::Sleep(ms) => ms as nat,
        _ => 0,
    }
}

/// The brightness an action sets, in thousandths (zero for other actions).
pub open spec fn brightness_of(s: Step) -> nat {
    match s {
        Step::SetBrightness(b) => b as nat,
        _ => 0,
    }
}

/// Total time that a sequence of actions waits, in milliseconds.
pub open spec fn total_sleep(s: Seq<Step>) -> nat
    decreases s.len(),
{
    if s.len() == 0 {
        0
    } else {
        total_sleep(s.drop_last()) + sleep_ms(s.last())
    }
}

proof fn lemma_total_sleep_push(s: Seq<Step>, x: Step)
    ensures
        total_sleep(s.push(x)) == total_sleep(s) + sleep_ms(x),
{
    assert(s.push(x).drop_last() =~= s);
}

/// A blink cycle shows full brightness for half its duration, then nothing for the
/// other half; its waits add up to the duration (one millisecond short when it is odd).
pub proof fn lemma_blink_cycle(d: u64, c: PwmLedColour)
    ensures
        pattern_steps(Pattern::Blink(d, c)) == seq![
            Step::SetColour(c),
            Step::SetBrightness(FULL_BRIGHTNESS),
            Step::Sleep(d / 2),
            Step::SetBrightness(0),
            Step::Sleep(d / 2),
        ],
        total_sleep(pattern_steps(Pattern::Blink(d, c))) == 2 * (d / 2),
        d - total_sleep(pattern_steps(Pattern::Blink(d, c))) <= 1,
{
    let s = pattern_steps(Pattern::Blink(d, c));
    let p0 = Seq::<Step>::empty();
    assert(total_sleep(p0) == 0);
    let p1 = p0.push(s[0]);
    lemma_total_sleep_push(p0, s[0]);
    let p2 = p1.push(s[1]);
    lemma_total_sleep_push(p1, s[1]);
    let p3 = p2.push(s[2]);
    lemma_total_sleep_push(p2, s[2]);
    let p4 = p3.push(s[3]);
    lemma_total_sleep_push(p3, s[3]);
    let p5 = p4.push(s[4]);
    lemma_total_sleep_push(p4, s[4]);
    assert(s =~= p5);
}

/// A double-blink cycle waits an eighth, an eighth, an eighth and five eighths of its
/// duration; when the duration is a multiple of eight the waits add up to it exactly.
pub proof fn lemma_blink_twice_cycle(d: u64, c: PwmLedColour)
    ensures
        pattern_steps(Pattern::BlinkTwice(d, c)) == seq![
            Step::SetColour(c),
            Step::SetBrightness(FULL_BRIGHTNESS),
            Step::Sleep(d / 8),
            Step::SetBrightness(0),
            Step::Sleep(d / 8),
            Step::SetBrightness(FULL_BRIGHTNESS),
            Step::Sleep(d / 8),
            Step::SetBrightness(0),
            Step::Sleep((d * 5 / 8) as u64),
        ],
        total_sleep(pattern_steps(Pattern::BlinkTwice(d, c))) == 3 * (d / 8) + d * 5 / 8,
        d % 8 == 0 ==> total_sleep(pattern_steps(Pattern::BlinkTwice(d, c))) == d,
{
    let s = pattern_steps(Pattern::BlinkTwice(d, c));
    let p0 = Seq::<Step>::empty();
    assert(total_sleep(p0) == 0);
    let p1 = p0.push(s[0]);
    lemma_total_sleep_push(p0, s[0]);
    let p2 = p1.push(s[1]);
    lemma_total_sleep_push(p1, s[1]);
    let p3 = p2.push(s[2]);
    lemma_total_sleep_push(p2, s[2]);
    let p4 = p3.push(s[3]);
    lemma_total_sleep_push(p3, s[3]);
    let p5 = p4.push(s[4]);
    lemma_total_sleep_push(p4, s[4]);
    let p6 = p5.push(s[5]);
    lemma_total_sleep_push(p5, s[5]);
    let p7 = p6.push(s[6]);
    lemma_total_sleep_push(p6, s[6]);
    let p8 = p7.push(s[7]);
    lemma_total_sleep_push(p7, s[7]);
    let p9 = p8.push(s[8]);
    lemma_total_sleep_push(p8, s[8]);
    assert(s =~= p9);
    assert((d * 5 / 8) as u64 == d * 5 / 8) by (nonlinear_arith)
        requires d <= u64::MAX;
}

proof fn lemma_ramp_level_ordered(n: nat, i: nat, j: nat)
    requires
        i <= j <= n,
    ensures
        ramp_level(n, i) <= ramp_level(n, j),
        ramp_level(n, j) <= FULL_BRIGHTNESS,
{
    if n > 0 {
        assert(i * 1000 <= j * 1000 <= n * 1000) by (nonlinear_arith)
            requires i <= j <= n;
        vstd::arithmetic::div_mod::lemma_div_is_ordered((i * 1000) as int, (j * 1000) as int, n as int);
        vstd::arithmetic::div_mod::lemma_div_is_ordered((j * 1000) as int, (n * 1000) as int, n as int);
        vstd::arithmetic::div_mod::lemma_div_multiples_vanish(1000, n as int);
    }
}

/// A breathe-between-colours cycle shows the first colour while the brightness rises and
/// the second while it falls: the only colour changes are at the start and at the peak.
/// Both halves take the same number of equal ticks; the brightness never falls while
/// rising, never rises while falling, reaches full at the peak and ends at zero.
pub proof fn lemma_breathe_between_colours_cycle(d: u64, a: PwmLedColour, b: PwmLedColour)
    ensures
        ({
            let s = pattern_steps(Pattern::BreatheBetweenColours(d, a, b));
            let n = breathe_half_steps(d) as int;
            &&& s.len() == 4 * n + 2
            &&& s[0] == Step::SetColour(a)
            &&& s[2 * n + 1] == Step::SetColour(b)
            &&& forall|k: int| 0 < k < s.len() && k != 2 * n + 1 ==> !(#[trigger] s[k] is SetColour)
            &&& forall|i: int| 0 <= i < n ==> #[trigger] s[2 + 2 * i] == Step::Sleep(BREATHE_UPDATE_PERIOD_MS)
                && s[2 * n + 3 + 2 * i] == Step::Sleep(BREATHE_UPDATE_PERIOD_MS)
            &&& forall|i: int, j: int| 0 <= i <= j < n ==> {
                &&& #[trigger] s[1 + 2 * i] is SetBrightness && brightness_of(s[1 + 2 * i]) <= brightness_of(#[trigger] s[1 + 2 * j])
                &&& s[2 * n + 2 + 2 * i] is SetBrightness
                &&& brightness_of(s[2 * n + 2 + 2 * i]) >= brightness_of(s[2 * n + 2 + 2 * j])
            }
            &&& n > 0 ==> s[2 * n - 1] == Step::SetBrightness(FULL_BRIGHTNESS) && s[4 * n] == Step::SetBrightness(0)
        }),
{
    let s = pattern_steps(Pattern::BreatheBetweenColours(d, a, b));
    let n = breathe_half_steps(d) as int;
    let up = crate::ramp_up(n as nat);
    let down = crate::ramp_down(n as nat);
    assert(s == seq![Step::SetColour(a)] + up + seq![Step::SetColour(b)] + down);
    assert forall|k: int| 0 < k < s.len() && k != 2 * n + 1 implies !(#[trigger] s[k] is SetColour) by {
        if k <= 2 * n {
            assert(s[k] == up[k - 1]);
        } else {
            assert(s[k] == down[k - 2 * n - 2]);
        }
    }
    assert forall|i: int| 0 <= i < n implies #[trigger] s[2 + 2 * i] == Step::Sleep(BREATHE_UPDATE_PERIOD_MS)
        && s[2 * n + 3 + 2 * i] == Step::Sleep(BREATHE_UPDATE_PERIOD_MS) by {
        assert(s[2 + 2 * i] == up[1 + 2 * i]);
        assert(s[2 * n + 3 + 2 * i] == down[1 + 2 * i]);
    }
    assert forall|i: int, j: int| 0 <= i <= j < n implies {
        &&& #[trigger] s[1 + 2 * i] is SetBrightness && brightness_of(s[1 + 2 * i]) <= brightness_of(#[trigger] s[1 + 2 * j])
        &&& s[2 * n + 2 + 2 * i] is SetBrightness
        &&& brightness_of(s[2 * n + 2 + 2 * i]) >= brightness_of(s[2 * n + 2 + 2 * j])
    } by {
        assert(s[1 + 2 * i] == up[2 * i]);
        assert(s[1 + 2 * j] == up[2 * j]);
        assert(s[2 * n + 2 + 2 * i] == down[2 * i]);
        assert(s[2 * n + 2 + 2 * j] == down[2 * j]);
        lemma_ramp_level_ordered(n as nat, (i + 1) as nat, (j + 1) as nat);
        lemma_ramp_level_ordered(n as nat, (j + 1) as nat, n as nat);
        lemma_ramp_level_ordered(n as nat, (n - 1 - j) as nat, (n - 1 - i) as nat);
        lemma_ramp_level_ordered(n as nat, (n - 1 - i) as nat, n as nat);
    }
    if n > 0 {
        assert(s[2 * n - 1] == up[2 * n - 2]);
        assert(s[4 * n] == down[2 * n - 2]);
        vstd::arithmetic::div_mod::lemma_div_multiples_vanish(1000, n);
        assert(ramp_level(n as nat, n as nat) == 1000);
        assert(ramp_level(n as nat, 0) == 0);
        assert(s[2 * n - 1] == Step::SetBrightness(FULL_BRIGHTNESS));
        assert(s[4 * n] == Step::SetBrightness(0));
    }
    assert(s.len() == 4 * n + 2);
    assert(s[0] == Step::SetColour(a));
    assert(s[2 * n + 1] == Step::SetColour(b));
}

/// A pattern set while a cycle renders leaves that cycle as it was: the cycle renders
/// the pattern handed out at its start, and the next boundary hands out the new one.
pub proof fn lemma_set_pattern_takes_effect_at_next_cycle(s: HandlerState, q: Pattern)
    requires
        s.running,
        !s.stop_requested,
    ensures
        cycle_pattern(s) == Some(s.pattern),
        cycle_pattern(after_set_pattern(after_boundary(s), q)) == Some(q),
        after_set_pattern(after_boundary(s), q).running,
{
}

/// A stop requested while a cycle renders lets that whole cycle render; the next boundary
/// hands out nothing and rendering ends there.
pub proof fn lemma_stop_ends_at_next_boundary(s: HandlerState)
    requires
        s.running,
        !s.stop_requested,
    ensures
        cycle_pattern(s) == Some(s.pattern),
        cycle_pattern(after_stop(after_boundary(s))) == None::<Pattern>,
        !after_boundary(after_stop(after_boundary(s))).running,
{
}

} // verus!
