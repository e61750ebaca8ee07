use sysfs_pwm_patterns::rgbled::{PwmLedColour, FULL_BRIGHTNESS};
use sysfs_pwm_patterns::{Pattern, Step, BREATHE_UPDATE_PERIOD_MS};

fn steps(p: &Pattern) -> Vec<Step> {
    (0..p.step_count()).map(|k| p.step_at(k)).collect()
}

fn total_sleep(s: &[Step]) -> u64 {
    s.iter()
        .map(|st| match st {
            Step::Sleep(ms) => *ms,
            _ => 0,
        })
        .sum()
}

#[test]
fn colour_fractions_round_trip() {
    for r in 0..=255u8 {
        let c = PwmLedColour::new(r, 255 - r, r / 2);
        let f = c.to_percentages();
        assert_eq!(f.len(), 3);
        let chans = [r, 255 - r, r / 2];
        for i in 0..3 {
            assert!(f[i] <= FULL_BRIGHTNESS);
            let back = (f[i] as f64 * 255.0 / 1000.0).round() as u8;
            assert_eq!(back, chans[i]);
        }
    }
}

#[test]
fn colour_fraction_exact_values() {
    assert_eq!(PwmLedColour::red().to_percentages(), vec![1000, 0, 0]);
    assert_eq!(PwmLedColour::new(128, 1, 0).to_percentages(), vec![502, 4, 0]);
    assert_eq!(PwmLedColour::off().to_percentages(), vec![0, 0, 0]);
}

#[test]
fn colour_presets() {
    assert_eq!(PwmLedColour::orange(), PwmLedColour::new(255, 70, 0));
    assert_eq!(PwmLedColour::yellow(), PwmLedColour::new(200, 255, 0));
    assert_eq!(PwmLedColour::green(), PwmLedColour::new(0, 255, 0));
    assert_eq!(PwmLedColour::blue(), PwmLedColour::new(0, 0, 255));
}

#[test]
fn blink_red_one_second() {
    let red = PwmLedColour::red();
    let s = steps(&Pattern::Blink(1000, red));
    assert_eq!(
        s,
        vec![
            Step::SetColour(red),
            Step::SetBrightness(1000),
            Step::Sleep(500),
            Step::SetBrightness(0),
            Step::Sleep(500),
        ]
    );
    assert_eq!(total_sleep(&s), 1000);
}

#[test]
fn blink_twice_phases() {
    let c = PwmLedColour::orange();
    let s = steps(&Pattern::BlinkTwice(800, c));
    let sleeps: Vec<u64> = s
        .iter()
        .filter_map(|st| match st {
            Step::Sleep(ms) => Some(*ms),
            _ => None,
        })
        .collect();
    assert_eq!(sleeps, vec![100, 100, 100, 500]);
    assert_eq!(total_sleep(&s), 800);
    assert_eq!(s[0], Step::SetColour(c));
}

#[test]
fn blink_between_colours_keeps_brightness() {
    let a = PwmLedColour::red();
    let b = PwmLedColour::green();
    let s = steps(&Pattern::BlinkBetweenColours(1000, a, b));
    assert_eq!(
        s,
        vec![
            Step::SetColour(a),
            Step::SetBrightness(1000),
            Step::Sleep(500),
            Step::SetColour(b),
            Step::Sleep(500),
        ]
    );
}

#[test]
fn breathe_between_colours_halves() {
    let a = PwmLedColour::red();
    let b = PwmLedColour::blue();
    let s = steps(&Pattern::BreatheBetweenColours(2000, a, b));
    // 2000 ms at 5 ms per update: 200 updates per half.
    assert_eq!(s.len(), 4 * 200 + 2);
    assert_eq!(s[0], Step::SetColour(a));
    assert_eq!(s[401], Step::SetColour(b));
    let colours: Vec<usize> = s
        .iter()
        .enumerate()
        .filter(|(_, st)| matches!(st, Step::SetColour(_)))
        .map(|(i, _)| i)
        .collect();
    assert_eq!(colours, vec![0, 401]);
    let up: Vec<u32> = s[1..401]
        .iter()
        .filter_map(|st| match st {
            Step::SetBrightness(v) => Some(*v),
            _ => None,
        })
        .collect();
    let down: Vec<u32> = s[402..]
        .iter()
        .filter_map(|st| match st {
            Step::SetBrightness(v) => Some(*v),
            _ => None,
        })
        .collect();
    assert_eq!(up.len(), 200);
    assert_eq!(down.len(), 200);
    assert!(up.windows(2).all(|w| w[0] <= w[1]));
    assert!(down.windows(2).all(|w| w[0] >= w[1]));
    assert_eq!(up[0], 5);
    assert_eq!(*up.last().unwrap(), 1000);
    assert_eq!(*down.last().unwrap(), 0);
    assert_eq!(total_sleep(&s[..401]), 1000);
    assert_eq!(total_sleep(&s[401..]), 1000);
}

#[test]
fn breathe_single_colour() {
    let c = PwmLedColour::blue();
    let s = steps(&Pattern::Breathe(2500, c));
    assert_eq!(s.len(), 1 + 4 * 250);
    assert_eq!(s[0], Step::SetColour(c));
    assert_eq!(s[1], Step::SetBrightness(4));
    assert_eq!(s[2], Step::Sleep(BREATHE_UPDATE_PERIOD_MS));
    assert_eq!(s[499], Step::SetBrightness(1000));
    assert_eq!(s[501], Step::SetBrightness(996));
    assert_eq!(s[999], Step::SetBrightness(0));
    assert_eq!(total_sleep(&s), 2500);
}

#[test]
fn breathe_shorter_than_a_tick() {
    let s = steps(&Pattern::Breathe(9, PwmLedColour::red()));
    assert_eq!(s, vec![Step::SetColour(PwmLedColour::red())]);
}

#[test]
fn full_is_static() {
    let c = PwmLedColour::yellow();
    let s = steps(&Pattern::Full(c));
    assert_eq!(s, vec![Step::SetColour(c), Step::SetBrightness(1000)]);
    assert_eq!(total_sleep(&s), 0);
}

#[test]
fn blink_twice_long_duration_does_not_overflow() {
    let s = steps(&Pattern::BlinkTwice(u64::MAX, PwmLedColour::red()));
    assert_eq!(s[8], Step::Sleep(((u64::MAX as u128) * 5 / 8) as u64));
}
