use talking_airplane::alert::Alert;
use talking_airplane::config::Config;
use talking_airplane::history::History;
use talking_airplane::phase::FlightPhase;
use talking_airplane::pipeline::{instantaneous_rate, process_sample};
use talking_airplane::sample::Sample;

fn level_sample(airspeed: i64) -> Sample {
    Sample { altitude: 0, airspeed, bank: 0, pitch: 0 }
}

#[test]
fn default_config_is_valid() {
    let cfg = Config::default();
    assert!(cfg.valid());
    assert_eq!(cfg.discard_threshold, 1000);
    assert_eq!(cfg.descent_threshold, -200);
    assert_eq!(cfg.climb_threshold, 200);
    assert_eq!(cfg.window_size, 30);
    assert_eq!(cfg.countdown_minutes, None);
}

#[test]
fn rising_100_feet_over_a_minute_is_100_feet_per_minute() {
    assert_eq!(instantaneous_rate(9000, 9100, 60000), 100);
    assert_eq!(instantaneous_rate(9100, 9000, 60000), -100);
    // Sub-minute interval scales up: 50 feet in 30 s is 100 ft/min.
    assert_eq!(instantaneous_rate(0, 50, 30000), 100);
}

#[test]
fn rate_rounds_toward_zero_in_both_directions() {
    // 100 ft in 90 s is 66.67 ft/min: truncated toward zero either way.
    assert_eq!(instantaneous_rate(0, 100, 90000), 66);
    assert_eq!(instantaneous_rate(100, 0, 90000), -66);
}

#[test]
fn zero_elapsed_time_skips_the_estimate() {
    let cfg = Config::default();
    let mut h = History::new(&cfg, 5000);
    let s = Sample { altitude: 400, airspeed: 0, bank: 0, pitch: 0 };
    // The clock has not advanced: no division, no filter update.
    let alerts = process_sample(&mut h, &cfg, &s, 5000);
    assert_eq!(h.average_vert_speed.counter, 0);
    assert_eq!(h.last_time, 5000);
    assert_eq!(h.last_altitude, 400);
    assert!(alerts.is_empty());
}

#[test]
fn rate_at_the_discard_threshold_is_discarded() {
    let cfg = Config::default(); // discard threshold 1000
    let mut h = History::new(&cfg, 0);
    // 1000 ft in 60 s is exactly 1000 ft/min: the >= boundary discards it.
    let s = Sample { altitude: 1000, airspeed: 0, bank: 0, pitch: 0 };
    process_sample(&mut h, &cfg, &s, 60000);
    assert_eq!(h.average_vert_speed.counter, 0, "filter must not be fed");
    assert_eq!(h.last_time, 0, "sample clock must not advance on a discard");
    assert_eq!(h.last_altitude, 1000, "altitude memory advances even on a discard");
}

#[test]
fn rate_below_the_discard_threshold_is_accepted() {
    let cfg = Config::default();
    let mut h = History::new(&cfg, 0);
    let s = Sample { altitude: 999, airspeed: 0, bank: 0, pitch: 0 };
    process_sample(&mut h, &cfg, &s, 60000);
    assert_eq!(h.average_vert_speed.counter, 1);
    assert_eq!(h.average_vert_speed.average, 999);
    assert_eq!(h.last_time, 60000);
    assert_eq!(h.last_altitude, 999);
}

#[test]
fn warnings_three_seconds_apart_speak_once_six_apart_twice() {
    let cfg = Config { max_speed_warning: Some(100), ..Config::default() };
    let mut h = History::new(&cfg, 0);
    let fast = level_sample(120);
    let spoken = |alerts: &[Alert]| {
        alerts
            .iter()
            .filter(|a| matches!(a, Alert::AirspeedTooHigh { .. }))
            .count()
    };
    // 6 s after start: the suppression window has expired.
    let a1 = process_sample(&mut h, &cfg, &fast, 6000);
    assert_eq!(spoken(&a1), 1);
    // 3 s later: suppressed.
    let a2 = process_sample(&mut h, &cfg, &fast, 9000);
    assert_eq!(spoken(&a2), 0);
    // 6 s after the spoken one: spoken again.
    let a3 = process_sample(&mut h, &cfg, &fast, 12000);
    assert_eq!(spoken(&a3), 1);
}

#[test]
fn bank_and_pitch_compare_magnitudes() {
    let cfg = Config {
        max_bank_warning: Some(30),
        max_pitch_warning: Some(20),
        ..Config::default()
    };
    let mut h = History::new(&cfg, 0);
    let s = Sample { altitude: 0, airspeed: 0, bank: -40, pitch: 0 };
    let alerts = process_sample(&mut h, &cfg, &s, 6000);
    assert!(alerts.contains(&Alert::BankTooHigh { bank: -40 }));
    // The shared gate lets only one warning through per tick and per window.
    let s2 = Sample { altitude: 0, airspeed: 0, bank: -40, pitch: -25 };
    let alerts2 = process_sample(&mut h, &cfg, &s2, 20000);
    assert_eq!(alerts2, vec![Alert::BankTooHigh { bank: -40 }]);
}

#[test]
fn no_low_speed_warning_before_the_latch_is_set() {
    let cfg = Config { min_speed_warning: Some(50), ..Config::default() };
    let mut h = History::new(&cfg, 0);
    // Below the minimum from sample one: never warned, never latched.
    for k in 1..20u64 {
        let alerts = process_sample(&mut h, &cfg, &level_sample(30), k * 6000);
        assert!(alerts.iter().all(|a| !matches!(a, Alert::AirspeedBelowMinimum { .. })));
    }
    assert!(!h.minspeed_ever_exceeded);
    // Exceeding the minimum sets the latch silently.
    let latching = process_sample(&mut h, &cfg, &level_sample(60), 200000);
    assert!(latching.iter().all(|a| !matches!(a, Alert::AirspeedBelowMinimum { .. })));
    assert!(h.minspeed_ever_exceeded);
    // Now a slow sample is a warning candidate.
    let warned = process_sample(&mut h, &cfg, &level_sample(30), 300000);
    assert!(warned.contains(&Alert::AirspeedBelowMinimum { minimum: 50 }));
}

#[test]
fn countdown_fires_exactly_once() {
    let cfg = Config { countdown_minutes: Some(1), ..Config::default() };
    let mut h = History::new(&cfg, 0);
    assert_eq!(h.timer, Some(60000));
    let quiet = level_sample(0);
    let before = process_sample(&mut h, &cfg, &quiet, 59999);
    assert!(!before.contains(&Alert::TimerElapsed));
    let firing = process_sample(&mut h, &cfg, &quiet, 60000);
    assert_eq!(firing, vec![Alert::TimerElapsed]);
    assert_eq!(h.timer, None);
    let after = process_sample(&mut h, &cfg, &quiet, 70000);
    assert!(!after.contains(&Alert::TimerElapsed));
    let long_after = process_sample(&mut h, &cfg, &quiet, 10_000_000);
    assert!(!long_after.contains(&Alert::TimerElapsed));
    assert_eq!(h.timer, None);
}

#[test]
fn climb_crosses_ten_thousand_feet_exactly_once() {
    // A gentle sustained climb: samples a minute apart so the computed rates
    // stay small, thresholds tuned so the climb is held.
    let cfg = Config {
        discard_threshold: 100000,
        climb_threshold: 10,
        descent_threshold: -10,
        window_size: 1,
        ..Config::default()
    };
    let mut h = History::new(&cfg, 0);
    let mut passing_ten = 0usize;
    let altitudes: [i64; 4] = [9800, 9850, 9900, 10050];
    for k in 0..4usize {
        let alt: i64 = altitudes[k];
        let s = Sample { altitude: alt, airspeed: 100, bank: 0, pitch: 0 };
        let now: u64 = (k as u64 + 1) * 60000;
        let alerts = process_sample(&mut h, &cfg, &s, now);
        let here: usize = alerts
            .iter()
            .filter(|a| **a == Alert::PassingThousandFeet { thousands: 10 })
            .count();
        if alt == 10050 {
            assert_eq!(here, 1, "the crossing sample announces ten thousand feet");
        } else {
            assert_eq!(here, 0, "no announcement before the band changes");
        }
        passing_ten += here;
        assert_eq!(h.inferred_phase, FlightPhase::Climb);
    }
    assert_eq!(passing_ten, 1);
}

#[test]
fn leveling_off_and_new_cruise_are_announced_end_to_end() {
    let cfg = Config { discard_threshold: 100000, window_size: 1, ..Config::default() };
    let mut h = History::new(&cfg, 0);
    // Strong climb rate out of the initial cruise.
    let s1 = Sample { altitude: 6000, airspeed: 120, bank: 0, pitch: 0 };
    let a1 = process_sample(&mut h, &cfg, &s1, 60000);
    assert!(a1.contains(&Alert::Climbing));
    // Rate settles inside both thresholds: level off into a new cruise.
    let s2 = Sample { altitude: 6000, airspeed: 120, bank: 0, pitch: 0 };
    let a2 = process_sample(&mut h, &cfg, &s2, 120000);
    assert!(a2.contains(&Alert::LevelingOff));
    assert_eq!(h.inferred_phase, FlightPhase::Cruise { airspeed: 120, altitude: 6000 });
    // Drift 600 feet upward over five minutes: the rate (120 ft/min) stays
    // inside the thresholds, and the cruise is re-announced.
    let s3 = Sample { altitude: 6600, airspeed: 120, bank: 0, pitch: 0 };
    let a3 = process_sample(&mut h, &cfg, &s3, 420000);
    assert!(a3.contains(&Alert::NowCruising { altitude: 6500, airspeed: 120 }));
}
