use betterjeb::maneuver::{
    burn_duration, burn_time, burn_window, exp_fixed, BurnExecutor, BurnPhase, SCALE,
};

#[test]
fn exponential_series_values() {
    assert_eq!(exp_fixed(0), SCALE);
    // e at fixed point, truncated series: just under the real 2718281.
    assert_eq!(exp_fixed(SCALE), 2_718_277);
}

#[test]
fn burn_duration_is_zero_at_zero_delta_v() {
    assert_eq!(burn_duration(0, 10_000, 200_000, 300), 0);
}

#[test]
fn burn_duration_example() {
    // 10 t vehicle, 200 kN, isp 300 s: a 1000 m/s burn takes 42 s.
    assert_eq!(burn_duration(1_000, 10_000, 200_000, 300), 42);
    assert_eq!(burn_duration(2_000, 10_000, 200_000, 300), 72);
}

#[test]
fn burn_duration_grows_with_delta_v() {
    let mut prev: u64 = 0;
    let mut dv: u64 = 0;
    while dv <= 8_000 {
        let t = burn_duration(dv, 10_000, 200_000, 300);
        assert!(t >= prev);
        prev = t;
        dv += 125;
    }
}

#[test]
fn split_burn_brackets_the_node() {
    let (before, after) = burn_time(1_000, 10_000, 200_000, 300);
    assert_eq!((before, after), (22, 19));
    // The second half starts lighter, so it takes less time.
    assert!(after <= before);
    let (start, stop) = burn_window(100_000, before, after);
    assert_eq!(start, 99_978);
    assert_eq!(stop, 100_019);
}

#[test]
fn executor_ignites_at_window_start() {
    let mut exec = BurnExecutor::new(1_000);
    assert!(!exec.time_tick(400));
    assert!(!exec.time_tick(999));
    assert!(exec.time_tick(1_000));
    assert_eq!(exec.phase, BurnPhase::Burning);
    // Already burning: later time samples change nothing.
    assert!(!exec.time_tick(1_001));
}

#[test]
fn executor_cuts_on_first_non_decreasing_sample() {
    let mut exec = BurnExecutor::new(1_000);
    // Samples before ignition are ignored.
    assert!(!exec.dv_tick(500));
    assert!(exec.time_tick(1_000));
    // Strictly decreasing remaining delta-v keeps the throttle open.
    assert!(!exec.dv_tick(500));
    assert!(!exec.dv_tick(300));
    assert!(!exec.dv_tick(120));
    // The signal never reaches zero; the first uptick cuts the burn.
    assert!(exec.dv_tick(121));
    assert_eq!(exec.phase, BurnPhase::Done);
    assert!(!exec.dv_tick(50));
}

#[test]
fn executor_cuts_on_stall_too() {
    let mut exec = BurnExecutor::new(0);
    assert!(exec.time_tick(0));
    assert!(!exec.dv_tick(80));
    // An exactly equal sample already counts as non-decreasing.
    assert!(exec.dv_tick(80));
    assert_eq!(exec.phase, BurnPhase::Done);
}
