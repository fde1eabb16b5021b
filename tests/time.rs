use foxy::time::{Time, NANOS_PER_SEC};

fn run_frame(time: &mut Time, now: u64) -> u32 {
    time.update(now);
    let mut ticks = 0;
    while time.should_do_tick() {
        time.tick(now);
        ticks += 1;
    }
    ticks
}

#[test]
fn ten_millisecond_frame_at_128_hz_runs_one_tick() {
    let mut time = Time::new(128, 1024).unwrap();
    assert_eq!(time.tick_time(), 7_812_500);
    time.update(10_000_000);
    assert_eq!(time.delta(), 10_000_000);
    assert_eq!(time.lag(), 10_000_000);
    assert!(time.should_do_tick());
    time.tick(10_000_000);
    assert!(!time.should_do_tick());
    assert_eq!(time.step_count(), 1);
    assert_eq!(time.lag(), 2_187_500);
}

#[test]
fn zero_tick_rate_is_rejected() {
    assert!(Time::new(0, 1024).is_none());
}

#[test]
fn tick_rate_above_one_per_nanosecond_is_rejected() {
    assert!(Time::new(1_000_000_001, 4).is_none());
    let fastest = Time::new(NANOS_PER_SEC as u32, 4).unwrap();
    assert_eq!(fastest.tick_time(), 1);
}

#[test]
fn a_stall_is_cut_at_the_bail_threshold() {
    let mut time = Time::new(128, 1024).unwrap();
    // a twenty-second pause: 2560 periods owed
    let ticks = run_frame(&mut time, 20 * NANOS_PER_SEC);
    assert_eq!(ticks, 1024);
    assert!(time.falling_behind());
    assert_eq!(time.lag(), 20 * NANOS_PER_SEC - 1024 * 7_812_500);
    // the next frame again runs at most the threshold
    let ticks = run_frame(&mut time, 20 * NANOS_PER_SEC + 1);
    assert_eq!(ticks, 1024);
}

#[test]
fn small_bail_threshold_bounds_every_frame() {
    let mut time = Time::new(1000, 3).unwrap();
    for frame in 1..20u64 {
        let ticks = run_frame(&mut time, frame * 7_000_000);
        assert!(ticks <= 3);
    }
}

#[test]
fn lag_falls_by_one_period_per_tick() {
    let mut time = Time::new(100, 1024).unwrap();
    time.update(55_000_000);
    let mut expected = 55_000_000;
    while time.should_do_tick() {
        time.tick(55_000_000);
        expected -= 10_000_000;
        assert_eq!(time.lag(), expected);
    }
    assert_eq!(time.step_count(), 5);
    assert_eq!(time.lag(), 5_000_000);
    assert!(time.lag() < time.tick_time());
}

#[test]
fn lag_carries_over_between_frames() {
    let mut time = Time::new(128, 1024).unwrap();
    assert_eq!(run_frame(&mut time, 5_000_000), 0);
    assert_eq!(time.lag(), 5_000_000);
    assert_eq!(run_frame(&mut time, 10_000_000), 1);
    assert_eq!(time.lag(), 2_187_500);
    assert_eq!(time.delta(), 5_000_000);
}

#[test]
fn earlier_reading_counts_as_no_time() {
    let mut time = Time::new(128, 1024).unwrap();
    time.update(10_000_000);
    time.update(4_000_000);
    assert_eq!(time.delta(), 0);
    assert_eq!(time.lag(), 10_000_000);
    time.update(12_000_000);
    assert_eq!(time.delta(), 2_000_000);
}

#[test]
fn tick_delta_measures_time_between_ticks() {
    let mut time = Time::new(10, 1024).unwrap();
    time.update(250_000_000);
    time.tick(250_000_000);
    assert_eq!(time.delta_tick(), 250_000_000);
    time.tick(260_000_000);
    assert_eq!(time.delta_tick(), 10_000_000);
}

#[test]
fn default_clock_is_128_hz_with_1024_bail() {
    let time = Time::default();
    assert_eq!(time.tick_rate(), 128);
    assert_eq!(time.tick_time(), 7_812_500);
    assert_eq!(time.bail_threshold(), 1024);
    assert_eq!(time.lag(), 0);
}

#[test]
fn clock_from_a_period_allows_fractional_rates() {
    let mut time = Time::from_period(2 * NANOS_PER_SEC, 8).unwrap();
    assert_eq!(time.tick_time(), 2_000_000_000);
    assert_eq!(time.tick_rate(), 0);
    time.update(3_000_000_000);
    assert!(time.should_do_tick());
    time.tick(3_000_000_000);
    assert!(!time.should_do_tick());
    assert_eq!(time.lag(), 1_000_000_000);
    let ntsc = Time::from_period(16_683_350, 1024).unwrap();
    assert_eq!(ntsc.tick_rate(), 59);
}

#[test]
fn zero_period_is_rejected() {
    assert!(Time::from_period(0, 1024).is_none());
}
