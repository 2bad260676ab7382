use sky_gradient::cycle::{
    try_update_sky_time, update_sky_time, ConfigurationError, SkyCyclePlugin, SkyTime, SkyTimeSettings,
    TICKS_PER_SECOND,
};
use sky_gradient::fixed::{HALF, ONE, PI};

fn settings() -> SkyTimeSettings {
    SkyTimeSettings::new(15, 25, 2, 2).unwrap()
}

#[test]
fn start_of_day_is_zero_everywhere() {
    let s = settings();
    assert_eq!(s.day_percent(0), 0);
    assert_eq!(s.night_percent(0), 0);
    assert_eq!(s.time_percent(0), 0);
    assert_eq!(s.night_time_distance(0), 0);
}

#[test]
fn end_of_day_is_half_of_the_cycle() {
    let s = settings();
    let mut time = SkyTime { time: 0, auto_tick: true };
    update_sky_time(&mut time, 15, &s);
    assert_eq!(time.time, 15);
    assert_eq!(s.day_percent(time.time), ONE);
    assert_eq!(s.night_percent(time.time), 0);
    assert_eq!(s.time_percent(time.time), HALF);
}

#[test]
fn percents_round_down() {
    let s = settings();
    // 5 / 15 of one, rounded down
    assert_eq!(s.day_percent(5), 21845);
    // (20 - 15) / 25
    assert_eq!(s.night_percent(20), 13107);
    assert_eq!(s.time_percent(20), (65536 + 13107) / 2);
    assert_eq!(s.time_percent(5), 21845 / 2);
}

#[test]
fn time_percent_never_goes_down() {
    let s = settings();
    let mut last = 0;
    for t in 0..=45 {
        let p = s.time_percent(t);
        assert!(p >= last, "time {t}");
        last = p;
    }
    assert_eq!(s.time_percent(40), ONE);
}

#[test]
fn time_percent_makes_no_jump_at_the_boundary() {
    let s = SkyTimeSettings::new(15_000, 25_000, 2_000, 2_000).unwrap();
    let before = s.time_percent(14_999);
    let at = s.time_percent(15_000);
    let after = s.time_percent(15_001);
    assert_eq!(at, HALF);
    assert!(at - before <= 3);
    assert!(after - at <= 3);
    // 14999 / 15000 of one is 65531 units, half of that 32765
    assert_eq!(before, 32765);
    assert_eq!(after, 32769);
}

#[test]
fn night_time_distance_is_a_triangle() {
    let s = SkyTimeSettings::new(10, 20, 1, 1).unwrap();
    for t in 0..=10 {
        assert_eq!(s.night_time_distance(t), 0);
    }
    assert_eq!(s.night_time_distance(15), HALF);
    assert_eq!(s.night_time_distance(20), ONE);
    assert_eq!(s.night_time_distance(25), HALF);
    assert_eq!(s.night_time_distance(30), 0);
    // past the end of the cycle the night fraction exceeds one
    assert_eq!(s.night_time_distance(40), -ONE);
}

#[test]
fn sun_angle_is_half_a_turn_for_each_phase() {
    let s = settings();
    assert_eq!(s.time_2pi(0), 0);
    assert_eq!(s.time_2pi(15), PI);
    assert_eq!(s.time_2pi(40), 2 * PI);
    // half of the day: half of pi, rounded down
    let s2 = SkyTimeSettings::new(10, 10, 0, 0).unwrap();
    assert_eq!(s2.time_2pi(5), PI / 2);
    assert!((PI as f64 / ONE as f64 - std::f64::consts::PI).abs() < 1e-5);
}

#[test]
fn total_time_cannot_overflow() {
    let s = SkyTimeSettings::new(u32::MAX, u32::MAX, 0, 0).unwrap();
    assert_eq!(s.total_time(), 2 * (u32::MAX as u64));
    assert_eq!(settings().total_time(), 40);
}

#[test]
fn sunrise_and_sunset_fractions() {
    let s = settings();
    assert_eq!(s.sunrise_percent_day(), 2 * 65536 / 15);
    assert_eq!(s.sunrise_percent_night(), 2 * 65536 / 25);
    assert_eq!(s.sunset_percent_day(), 8738);
    assert_eq!(s.sunset_percent_night(), 5242);
}

#[test]
fn zero_lengths_are_rejected() {
    assert_eq!(SkyTimeSettings::new(0, 25, 2, 2), Err(ConfigurationError::ZeroDayLength));
    assert_eq!(SkyTimeSettings::new(0, 0, 2, 2), Err(ConfigurationError::ZeroDayLength));
    assert_eq!(SkyTimeSettings::new(15, 0, 2, 2), Err(ConfigurationError::ZeroNightLength));
    let s = SkyTimeSettings { day_ticks: 3, night_ticks: 0, sunrise_ticks: 0, sunset_ticks: 0 };
    assert_eq!(s.validate(), Err(ConfigurationError::ZeroNightLength));
    assert_eq!(settings().validate(), Ok(()));
}

#[test]
fn default_settings_are_in_milliseconds() {
    let s = SkyTimeSettings::default();
    assert_eq!(TICKS_PER_SECOND, 1000);
    assert_eq!(s.day_ticks, 15_000);
    assert_eq!(s.night_ticks, 25_000);
    assert_eq!(s.sunrise_ticks, 2_000);
    assert_eq!(s.sunset_ticks, 2_000);
    let t = SkyTime::default();
    assert_eq!(t.time, 0);
    assert!(t.auto_tick);
    let p = SkyCyclePlugin::default();
    assert_eq!(p.sky_time_settings, s);
    assert_eq!(p.sky_time, t);
}

#[test]
fn time_wraps_once_past_the_end_of_the_cycle() {
    let s = settings();
    let mut time = SkyTime { time: 38, auto_tick: true };
    update_sky_time(&mut time, 2, &s);
    // exactly at the end: not yet past it
    assert_eq!(time.time, 40);
    update_sky_time(&mut time, 1, &s);
    assert_eq!(time.time, 1);
    // one subtraction only, however long the step
    let mut far = SkyTime { time: 0, auto_tick: true };
    update_sky_time(&mut far, 100, &s);
    assert_eq!(far.time, 60);
}

#[test]
fn stopped_clock_does_not_move() {
    let s = settings();
    let mut time = SkyTime { time: 7, auto_tick: false };
    update_sky_time(&mut time, 5, &s);
    assert_eq!(time, SkyTime { time: 7, auto_tick: false });
}

#[test]
fn time_that_cannot_be_counted_stays() {
    let s = settings();
    let mut time = SkyTime { time: u32::MAX, auto_tick: true };
    assert!(!try_update_sky_time(&mut time, u32::MAX, &s));
    assert_eq!(time.time, u32::MAX);
    // the wrap brings this one back into range
    assert!(try_update_sky_time(&mut time, 1, &s));
    assert_eq!(time.time, u32::MAX - 39);
    let mut stopped = SkyTime { time: u32::MAX, auto_tick: false };
    assert!(try_update_sky_time(&mut stopped, u32::MAX, &s));
    assert_eq!(stopped.time, u32::MAX);
    let mut small = SkyTime { time: 3, auto_tick: true };
    assert!(try_update_sky_time(&mut small, 4, &s));
    assert_eq!(small.time, 7);
}
