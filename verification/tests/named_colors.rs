use sky_gradient::ambient::{
    drive_ambience, AmbientColors, AmbientColorsBuilder, AmbientDriverPlugin, AmbientSettings,
    DEFAULT_BRIGHTNESS_MULTIPLIER,
};
use sky_gradient::cycle::{SkyTime, SkyTimeSettings};
use sky_gradient::fixed::{Fixed, HALF, ONE};
use sky_gradient::gradient::{unit_color, Gradient};
use sky_gradient::named_colors::{place_stops, GradientBuilder, ScalarGradientBuilder};
use sky_gradient::sky_colors::{
    drive_gradients, GradientDriverPlugin, SkyColors, SkyColorsBuilder, StopsColors,
};

const SUNRISE: [u8; 4] = [255, 70, 70, 255];
const DAY_LOW: [u8; 4] = [157, 157, 248, 255];
const DAY_HIGH: [u8; 4] = [48, 48, 255, 255];
const SUNSET: [u8; 4] = [240, 84, 47, 255];
const NIGHT_LOW: [u8; 4] = [0, 3, 40, 255];
const NIGHT_HIGH: [u8; 4] = [0, 0, 45, 255];

fn builder() -> GradientBuilder {
    GradientBuilder {
        sunrise_color: SUNRISE,
        day_low_color: DAY_LOW,
        day_high_color: DAY_HIGH,
        sunset_color: SUNSET,
        night_low_color: NIGHT_LOW,
        night_high_color: NIGHT_HIGH,
    }
}

#[test]
fn nine_stops_are_placed_by_the_phase_lengths() {
    let s = SkyTimeSettings::default();
    let stops = place_stops(&s, 0u8, 1u8, 2u8, 3u8, 4u8, 5u8);
    let expected: Vec<(Fixed, u8)> = vec![
        (0, 0),
        (4369, 1),
        (16384, 2),
        (28399, 1),
        (32768, 3),
        (35389, 4),
        (49152, 5),
        (62915, 4),
        (65536, 0),
    ];
    assert_eq!(stops, expected);
    // the same in floating point, up to the rounding of the fixed-point numbers
    let sunrise_end = 2.0f32 / 15.0 * 0.5;
    assert!((stops[1].0 as f32 / ONE as f32 - sunrise_end).abs() < 2.0 / 65536.0);
    let sunrise_start = 1.0f32 - 2.0 / 25.0 * 0.5;
    assert!((stops[7].0 as f32 / ONE as f32 - sunrise_start).abs() < 2.0 / 65536.0);
}

#[test]
fn stops_out_of_order_are_sorted() {
    // a sunset longer than the day puts its start before the day begins
    let s = SkyTimeSettings::new(10, 10, 0, 30).unwrap();
    let raw = place_stops(&s, 0u8, 1u8, 2u8, 3u8, 4u8, 5u8);
    assert_eq!(raw[3].0, HALF - 3 * HALF);
    assert_eq!(raw[2].0, -HALF);
    let g = builder().build_gradient(&s);
    assert!(g.is_sorted());
    assert_eq!(g.stops.len(), 9);
    assert_eq!(g.stops[0], (-ONE, DAY_LOW));
    assert_eq!(g.stops[1], (-HALF, DAY_HIGH));
    assert_eq!(g.stops[2], (0, SUNRISE));
    assert_eq!(g.stops[3], (0, DAY_LOW));
}

#[test]
fn named_gradient_runs_through_the_named_colours() {
    let s = SkyTimeSettings::default();
    let g = builder().build_gradient(&s);
    assert_eq!(g.sample_at(0), unit_color(SUNRISE));
    assert_eq!(g.sample_at(4369), unit_color(DAY_LOW));
    assert_eq!(g.sample_at(16384), unit_color(DAY_HIGH));
    assert_eq!(g.sample_at(28399), unit_color(DAY_LOW));
    assert_eq!(g.sample_at(HALF), unit_color(SUNSET));
    assert_eq!(g.sample_at(35389), unit_color(NIGHT_LOW));
    assert_eq!(g.sample_at(49152), unit_color(NIGHT_HIGH));
    assert_eq!(g.sample_at(62915), unit_color(NIGHT_LOW));
    assert_eq!(g.sample_at(ONE), unit_color(SUNRISE));
}

#[test]
fn named_gradient_closes_without_a_seam() {
    for (day, night, sunrise, sunset) in [(15, 25, 2, 2), (15_000, 25_000, 2_000, 2_000), (7, 3, 1, 2)]
    {
        let s = SkyTimeSettings::new(day, night, sunrise, sunset).unwrap();
        let g = builder().build_gradient(&s);
        assert_eq!(g.sample_at(0), g.sample_at(ONE));
        assert_eq!(g.sample_at(0), unit_color(SUNRISE));
    }
}

#[test]
fn without_a_sunrise_the_cycle_ends_in_the_night_colour() {
    // the start of the sunrise then lies at one, in front of the closing stop
    let s = SkyTimeSettings::new(15, 25, 0, 2).unwrap();
    let g = builder().build_gradient(&s);
    assert_eq!(g.sample_at(0), unit_color(SUNRISE));
    assert_eq!(g.sample_at(ONE), unit_color(NIGHT_LOW));
}

#[test]
fn six_equal_colours_give_a_constant_gradient() {
    let c = [12, 200, 99, 255];
    let b = GradientBuilder {
        sunrise_color: c,
        day_low_color: c,
        day_high_color: c,
        sunset_color: c,
        night_low_color: c,
        night_high_color: c,
    };
    let s = SkyTimeSettings::new(15, 25, 0, 0).unwrap();
    let g = b.build_gradient(&s);
    for t in (-10..=ONE + 10).step_by(97) {
        assert_eq!(g.sample_at(t), unit_color(c));
    }
    let splat = StopsColors::new_splat(c);
    let sky = SkyColorsBuilder {
        sunset_color: splat,
        sunrise_color: splat,
        day_low_color: splat,
        day_high_color: splat,
        night_low_color: splat,
        night_high_color: splat,
    }
    .build(&SkyTimeSettings::default());
    for t in [0, 1, 4369, 20_000, HALF, 50_000, ONE] {
        assert_eq!(sky.sky_color0.sample_at(t), unit_color(c));
        assert_eq!(sky.sky_color3.sample_at(t), unit_color(c));
    }
}

#[test]
fn scalar_builder_places_the_same_stops() {
    let b = ScalarGradientBuilder {
        sunrise_color: 10,
        day_low_color: 20,
        day_high_color: 30,
        sunset_color: 40,
        night_low_color: 50,
        night_high_color: 60,
    };
    let g = b.build_gradient(&SkyTimeSettings::default());
    let expected: Vec<(Fixed, Fixed)> = vec![
        (0, 10),
        (4369, 20),
        (16384, 30),
        (28399, 20),
        (32768, 40),
        (35389, 50),
        (49152, 60),
        (62915, 50),
        (65536, 10),
    ];
    assert_eq!(g.stops, expected);
    assert_eq!(g.sample_at(0), g.sample_at(ONE));
    // half way between the stops at 16384 and 28399
    assert_eq!(g.sample_at(22391), 25);
}

#[test]
fn stops_colors_pick_by_number() {
    let c = StopsColors { stop0: [0; 4], stop1: [1; 4], stop2: [2; 4], stop3: [3; 4] };
    assert_eq!(c.get_stop(0), [0; 4]);
    assert_eq!(c.get_stop(1), [1; 4]);
    assert_eq!(c.get_stop(2), [2; 4]);
    assert_eq!(c.get_stop(3), [3; 4]);
    assert_eq!(c.get_stop(4), [3; 4]);
    assert_eq!(c.get_stop(-1), [3; 4]);
    assert_eq!(c.get_stop(i32::MIN), [3; 4]);
    let s = StopsColors::new_splat([9, 8, 7, 6]);
    assert_eq!(s.stop0, [9, 8, 7, 6]);
    assert_eq!(s.stop3, s.stop1);
    assert_eq!(s.stop2, s.stop0);
}

#[test]
fn sky_builder_makes_one_gradient_for_each_stop() {
    let b = SkyColorsBuilder::default();
    assert_eq!(b.sunrise_color.stop0, [255, 70, 70, 255]);
    assert_eq!(b.night_high_color.stop3, [0, 0, 43, 255]);
    assert_eq!(b.day_high_color.stop1, [0, 226, 255, 255]);
    assert_eq!(GradientDriverPlugin::default().sky_colors_builder, b);
    let s = SkyTimeSettings::default();
    let sky = b.build(&s);
    assert!(sky.is_sorted());
    assert_eq!(sky.sky_color2, b.make_gradient_for_stop(2, &s));
    assert_eq!(sky.sky_color3, b.make_gradient_for_stop(7, &s));
    assert_eq!(sky.sky_color1.stops[4], (HALF, [243, 84, 47, 255]));
    assert_eq!(sky.sky_color0.stops[2], (16384, [48, 48, 255, 255]));
    assert_eq!(sky.clone(), sky);
    let d = SkyColors::default();
    assert_eq!(d.sky_color0, Gradient::default());
    assert_eq!(d.sky_color3, Gradient::default());
}

#[test]
fn gradients_are_driven_by_the_time() {
    let s = SkyTimeSettings::default();
    let sky = SkyColorsBuilder::default().build(&s);
    let at_start = drive_gradients(&s, &SkyTime { time: 0, auto_tick: true }, &sky);
    assert_eq!(at_start[0], unit_color([255, 70, 70, 255]));
    assert_eq!(at_start[3], unit_color([73, 177, 250, 255]));
    let at_dusk = drive_gradients(&s, &SkyTime { time: 15_000, auto_tick: false }, &sky);
    assert_eq!(at_dusk[1], unit_color([243, 84, 47, 255]));
    let at_noon = drive_gradients(&s, &SkyTime { time: 7_500, auto_tick: true }, &sky);
    assert_eq!(at_noon[2], unit_color([0, 170, 255, 255]));
    assert_eq!(at_noon[0], sky.sky_color0.sample_at(s.time_percent(7_500)));
}

#[test]
fn ambient_light_follows_the_time() {
    let s = SkyTimeSettings::default();
    let b = AmbientColorsBuilder::default();
    assert_eq!(b.scalar_gradient.day_high_color, ONE);
    assert_eq!(b.scalar_gradient.night_high_color, 9830);
    assert_eq!(b.color_gradient.night_low_color, [150, 150, 225, 255]);
    let colors = b.build(&s);
    assert!(colors.is_sorted());
    let settings = AmbientSettings::default();
    assert_eq!(settings.brightness_multiplier, DEFAULT_BRIGHTNESS_MULTIPLIER);
    assert_eq!(settings.brightness_multiplier, 7000 * ONE);
    let noon = drive_ambience(&s, &SkyTime { time: 7_500, auto_tick: true }, &settings, &colors);
    assert_eq!(noon.color, unit_color([255, 255, 200, 255]));
    assert_eq!(noon.brightness, 7000 * ONE);
    let dawn = drive_ambience(&s, &SkyTime { time: 0, auto_tick: true }, &settings, &colors);
    // four tenths of seven thousand, up to the rounding of four tenths
    assert_eq!(dawn.brightness, 26214 * 7000);
    assert!((dawn.brightness as f64 / ONE as f64 - 2800.0).abs() < 0.1);
    let p = AmbientDriverPlugin::default();
    assert_eq!(p.ambient_colors_builder, b);
    assert_eq!(p.ambient_settings, settings);
    let d = AmbientColors::default();
    assert_eq!(d.color_gradient, Gradient::default());
    assert_eq!(d.clone(), d);
    let dark = drive_ambience(
        &s,
        &SkyTime { time: 0, auto_tick: true },
        &AmbientSettings { brightness_multiplier: i64::MAX },
        &d,
    );
    assert_eq!(dark.brightness, 0);
}
