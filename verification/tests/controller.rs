use sky_gradient::ambient::{AmbientColorsBuilder, AmbientSettings};
use sky_gradient::controller::SkyController;
use sky_gradient::cycle::{ConfigurationError, SkyTime, SkyTimeSettings};
use sky_gradient::fixed::{HALF, ONE, PI};
use sky_gradient::gradient::unit_color;
use sky_gradient::sky_colors::{SkyColorsBuilder, StopsColors};

fn sky(settings: SkyTimeSettings) -> Result<SkyController, ConfigurationError> {
    SkyController::new(
        settings,
        SkyTime::default(),
        SkyColorsBuilder::default(),
        AmbientColorsBuilder::default(),
        AmbientSettings::default(),
    )
}

#[test]
fn controller_refuses_timings_without_day_or_night() {
    let no_day =
        SkyTimeSettings { day_ticks: 0, night_ticks: 5, sunrise_ticks: 0, sunset_ticks: 0 };
    let no_night =
        SkyTimeSettings { day_ticks: 5, night_ticks: 0, sunrise_ticks: 0, sunset_ticks: 0 };
    assert_eq!(sky(no_day).err(), Some(ConfigurationError::ZeroDayLength));
    assert_eq!(sky(no_night).err(), Some(ConfigurationError::ZeroNightLength));
    let mut c = sky(SkyTimeSettings::default()).unwrap();
    assert_eq!(c.set_time_settings(no_day), Err(ConfigurationError::ZeroDayLength));
    assert_eq!(c.set_time_settings(no_night), Err(ConfigurationError::ZeroNightLength));
    assert_eq!(c.settings(), SkyTimeSettings::default());
    assert!(!c.is_stale());
}

#[test]
fn frames_move_the_time_and_sample_the_sky() {
    let mut c = sky(SkyTimeSettings::default()).unwrap();
    let start = c.frame(0);
    assert_eq!(start.time, 0);
    assert_eq!(start.color_stops[0], unit_color([255, 70, 70, 255]));
    assert_eq!(start.night_time_distance, 0);
    assert_eq!(start.sun_angle, 0);
    let dusk = c.frame(15_000);
    assert_eq!(dusk.time, 15_000);
    assert_eq!(c.time().time, 15_000);
    assert_eq!(dusk.color_stops[3], unit_color([73, 177, 250, 255]));
    assert_eq!(dusk.sun_angle, PI);
    assert_eq!(dusk.night_time_distance, 0);
    let midnight = c.frame(12_500);
    assert_eq!(midnight.night_time_distance, ONE);
    assert_eq!(midnight.color_stops[2], unit_color([0, 0, 112, 255]));
    assert_eq!(midnight.ambience.color, unit_color([100, 100, 150, 255]));
    assert_eq!(midnight.ambience.brightness, 9830 * 7000);
    let wrapped = c.frame(12_501);
    assert_eq!(wrapped.time, 1);
}

#[test]
fn a_change_of_settings_shows_in_the_next_frame() {
    let mut c = sky(SkyTimeSettings::default()).unwrap();
    c.set_time(SkyTime { time: 5_000, auto_tick: false });
    let before = c.frame(1_000);
    assert_eq!(before.time, 5_000);
    // a day of five seconds: the same time is now the end of the day
    let short = SkyTimeSettings::new(5_000, 5_000, 100, 100).unwrap();
    assert_eq!(c.set_time_settings(short), Ok(()));
    assert!(c.is_stale());
    let after = c.frame(1_000);
    assert!(!c.is_stale());
    assert_eq!(after.time, 5_000);
    assert_eq!(after.sun_angle, PI);
    assert_eq!(after.color_stops[0], unit_color([255, 70, 70, 255]));
    assert_ne!(after.color_stops, before.color_stops);
    // a new look shows in the next frame as well
    let green = StopsColors::new_splat([0, 255, 0, 255]);
    c.set_sky_colors_builder(SkyColorsBuilder {
        sunset_color: green,
        sunrise_color: green,
        day_low_color: green,
        day_high_color: green,
        night_low_color: green,
        night_high_color: green,
    });
    assert!(c.is_stale());
    let painted = c.frame(0);
    for stop in painted.color_stops {
        assert_eq!(stop, [0, ONE, 0, ONE]);
    }
    assert_eq!(painted.ambience, after.ambience);
}

#[test]
fn ambient_changes_show_in_the_next_frame() {
    let mut c = sky(SkyTimeSettings::default()).unwrap();
    c.set_time(SkyTime { time: 7_500, auto_tick: false });
    let noon = c.frame(0);
    assert_eq!(noon.ambience.brightness, 7000 * ONE);
    c.set_ambient_settings(AmbientSettings { brightness_multiplier: 2 * ONE });
    assert!(!c.is_stale());
    assert_eq!(c.frame(0).ambience.brightness, 2 * ONE);
    let mut dim = AmbientColorsBuilder::default();
    dim.scalar_gradient.day_high_color = HALF;
    dim.color_gradient.day_high_color = [1, 2, 3, 4];
    c.set_ambient_colors_builder(dim);
    assert!(c.is_stale());
    let dimmed = c.frame(0);
    assert_eq!(dimmed.ambience.brightness, ONE);
    assert_eq!(dimmed.ambience.color, unit_color([1, 2, 3, 4]));
    assert_eq!(dimmed.color_stops, noon.color_stops);
}
