//! Ambient light that follows the time of day.

use crate::cycle::{SkyTime, SkyTimeSettings};
use crate::fixed::{mul_saturating, mul_saturating_spec, Fixed};
use crate::gradient::{
    sample_color_channel, sample_scalar, Gradient, ScalarGradient, UnitColor,
};
use crate::named_colors::{named_stops, GradientBuilder, ScalarGradientBuilder};
use crate::stops::stable_sort;
use vstd::prelude::*;

verus! {

/// The ambient light over the cycle: its colour and its brightness.
#[derive(Debug, PartialEq, Eq)]
pub struct AmbientColors {
    /// Colour of the ambient light over the cycle.
    pub color_gradient: Gradient,
    /// Brightness of the ambient light over the cycle, as a fraction of the
    /// brightest.
    pub brightness_gradient: ScalarGradient,
}

impl Clone for AmbientColors {
    fn clone(&self) -> (copy: Self)
        ensures
            copy.color_gradient@ == self.color_gradient@,
            copy.brightness_gradient@ == self.brightness_gradient@,
    {
        AmbientColors {
            color_gradient: self.color_gradient.clone(),
            brightness_gradient: self.brightness_gradient.clone(),
        }
    }
}

impl Default for AmbientColors {
    /// Light that goes from black to white and from dark to bright.
    fn default() -> (colors: Self)
        ensures
            colors.wf(),
            colors.color_gradient@ == seq![
                (0i64, [0u8, 0u8, 0u8, 255u8]),
                (crate::fixed::ONE, [255u8, 255u8, 255u8, 255u8]),
            ],
            colors.brightness_gradient@ == seq![
                (0i64, 0i64),
                (crate::fixed::ONE, crate::fixed::ONE),
            ],
    {
        AmbientColors {
            color_gradient: Gradient::default(),
            brightness_gradient: ScalarGradient::default(),
        }
    }
}

impl AmbientColors {
    /// Both gradients have their stops in order.
    pub open spec fn wf(&self) -> bool {
        self.color_gradient.wf() && self.brightness_gradient.wf()
    }

    /// Whether both gradients have their stops in order.
    pub fn is_sorted(&self) -> (sorted: bool)
        ensures
            sorted == self.wf(),
    {
        self.color_gradient.is_sorted() && self.brightness_gradient.is_sorted()
    }
}

/// How bright the ambient light gets.
#[derive(Clone, Copy, Debug, PartialEq, Eq, Structural)]
pub struct AmbientSettings {
    /// Brightness of the ambient light where the brightness gradient is one.
    pub brightness_multiplier: Fixed,
}

/// The brightness that ambient settings start from: seven thousand.
pub const DEFAULT_BRIGHTNESS_MULTIPLIER: Fixed = 458_752_000;

impl Default for AmbientSettings {
    fn default() -> (settings: Self)
        ensures
            settings.brightness_multiplier == DEFAULT_BRIGHTNESS_MULTIPLIER,
    {
        AmbientSettings { brightness_multiplier: DEFAULT_BRIGHTNESS_MULTIPLIER }
    }
}

/// The ambient light at the six named times of the cycle.
#[derive(Clone, Copy, Debug, PartialEq, Eq)]
pub struct AmbientColorsBuilder {
    /// Colour of the light at the named times.
    pub color_gradient: GradientBuilder,
    /// Brightness of the light at the named times.
    pub scalar_gradient: ScalarGradientBuilder,
}

/// The ambient light that a builder starts from: warm and bright in the day,
/// bluish and dim in the night.
pub open spec fn default_ambient_colors() -> AmbientColorsBuilder {
    AmbientColorsBuilder {
        color_gradient: GradientBuilder {
            sunrise_color: [255u8, 255u8, 200u8, 255u8],
            day_low_color: [255u8, 255u8, 150u8, 255u8],
            day_high_color: [255u8, 255u8, 200u8, 255u8],
            sunset_color: [240u8, 240u8, 255u8, 255u8],
            night_low_color: [150u8, 150u8, 225u8, 255u8],
            night_high_color: [100u8, 100u8, 150u8, 255u8],
        },
        scalar_gradient: ScalarGradientBuilder {
            sunrise_color: 26214,
            day_low_color: 39322,
            day_high_color: 65536,
            sunset_color: 26214,
            night_low_color: 19661,
            night_high_color: 9830,
        },
    }
}

impl Default for AmbientColorsBuilder {
    fn default() -> (builder: Self)
        ensures
            builder == default_ambient_colors(),
    {
        AmbientColorsBuilder {
            color_gradient: GradientBuilder {
                sunrise_color: [255, 255, 200, 255],
                day_low_color: [255, 255, 150, 255],
                day_high_color: [255, 255, 200, 255],
                sunset_color: [240, 240, 255, 255],
                night_low_color: [150, 150, 225, 255],
                night_high_color: [100, 100, 150, 255],
            },
            scalar_gradient: ScalarGradientBuilder {
                sunrise_color: 26214,
                day_low_color: 39322,
                day_high_color: 65536,
                sunset_color: 26214,
                night_low_color: 19661,
                night_high_color: 9830,
            },
        }
    }
}

impl AmbientColorsBuilder {
    /// The gradients of colour and brightness over the cycle.
    pub fn build(&self, sky_time_settings: &SkyTimeSettings) -> (colors: AmbientColors)
        requires
            sky_time_settings.wf(),
        ensures
            colors.wf(),
            colors.color_gradient@ == stable_sort(
                named_stops(*sky_time_settings, self.color_gradient.named()),
            ),
            colors.brightness_gradient@ == stable_sort(
                named_stops(*sky_time_settings, self.scalar_gradient.named()),
            ),
    {
        AmbientColors {
            color_gradient: self.color_gradient.build_gradient(sky_time_settings),
            brightness_gradient: self.scalar_gradient.build_gradient(sky_time_settings),
        }
    }
}

/// What the ambient light driver starts with.
#[derive(Clone, Copy, Debug, PartialEq, Eq)]
pub struct AmbientDriverPlugin {
    /// The light at the named times of the cycle.
    pub ambient_colors_builder: AmbientColorsBuilder,
    /// How bright the light gets.
    pub ambient_settings: AmbientSettings,
}

impl Default for AmbientDriverPlugin {
    fn default() -> (plugin: Self)
        ensures
            plugin.ambient_colors_builder == default_ambient_colors(),
            plugin.ambient_settings.brightness_multiplier == DEFAULT_BRIGHTNESS_MULTIPLIER,
    {
        AmbientDriverPlugin {
            ambient_colors_builder: AmbientColorsBuilder::default(),
            ambient_settings: AmbientSettings::default(),
        }
    }
}

/// The ambient light at one moment.
#[derive(Clone, Copy, Debug, PartialEq, Eq)]
pub struct Ambience {
    /// Colour of the light, each channel as a fraction of one.
    pub color: UnitColor,
    /// Brightness of the light.
    pub brightness: Fixed,
}

/// The ambient light at the current time: the colour gradient sampled at the
/// position of the time in the cycle, and the brightness gradient sampled
/// there and scaled by the multiplier.
pub fn drive_ambience(
    sky_time_settings: &SkyTimeSettings,
    sky_time: &SkyTime,
    ambient_settings: &AmbientSettings,
    ambient_colors: &AmbientColors,
) -> (light: Ambience)
    requires
        sky_time_settings.wf(),
        ambient_colors.wf(),
    ensures
        forall|k: int|
            0 <= k < 4 ==> #[trigger] light.color[k] == sample_color_channel(
                ambient_colors.color_gradient@,
                sky_time_settings.time_percent_spec(sky_time.time as int),
                k,
            ),
        light.brightness == mul_saturating_spec(
            sample_scalar(
                ambient_colors.brightness_gradient@,
                sky_time_settings.time_percent_spec(sky_time.time as int),
            ),
            ambient_settings.brightness_multiplier as int,
        ),
{
    let percent: Fixed = sky_time_settings.time_percent(sky_time.time);
    let color: UnitColor = ambient_colors.color_gradient.sample_at(percent);
    let brightness: Fixed = ambient_colors.brightness_gradient.sample_at(percent);
    Ambience { color, brightness: mul_saturating(brightness, ambient_settings.brightness_multiplier) }
}

} // verus!
