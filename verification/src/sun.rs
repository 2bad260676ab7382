//! The sun: a light that turns with the time of day.

use crate::fixed::{mul_saturating, mul_saturating_spec, Fixed};
use vstd::math::max;
use vstd::prelude::*;

verus! {

/// How the sun looks and how bright it gets.
#[derive(Clone, Copy, Debug, PartialEq, Eq)]
pub struct SunSettings {
    /// Illuminance of the sun when it stands highest.
    pub illuminance: Fixed,
    /// Colour of the sun disc: red, green, blue and alpha.
    pub sun_color: [Fixed; 4],
    /// Strength of the sun disc against the sky.
    pub sun_strength: Fixed,
    /// Sharpness of the edge of the sun disc.
    pub sun_sharpness: Fixed,
}

/// Illuminance of clear daylight: ten thousand lux.
pub const AMBIENT_DAYLIGHT: Fixed = 655_360_000;

/// The sun that settings start from: daylight, pale yellow, strength one and a
/// half, sharpness 364.
pub open spec fn default_sun_settings() -> SunSettings {
    SunSettings {
        illuminance: AMBIENT_DAYLIGHT,
        sun_color: [65536i64, 65536i64, 32768i64, 65536i64],
        sun_strength: 98304,
        sun_sharpness: 23_855_104,
    }
}

impl Default for SunSettings {
    fn default() -> (settings: Self)
        ensures
            settings == default_sun_settings(),
    {
        SunSettings {
            illuminance: AMBIENT_DAYLIGHT,
            sun_color: [65536, 65536, 32768, 65536],
            sun_strength: 98304,
            sun_sharpness: 23_855_104,
        }
    }
}

/// What the sun driver starts with.
#[derive(Clone, Copy, Debug, PartialEq, Eq)]
pub struct SunDriverPlugin {
    /// Whether a sun light is made when the driver starts.
    pub spawn_default_sun_light: bool,
    /// How the sun looks and how bright it gets.
    pub sun_settings: SunSettings,
}

/// The sun driver as it starts: with a sun light of its own and the default
/// settings.
pub open spec fn default_sun_driver() -> SunDriverPlugin {
    SunDriverPlugin { spawn_default_sun_light: true, sun_settings: default_sun_settings() }
}

impl Default for SunDriverPlugin {
    fn default() -> (plugin: Self)
        ensures
            plugin == default_sun_driver(),
    {
        SunDriverPlugin { spawn_default_sun_light: true, sun_settings: SunSettings::default() }
    }
}

/// Illuminance of the sun for the sine of its angle: nothing while the sun is
/// below the horizon, else the square of the sine times the illuminance at the
/// highest stand.
pub open spec fn sun_illuminance_spec(sine: int, illuminance: int) -> int {
    mul_saturating_spec(mul_saturating_spec(max(sine, 0), max(sine, 0)), illuminance)
}

/// Illuminance of the sun for the sine of its angle.
pub fn sun_illuminance(sine: Fixed, illuminance: Fixed) -> (lux: Fixed)
    ensures
        lux == sun_illuminance_spec(sine as int, illuminance as int),
{
    let height: Fixed = if sine < 0 {
        0
    } else {
        sine
    };
    mul_saturating(mul_saturating(height, height), illuminance)
}

} // verus!
