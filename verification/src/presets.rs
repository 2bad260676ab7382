//! Presets: snapshots of the look of a sky.
//!
//! A preset need not say everything. What it leaves out stays as it is when
//! the preset is applied; what it holds replaces the current value.

use crate::sky_colors::SkyColorsBuilder;
use crate::sun::SunSettings;
use vstd::prelude::*;

verus! {

/// A snapshot of the look of a sky. `G`, `A` and `S` are the settings of the
/// gradient, the aurora and the stars as the renderer holds them.
pub struct SkyPreset<G, A, S> {
    /// The colour stops of the plain gradient.
    pub gradient_bind_group: Option<G>,
    /// The look of the aurora.
    pub aurora_settings: Option<A>,
    /// The look of the sun.
    pub sun_settings: Option<SunSettings>,
    /// The sky at the six named times.
    pub sky_colors_builder: Option<SkyColorsBuilder>,
    /// The look of the stars.
    pub stars: Option<S>,
}

impl<G, A, S> Default for SkyPreset<G, A, S> {
    /// The preset that changes nothing.
    fn default() -> (preset: Self)
        ensures
            preset.gradient_bind_group is None,
            preset.aurora_settings is None,
            preset.sun_settings is None,
            preset.sky_colors_builder is None,
            preset.stars is None,
    {
        SkyPreset {
            gradient_bind_group: None,
            aurora_settings: None,
            sun_settings: None,
            sky_colors_builder: None,
            stars: None,
        }
    }
}

/// The look of a sky as it stands: what a preset is applied to.
pub struct SkyLook<G, A, S> {
    /// The colour stops of the plain gradient.
    pub gradient_bind_group: G,
    /// The look of the aurora.
    pub aurora_settings: A,
    /// The look of the sun.
    pub sun_settings: SunSettings,
    /// The sky at the six named times.
    pub sky_colors_builder: SkyColorsBuilder,
    /// The look of the stars.
    pub stars: S,
}

/// The value of one setting after a preset was applied: the preset's value
/// where it has one, else the value as it was.
pub open spec fn merged<T>(current: T, preset: Option<T>) -> T {
    match preset {
        Some(value) => value,
        None => current,
    }
}

/// Applies one setting of a preset: a value that the preset holds replaces
/// the current one, and where it holds none the current one stays.
pub fn apply_if_present<T>(current: &mut T, preset: Option<T>)
    ensures
        *final(current) == merged(*old(current), preset),
{
    match preset {
        Some(value) => {
            *current = value;
        },
        None => {},
    }
}

/// Applies a preset to the look of a sky, setting by setting.
pub fn apply_preset<G, A, S>(look: &mut SkyLook<G, A, S>, preset: SkyPreset<G, A, S>)
    ensures
        final(look).gradient_bind_group == merged(
            old(look).gradient_bind_group,
            preset.gradient_bind_group,
        ),
        final(look).aurora_settings == merged(old(look).aurora_settings, preset.aurora_settings),
        final(look).sun_settings == merged(old(look).sun_settings, preset.sun_settings),
        final(look).sky_colors_builder == merged(
            old(look).sky_colors_builder,
            preset.sky_colors_builder,
        ),
        final(look).stars == merged(old(look).stars, preset.stars),
{
    apply_if_present(&mut look.gradient_bind_group, preset.gradient_bind_group);
    apply_if_present(&mut look.aurora_settings, preset.aurora_settings);
    apply_if_present(&mut look.sun_settings, preset.sun_settings);
    apply_if_present(&mut look.sky_colors_builder, preset.sky_colors_builder);
    apply_if_present(&mut look.stars, preset.stars);
}

} // verus!
