//! The sky as one state that is stepped frame by frame.
//!
//! A frame has three phases, always in this order: the time moves on, the
//! gradients are rebuilt if the settings they are built from have changed,
//! and the gradients are sampled at the new time. Changing a setting only
//! marks the gradients as stale; the work is done in the next frame. The
//! contract of [`SkyController::frame`] says that what a frame gives is what
//! freshly built gradients give, so a stale gradient is never sampled.

use crate::ambient::{drive_ambience, Ambience, AmbientColors, AmbientColorsBuilder, AmbientSettings};
use crate::cycle::{
    advanced_time, try_update_sky_time, ConfigurationError, SkyTime, SkyTimeSettings,
};
use crate::fixed::{mul_saturating_spec, Fixed};
use crate::gradient::{sample_color_channel, sample_scalar, UnitColor};
use crate::named_colors::named_stops;
use crate::sky_colors::{drive_gradients, SkyColors, SkyColorsBuilder};
use crate::stops::stable_sort;
use vstd::prelude::*;

verus! {

/// What one frame gives to whatever draws the sky.
#[derive(Clone, Copy, Debug, PartialEq, Eq)]
pub struct SkyFrame {
    /// The time after the frame.
    pub time: u32,
    /// The colours of the four stops of the sky.
    pub color_stops: [UnitColor; 4],
    /// Closeness to the middle of the night.
    pub night_time_distance: Fixed,
    /// Angle of the sun, in radians.
    pub sun_angle: Fixed,
    /// The ambient light.
    pub ambience: Ambience,
}

/// The sky: its timings, its time, its look at the named times of the cycle,
/// and the gradients built from them.
pub struct SkyController {
    settings: SkyTimeSettings,
    time: SkyTime,
    sky_builder: SkyColorsBuilder,
    ambient_builder: AmbientColorsBuilder,
    ambient_settings: AmbientSettings,
    sky_colors: SkyColors,
    ambient_colors: AmbientColors,
    stale: bool,
}

/// The colours `colors` are those that `builder` gives for the timings
/// `settings`.
pub open spec fn sky_colors_fresh(
    colors: SkyColors,
    builder: SkyColorsBuilder,
    settings: SkyTimeSettings,
) -> bool {
    forall|i: int|
        0 <= i < 4 ==> #[trigger] colors.gradient(i)@ == stable_sort(
            named_stops(settings, builder.named(i)),
        )
}

/// The ambient light `colors` is that which `builder` gives for the timings
/// `settings`.
pub open spec fn ambient_colors_fresh(
    colors: AmbientColors,
    builder: AmbientColorsBuilder,
    settings: SkyTimeSettings,
) -> bool {
    &&& colors.color_gradient@ == stable_sort(named_stops(settings, builder.color_gradient.named()))
    &&& colors.brightness_gradient@ == stable_sort(
        named_stops(settings, builder.scalar_gradient.named()),
    )
}

/// The time of a sky after a frame of `delta` ticks: moved on as the clock
/// says, unless the new time could not be counted any more.
pub open spec fn time_after_frame(time: SkyTime, delta: int, settings: SkyTimeSettings) -> int {
    if advanced_time(time, delta, settings) <= u32::MAX {
        advanced_time(time, delta, settings)
    } else {
        time.time as int
    }
}

impl SkyController {
    #[verifier::type_invariant]
    spec fn inv(self) -> bool {
        &&& self.settings.wf()
        &&& self.sky_colors.wf()
        &&& self.ambient_colors.wf()
        &&& !self.stale ==> sky_colors_fresh(self.sky_colors, self.sky_builder, self.settings)
        &&& !self.stale ==> ambient_colors_fresh(
            self.ambient_colors,
            self.ambient_builder,
            self.settings,
        )
    }

    /// The timings of the sky.
    pub closed spec fn settings_spec(&self) -> SkyTimeSettings {
        self.settings
    }

    /// The time of the sky.
    pub closed spec fn time_spec(&self) -> SkyTime {
        self.time
    }

    /// The sky at the named times of the cycle.
    pub closed spec fn sky_builder_spec(&self) -> SkyColorsBuilder {
        self.sky_builder
    }

    /// The ambient light at the named times of the cycle.
    pub closed spec fn ambient_builder_spec(&self) -> AmbientColorsBuilder {
        self.ambient_builder
    }

    /// How bright the ambient light gets.
    pub closed spec fn ambient_settings_spec(&self) -> AmbientSettings {
        self.ambient_settings
    }

    /// Whether a setting has changed since the gradients were built.
    pub closed spec fn stale_spec(&self) -> bool {
        self.stale
    }

    /// A sky with the given timings, time and look. Timings without a day or
    /// without a night are rejected.
    pub fn new(
        settings: SkyTimeSettings,
        time: SkyTime,
        sky_builder: SkyColorsBuilder,
        ambient_builder: AmbientColorsBuilder,
        ambient_settings: AmbientSettings,
    ) -> (result: Result<Self, ConfigurationError>)
        ensures
            result is Ok <==> settings.wf(),
            settings.day_ticks == 0 ==> result is Err && result->Err_0
                == ConfigurationError::ZeroDayLength,
            settings.day_ticks > 0 && settings.night_ticks == 0 ==> result is Err && result->Err_0
                == ConfigurationError::ZeroNightLength,
            result is Ok ==> {
                &&& result->Ok_0.settings_spec() == settings
                &&& result->Ok_0.time_spec() == time
                &&& result->Ok_0.sky_builder_spec() == sky_builder
                &&& result->Ok_0.ambient_builder_spec() == ambient_builder
                &&& result->Ok_0.ambient_settings_spec() == ambient_settings
                &&& !result->Ok_0.stale_spec()
            },
    {
        match settings.validate() {
            Err(error) => Err(error),
            Ok(()) => Ok(
                SkyController {
                    sky_colors: sky_builder.build(&settings),
                    ambient_colors: ambient_builder.build(&settings),
                    settings,
                    time,
                    sky_builder,
                    ambient_builder,
                    ambient_settings,
                    stale: false,
                },
            ),
        }
    }

    /// The timings of the sky.
    pub fn settings(&self) -> (settings: SkyTimeSettings)
        ensures
            settings == self.settings_spec(),
            settings.wf(),
    {
        proof {
            use_type_invariant(self);
        }
        self.settings
    }

    /// The time of the sky.
    pub fn time(&self) -> (time: SkyTime)
        ensures
            time == self.time_spec(),
    {
        self.time
    }

    /// Whether a setting has changed since the gradients were built, so that
    /// the next frame builds them anew.
    pub fn is_stale(&self) -> (stale: bool)
        ensures
            stale == self.stale_spec(),
    {
        self.stale
    }

    /// Gives the sky new timings. The gradients are rebuilt in the next frame.
    /// Timings without a day or without a night are rejected, and the sky
    /// stays as it is.
    pub fn set_time_settings(&mut self, settings: SkyTimeSettings) -> (result: Result<
        (),
        ConfigurationError,
    >)
        ensures
            result is Ok <==> settings.wf(),
            settings.day_ticks == 0 ==> result is Err && result->Err_0
                == ConfigurationError::ZeroDayLength,
            settings.day_ticks > 0 && settings.night_ticks == 0 ==> result is Err && result->Err_0
                == ConfigurationError::ZeroNightLength,
            result is Ok ==> final(self).settings_spec() == settings && final(self).stale_spec(),
            result is Err ==> final(self).settings_spec() == old(self).settings_spec(),
            result is Err ==> final(self).stale_spec() == old(self).stale_spec(),
            final(self).time_spec() == old(self).time_spec(),
            final(self).sky_builder_spec() == old(self).sky_builder_spec(),
            final(self).ambient_builder_spec() == old(self).ambient_builder_spec(),
            final(self).ambient_settings_spec() == old(self).ambient_settings_spec(),
    {
        proof {
            use_type_invariant(&*self);
        }
        match settings.validate() {
            Err(error) => Err(error),
            Ok(()) => {
                self.stale = true;
                self.settings = settings;
                Ok(())
            },
        }
    }

    /// Gives the sky a new look at the named times. The gradients are rebuilt
    /// in the next frame.
    pub fn set_sky_colors_builder(&mut self, sky_builder: SkyColorsBuilder)
        ensures
            final(self).sky_builder_spec() == sky_builder,
            final(self).stale_spec(),
            final(self).settings_spec() == old(self).settings_spec(),
            final(self).time_spec() == old(self).time_spec(),
            final(self).ambient_builder_spec() == old(self).ambient_builder_spec(),
            final(self).ambient_settings_spec() == old(self).ambient_settings_spec(),
    {
        proof {
            use_type_invariant(&*self);
        }
        self.stale = true;
        self.sky_builder = sky_builder;
    }

    /// Gives the sky a new ambient light at the named times. The gradients
    /// are rebuilt in the next frame.
    pub fn set_ambient_colors_builder(&mut self, ambient_builder: AmbientColorsBuilder)
        ensures
            final(self).ambient_builder_spec() == ambient_builder,
            final(self).stale_spec(),
            final(self).settings_spec() == old(self).settings_spec(),
            final(self).time_spec() == old(self).time_spec(),
            final(self).sky_builder_spec() == old(self).sky_builder_spec(),
            final(self).ambient_settings_spec() == old(self).ambient_settings_spec(),
    {
        proof {
            use_type_invariant(&*self);
        }
        self.stale = true;
        self.ambient_builder = ambient_builder;
    }

    /// Says how bright the ambient light gets. No gradient depends on it.
    pub fn set_ambient_settings(&mut self, ambient_settings: AmbientSettings)
        ensures
            final(self).ambient_settings_spec() == ambient_settings,
            final(self).stale_spec() == old(self).stale_spec(),
            final(self).settings_spec() == old(self).settings_spec(),
            final(self).time_spec() == old(self).time_spec(),
            final(self).sky_builder_spec() == old(self).sky_builder_spec(),
            final(self).ambient_builder_spec() == old(self).ambient_builder_spec(),
    {
        proof {
            use_type_invariant(&*self);
        }
        self.ambient_settings = ambient_settings;
    }

    /// Sets the clock. No gradient depends on it.
    pub fn set_time(&mut self, time: SkyTime)
        ensures
            final(self).time_spec() == time,
            final(self).stale_spec() == old(self).stale_spec(),
            final(self).settings_spec() == old(self).settings_spec(),
            final(self).sky_builder_spec() == old(self).sky_builder_spec(),
            final(self).ambient_builder_spec() == old(self).ambient_builder_spec(),
            final(self).ambient_settings_spec() == old(self).ambient_settings_spec(),
    {
        proof {
            use_type_invariant(&*self);
        }
        self.time = time;
    }

    /// One frame of `delta` ticks: the time moves on, the gradients are
    /// brought up to date, and the sky is sampled at the new time.
    ///
    /// Whatever was changed before the frame, the frame gives what gradients
    /// built from the current timings and look give at the new time.
    pub fn frame(&mut self, delta: u32) -> (frame: SkyFrame)
        ensures
            final(self).settings_spec() == old(self).settings_spec(),
            final(self).sky_builder_spec() == old(self).sky_builder_spec(),
            final(self).ambient_builder_spec() == old(self).ambient_builder_spec(),
            final(self).ambient_settings_spec() == old(self).ambient_settings_spec(),
            final(self).time_spec().auto_tick == old(self).time_spec().auto_tick,
            final(self).time_spec().time == time_after_frame(
                old(self).time_spec(),
                delta as int,
                old(self).settings_spec(),
            ),
            !final(self).stale_spec(),
            frame.time == final(self).time_spec().time,
            forall|i: int, k: int|
                0 <= i < 4 && 0 <= k < 4 ==> #[trigger] frame.color_stops[i][k]
                    == sample_color_channel(
                    stable_sort(
                        named_stops(
                            old(self).settings_spec(),
                            old(self).sky_builder_spec().named(i),
                        ),
                    ),
                    old(self).settings_spec().time_percent_spec(frame.time as int),
                    k,
                ),
            frame.night_time_distance == old(self).settings_spec().night_time_distance_spec(
                frame.time as int,
            ),
            frame.sun_angle == old(self).settings_spec().time_2pi_spec(frame.time as int),
            forall|k: int|
                0 <= k < 4 ==> #[trigger] frame.ambience.color[k] == sample_color_channel(
                    stable_sort(
                        named_stops(
                            old(self).settings_spec(),
                            old(self).ambient_builder_spec().color_gradient.named(),
                        ),
                    ),
                    old(self).settings_spec().time_percent_spec(frame.time as int),
                    k,
                ),
            frame.ambience.brightness == mul_saturating_spec(
                sample_scalar(
                    stable_sort(
                        named_stops(
                            old(self).settings_spec(),
                            old(self).ambient_builder_spec().scalar_gradient.named(),
                        ),
                    ),
                    old(self).settings_spec().time_percent_spec(frame.time as int),
                ),
                old(self).ambient_settings_spec().brightness_multiplier as int,
            ),
    {
        proof {
            use_type_invariant(&*self);
        }
        // first the time
        let mut clock: SkyTime = self.time;
        let _ = try_update_sky_time(&mut clock, delta, &self.settings);
        self.time = clock;
        // then the gradients, if a setting has changed
        if self.stale {
            let sky_colors = self.sky_builder.build(&self.settings);
            let ambient_colors = self.ambient_builder.build(&self.settings);
            self.sky_colors = sky_colors;
            self.ambient_colors = ambient_colors;
            self.stale = false;
        }
        // and only then the sampling
        let color_stops = drive_gradients(&self.settings, &self.time, &self.sky_colors);
        let ambience = drive_ambience(
            &self.settings,
            &self.time,
            &self.ambient_settings,
            &self.ambient_colors,
        );
        SkyFrame {
            time: self.time.time,
            color_stops,
            night_time_distance: self.settings.night_time_distance(self.time.time),
            sun_angle: self.settings.time_2pi(self.time.time),
            ambience,
        }
    }
}

} // verus!
