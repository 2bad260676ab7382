//! The colours of the sky over the cycle.
//!
//! The sky is drawn as a gradient of four colour stops, from the horizon
//! upwards. Each of the four changes with the time of day, so the sky holds
//! four colour gradients over the cycle, one for each stop.

use crate::cycle::{SkyTime, SkyTimeSettings};
use crate::fixed::{channel_unit_spec, Fixed};
use crate::gradient::{sample_color_channel, Gradient, Rgba, UnitColor};
use crate::named_colors::{
    lemma_named_colors_constant, named_stops, place_stops, NamedValues,
};
use crate::stops::stable_sort;
use vstd::prelude::*;

verus! {

/// The colours of the four stops of the sky at one named time of the cycle.
#[derive(Clone, Copy, Debug, PartialEq, Eq)]
pub struct StopsColors {
    /// Colour of the lowest stop.
    pub stop0: Rgba,
    /// Colour of the second stop.
    pub stop1: Rgba,
    /// Colour of the third stop.
    pub stop2: Rgba,
    /// Colour of the highest stop.
    pub stop3: Rgba,
}

impl StopsColors {
    /// The colour of stop `stop_pos`; any number but 0, 1 and 2 means the
    /// highest stop.
    pub open spec fn stop_spec(&self, stop_pos: int) -> Rgba {
        if stop_pos == 0 {
            self.stop0
        } else if stop_pos == 1 {
            self.stop1
        } else if stop_pos == 2 {
            self.stop2
        } else {
            self.stop3
        }
    }

    /// The same colour for all four stops.
    pub fn new_splat(color: Rgba) -> (colors: Self)
        ensures
            colors.stop0 == color,
            colors.stop1 == color,
            colors.stop2 == color,
            colors.stop3 == color,
    {
        StopsColors { stop0: color, stop1: color, stop2: color, stop3: color }
    }

    /// The colour of stop `stop_pos`; any number but 0, 1 and 2 means the
    /// highest stop.
    pub fn get_stop(&self, stop_pos: i32) -> (color: Rgba)
        ensures
            color == self.stop_spec(stop_pos as int),
    {
        match stop_pos {
            0 => self.stop0,
            1 => self.stop1,
            2 => self.stop2,
            _ => self.stop3,
        }
    }
}

/// The sky at the six named times of the cycle, from which the gradients of
/// the four stops are built.
#[derive(Clone, Copy, Debug, PartialEq, Eq)]
pub struct SkyColorsBuilder {
    /// The sky at sunset.
    pub sunset_color: StopsColors,
    /// The sky at sunrise.
    pub sunrise_color: StopsColors,
    /// The sky low in the day.
    pub day_low_color: StopsColors,
    /// The sky high in the day.
    pub day_high_color: StopsColors,
    /// The sky low in the night.
    pub night_low_color: StopsColors,
    /// The sky high in the night.
    pub night_high_color: StopsColors,
}

/// The sky that a builder starts from: red at the horizon at sunrise and
/// sunset, pale blue in the day, deep blue and violet in the night.
pub open spec fn default_sky_colors() -> SkyColorsBuilder {
    SkyColorsBuilder {
        sunset_color: StopsColors {
            stop0: [255u8, 70u8, 70u8, 255u8],
            stop1: [243u8, 84u8, 47u8, 255u8],
            stop2: [255u8, 242u8, 72u8, 255u8],
            stop3: [73u8, 177u8, 250u8, 255u8],
        },
        sunrise_color: StopsColors {
            stop0: [255u8, 70u8, 70u8, 255u8],
            stop1: [243u8, 84u8, 47u8, 255u8],
            stop2: [255u8, 242u8, 72u8, 255u8],
            stop3: [73u8, 177u8, 250u8, 255u8],
        },
        day_low_color: StopsColors {
            stop0: [157u8, 157u8, 248u8, 255u8],
            stop1: [205u8, 242u8, 255u8, 255u8],
            stop2: [182u8, 200u8, 254u8, 255u8],
            stop3: [224u8, 224u8, 255u8, 255u8],
        },
        day_high_color: StopsColors {
            stop0: [48u8, 48u8, 255u8, 255u8],
            stop1: [0u8, 226u8, 255u8, 255u8],
            stop2: [0u8, 170u8, 255u8, 255u8],
            stop3: [66u8, 195u8, 255u8, 255u8],
        },
        night_low_color: StopsColors {
            stop0: [0u8, 3u8, 40u8, 255u8],
            stop1: [47u8, 0u8, 93u8, 255u8],
            stop2: [0u8, 38u8, 97u8, 255u8],
            stop3: [74u8, 0u8, 89u8, 255u8],
        },
        night_high_color: StopsColors {
            stop0: [0u8, 0u8, 45u8, 255u8],
            stop1: [0u8, 32u8, 93u8, 255u8],
            stop2: [0u8, 0u8, 112u8, 255u8],
            stop3: [0u8, 0u8, 43u8, 255u8],
        },
    }
}

impl Default for SkyColorsBuilder {
    fn default() -> (builder: Self)
        ensures
            builder == default_sky_colors(),
    {
        SkyColorsBuilder {
            sunset_color: StopsColors {
                stop0: [255, 70, 70, 255],
                stop1: [243, 84, 47, 255],
                stop2: [255, 242, 72, 255],
                stop3: [73, 177, 250, 255],
            },
            sunrise_color: StopsColors {
                stop0: [255, 70, 70, 255],
                stop1: [243, 84, 47, 255],
                stop2: [255, 242, 72, 255],
                stop3: [73, 177, 250, 255],
            },
            day_low_color: StopsColors {
                stop0: [157, 157, 248, 255],
                stop1: [205, 242, 255, 255],
                stop2: [182, 200, 254, 255],
                stop3: [224, 224, 255, 255],
            },
            day_high_color: StopsColors {
                stop0: [48, 48, 255, 255],
                stop1: [0, 226, 255, 255],
                stop2: [0, 170, 255, 255],
                stop3: [66, 195, 255, 255],
            },
            night_low_color: StopsColors {
                stop0: [0, 3, 40, 255],
                stop1: [47, 0, 93, 255],
                stop2: [0, 38, 97, 255],
                stop3: [74, 0, 89, 255],
            },
            night_high_color: StopsColors {
                stop0: [0, 0, 45, 255],
                stop1: [0, 32, 93, 255],
                stop2: [0, 0, 112, 255],
                stop3: [0, 0, 43, 255],
            },
        }
    }
}

impl SkyColorsBuilder {
    /// The six named colours of stop `stop_pos`.
    pub open spec fn named(&self, stop_pos: int) -> NamedValues<Rgba> {
        NamedValues {
            sunrise: self.sunrise_color.stop_spec(stop_pos),
            day_low: self.day_low_color.stop_spec(stop_pos),
            day_high: self.day_high_color.stop_spec(stop_pos),
            sunset: self.sunset_color.stop_spec(stop_pos),
            night_low: self.night_low_color.stop_spec(stop_pos),
            night_high: self.night_high_color.stop_spec(stop_pos),
        }
    }

    /// The gradients of all four stops.
    pub fn build(&self, sky_time_settings: &SkyTimeSettings) -> (colors: SkyColors)
        requires
            sky_time_settings.wf(),
        ensures
            colors.wf(),
            forall|i: int|
                0 <= i < 4 ==> #[trigger] colors.gradient(i)@ == stable_sort(
                    named_stops(*sky_time_settings, self.named(i)),
                ),
    {
        SkyColors {
            sky_color0: self.make_gradient_for_stop(0, sky_time_settings),
            sky_color1: self.make_gradient_for_stop(1, sky_time_settings),
            sky_color2: self.make_gradient_for_stop(2, sky_time_settings),
            sky_color3: self.make_gradient_for_stop(3, sky_time_settings),
        }
    }

    /// The gradient over the cycle of stop `stop_pos`: its colour at the six
    /// named times, placed according to the lengths of sunrise and sunset.
    pub fn make_gradient_for_stop(&self, stop_pos: i32, s: &SkyTimeSettings) -> (gradient: Gradient)
        requires
            s.wf(),
        ensures
            gradient@ == stable_sort(named_stops(*s, self.named(stop_pos as int))),
            gradient.wf(),
    {
        Gradient::new(
            place_stops(
                s,
                self.sunrise_color.get_stop(stop_pos),
                self.day_low_color.get_stop(stop_pos),
                self.day_high_color.get_stop(stop_pos),
                self.sunset_color.get_stop(stop_pos),
                self.night_low_color.get_stop(stop_pos),
                self.night_high_color.get_stop(stop_pos),
            ),
        )
    }
}

/// What the driver of the sky's colours starts with.
#[derive(Clone, Copy, Debug, PartialEq, Eq)]
pub struct GradientDriverPlugin {
    /// The sky at the six named times of the cycle.
    pub sky_colors_builder: SkyColorsBuilder,
}

impl Default for GradientDriverPlugin {
    fn default() -> (plugin: Self)
        ensures
            plugin.sky_colors_builder == default_sky_colors(),
    {
        GradientDriverPlugin { sky_colors_builder: SkyColorsBuilder::default() }
    }
}

/// The gradients over the cycle of the four stops of the sky. Positions from
/// zero to one half are the day, from one half to one the night.
#[derive(Debug, PartialEq, Eq)]
pub struct SkyColors {
    /// Gradient of the lowest stop.
    pub sky_color0: Gradient,
    /// Gradient of the second stop.
    pub sky_color1: Gradient,
    /// Gradient of the third stop.
    pub sky_color2: Gradient,
    /// Gradient of the highest stop.
    pub sky_color3: Gradient,
}

impl Clone for SkyColors {
    fn clone(&self) -> (copy: Self)
        ensures
            forall|i: int| 0 <= i < 4 ==> #[trigger] copy.gradient(i)@ == self.gradient(i)@,
    {
        SkyColors {
            sky_color0: self.sky_color0.clone(),
            sky_color1: self.sky_color1.clone(),
            sky_color2: self.sky_color2.clone(),
            sky_color3: self.sky_color3.clone(),
        }
    }
}

impl Default for SkyColors {
    /// Four times the default gradient, from black to white.
    fn default() -> (colors: Self)
        ensures
            colors.wf(),
            forall|i: int| 0 <= i < 4 ==> #[trigger] colors.gradient(i)@ == seq![
                (0i64, [0u8, 0u8, 0u8, 255u8]),
                (crate::fixed::ONE, [255u8, 255u8, 255u8, 255u8]),
            ],
    {
        SkyColors {
            sky_color0: Gradient::default(),
            sky_color1: Gradient::default(),
            sky_color2: Gradient::default(),
            sky_color3: Gradient::default(),
        }
    }
}

impl SkyColors {
    /// The gradient of stop `i`; any number but 0, 1 and 2 means the highest
    /// stop.
    pub open spec fn gradient(&self, i: int) -> Gradient {
        if i == 0 {
            self.sky_color0
        } else if i == 1 {
            self.sky_color1
        } else if i == 2 {
            self.sky_color2
        } else {
            self.sky_color3
        }
    }

    /// All four gradients have their stops in order.
    pub open spec fn wf(&self) -> bool {
        &&& self.sky_color0.wf()
        &&& self.sky_color1.wf()
        &&& self.sky_color2.wf()
        &&& self.sky_color3.wf()
    }

    /// Whether all four gradients have their stops in order.
    pub fn is_sorted(&self) -> (sorted: bool)
        ensures
            sorted == self.wf(),
    {
        self.sky_color0.is_sorted() && self.sky_color1.is_sorted() && self.sky_color2.is_sorted()
            && self.sky_color3.is_sorted()
    }
}

/// The colours of the four stops of the sky at the current time: each stop's
/// gradient sampled at the position of the time in the cycle.
pub fn drive_gradients(
    sky_time_settings: &SkyTimeSettings,
    sky_time: &SkyTime,
    sky_colors: &SkyColors,
) -> (color_stops: [UnitColor; 4])
    requires
        sky_time_settings.wf(),
        sky_colors.wf(),
    ensures
        forall|i: int, k: int|
            0 <= i < 4 && 0 <= k < 4 ==> #[trigger] color_stops[i][k] == sample_color_channel(
                sky_colors.gradient(i)@,
                sky_time_settings.time_percent_spec(sky_time.time as int),
                k,
            ),
{
    let percent: Fixed = sky_time_settings.time_percent(sky_time.time);
    let c0: UnitColor = sky_colors.sky_color0.sample_at(percent);
    let c1: UnitColor = sky_colors.sky_color1.sample_at(percent);
    let c2: UnitColor = sky_colors.sky_color2.sample_at(percent);
    let c3: UnitColor = sky_colors.sky_color3.sample_at(percent);
    [c0, c1, c2, c3]
}

/// A sky of a single colour stays that colour: when all six named times give
/// every stop the same colour, each of the four stops has that colour at
/// every time of the cycle.
pub proof fn lemma_single_color_sky_is_constant(
    s: SkyTimeSettings,
    color: Rgba,
    stop_pos: int,
    t: int,
    k: int,
)
    requires
        0 <= k < 4,
    ensures
        ({
            let splat = StopsColors { stop0: color, stop1: color, stop2: color, stop3: color };
            let builder = SkyColorsBuilder {
                sunset_color: splat,
                sunrise_color: splat,
                day_low_color: splat,
                day_high_color: splat,
                night_low_color: splat,
                night_high_color: splat,
            };
            sample_color_channel(stable_sort(named_stops(s, builder.named(stop_pos))), t, k)
                == channel_unit_spec(color[k] as int)
        }),
{
    lemma_named_colors_constant(s, color, t, k);
}

} // verus!
