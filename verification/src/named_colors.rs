//! Gradients authored from six named values.
//!
//! Instead of raw stops, a sky is described by what it looks like at sunrise,
//! low and high in the day, at sunset, and low and high in the night. The
//! timeline settings say how long sunrise and sunset last, and from that this
//! module places nine stops on the unit interval: the day on the first half,
//! the night on the second, sunrise at both ends.

use crate::cycle::SkyTimeSettings;
use crate::fixed::{
    channel_unit_spec, halve, lemma_ratio_bounds, ratio_spec, Fixed, HALF, ONE,
};
use crate::gradient::{
    lemma_sample_color_at_stop, lemma_sample_color_constant, lemma_sample_scalar_at_stop,
    lemma_sample_scalar_constant, sample_color_channel, sample_scalar, Gradient, Rgba,
    ScalarGradient,
};
use crate::stops::{
    at_position, lemma_first_at_position, lemma_partition_index_splits,
    lemma_stable_sort_keeps_ties, lemma_stable_sort_keeps_values, lemma_stable_sort_sorted,
    partition_index, stable_sort,
};
use vstd::arithmetic::div_mod::{
    lemma_div_is_ordered, lemma_div_multiples_vanish, lemma_fundamental_div_mod, lemma_mod_bound,
};
use vstd::prelude::*;

verus! {

/// The number of stops that are placed.
pub const STOP_COUNT: usize = 9;

/// What a sky looks like at the six named times of a cycle.
pub struct NamedValues<V> {
    /// At sunrise, where the cycle begins and ends.
    pub sunrise: V,
    /// In the day, right after sunrise and right before sunset.
    pub day_low: V,
    /// In the middle of the day.
    pub day_high: V,
    /// At sunset, where the day turns into night.
    pub sunset: V,
    /// In the night, right after sunset and right before sunrise.
    pub night_low: V,
    /// In the middle of the night.
    pub night_high: V,
}

/// Where the sunrise ends: after the sunrise's share of the day.
pub open spec fn sunrise_end_spec(s: SkyTimeSettings) -> int {
    ratio_spec(s.sunrise_ticks as int, s.day_ticks as int) / 2
}

/// Where the sunset starts: the sunset's share of the day before the day ends.
pub open spec fn sunset_start_spec(s: SkyTimeSettings) -> int {
    HALF - ratio_spec(s.sunset_ticks as int, s.day_ticks as int) / 2
}

/// Where the sunset ends: the sunset's share of the night after the day ends.
pub open spec fn sunset_end_spec(s: SkyTimeSettings) -> int {
    HALF + ratio_spec(s.sunset_ticks as int, s.night_ticks as int) / 2
}

/// Where the sunrise starts: the sunrise's share of the night before the cycle
/// ends.
pub open spec fn sunrise_start_spec(s: SkyTimeSettings) -> int {
    ONE - ratio_spec(s.sunrise_ticks as int, s.night_ticks as int) / 2
}

/// The position of stop `i` of the nine, in the order in which they are
/// placed.
pub open spec fn stop_position(s: SkyTimeSettings, i: int) -> int {
    if i == 0 {
        0
    } else if i == 1 {
        sunrise_end_spec(s)
    } else if i == 2 {
        (sunrise_end_spec(s) + sunset_start_spec(s)) / 2
    } else if i == 3 {
        sunset_start_spec(s)
    } else if i == 4 {
        HALF as int
    } else if i == 5 {
        sunset_end_spec(s)
    } else if i == 6 {
        (sunset_end_spec(s) + sunrise_start_spec(s)) / 2
    } else if i == 7 {
        sunrise_start_spec(s)
    } else {
        ONE as int
    }
}

/// The value of stop `i` of the nine.
pub open spec fn stop_value<V>(values: NamedValues<V>, i: int) -> V {
    if i == 0 || i >= 8 {
        values.sunrise
    } else if i == 1 || i == 3 {
        values.day_low
    } else if i == 2 {
        values.day_high
    } else if i == 4 {
        values.sunset
    } else if i == 5 || i == 7 {
        values.night_low
    } else {
        values.night_high
    }
}

/// The nine stops in the order in which they are placed, before sorting.
pub open spec fn named_stops<V>(s: SkyTimeSettings, values: NamedValues<V>) -> Seq<(Fixed, V)> {
    Seq::new(STOP_COUNT as nat, |i: int| (stop_position(s, i) as Fixed, stop_value(values, i)))
}

/// Every stop position fits a [`Fixed`].
pub proof fn lemma_stop_position_fits(s: SkyTimeSettings, i: int)
    requires
        s.wf(),
    ensures
        -0x1_0000_0000_0000 <= stop_position(s, i) <= 0x1_0000_0000_0000,
        stop_position(s, i) as Fixed == stop_position(s, i),
{
    lemma_ratio_bounds(s.sunrise_ticks as int, s.day_ticks as int);
    lemma_ratio_bounds(s.sunset_ticks as int, s.day_ticks as int);
    lemma_ratio_bounds(s.sunset_ticks as int, s.night_ticks as int);
    lemma_ratio_bounds(s.sunrise_ticks as int, s.night_ticks as int);
    assert(s.sunrise_ticks * ONE <= 0x1_0000_0000_0000 && s.sunset_ticks * ONE
        <= 0x1_0000_0000_0000) by (nonlinear_arith)
        requires
            s.sunrise_ticks <= 0xffff_ffff,
            s.sunset_ticks <= 0xffff_ffff,
            ONE == 65536,
    ;
}

/// Places the nine stops for the given named values.
pub fn place_stops<V: Copy>(
    settings: &SkyTimeSettings,
    sunrise: V,
    day_low: V,
    day_high: V,
    sunset: V,
    night_low: V,
    night_high: V,
) -> (stops: Vec<(Fixed, V)>)
    requires
        settings.wf(),
    ensures
        stops@ == named_stops(
            *settings,
            (NamedValues { sunrise, day_low, day_high, sunset, night_low, night_high }),
        ),
{
    proof {
        assert forall|i: int| 0 <= i < 9 implies #[trigger] stop_position(*settings, i) as Fixed
            == stop_position(*settings, i) by {
            lemma_stop_position_fits(*settings, i);
        }
        lemma_stop_position_fits(*settings, 1);
        lemma_stop_position_fits(*settings, 3);
        lemma_stop_position_fits(*settings, 5);
        lemma_stop_position_fits(*settings, 7);
    }
    let sunrise_end: Fixed = halve(settings.sunrise_percent_day());
    let sunset_start: Fixed = HALF - halve(settings.sunset_percent_day());
    let sunset_end: Fixed = HALF + halve(settings.sunset_percent_night());
    let sunrise_start: Fixed = ONE - halve(settings.sunrise_percent_night());
    let mut stops: Vec<(Fixed, V)> = Vec::new();
    stops.push((0, sunrise));
    stops.push((sunrise_end, day_low));
    stops.push((halve(sunrise_end + sunset_start), day_high));
    stops.push((sunset_start, day_low));
    stops.push((HALF, sunset));
    stops.push((sunset_end, night_low));
    stops.push((halve(sunset_end + sunrise_start), night_high));
    stops.push((sunrise_start, night_low));
    stops.push((ONE, sunrise));
    proof {
        let values = NamedValues { sunrise, day_low, day_high, sunset, night_low, night_high };
        let expected = named_stops(*settings, values);
        assert(stops@.len() == expected.len());
        assert forall|i: int| 0 <= i < 9 implies stops@[i] == expected[i] by {
            assert(expected[i] == (stop_position(*settings, i) as Fixed, stop_value(values, i)));
        }
        assert(stops@ =~= expected);
    }
    stops
}

/// Six named colours, from which a colour gradient over the cycle is built.
#[derive(Clone, Copy, Debug, PartialEq, Eq)]
pub struct GradientBuilder {
    /// Colour at sunrise.
    pub sunrise_color: Rgba,
    /// Colour low in the day.
    pub day_low_color: Rgba,
    /// Colour high in the day.
    pub day_high_color: Rgba,
    /// Colour at sunset.
    pub sunset_color: Rgba,
    /// Colour low in the night.
    pub night_low_color: Rgba,
    /// Colour high in the night.
    pub night_high_color: Rgba,
}

impl GradientBuilder {
    /// The six colours by name.
    pub open spec fn named(&self) -> NamedValues<Rgba> {
        NamedValues {
            sunrise: self.sunrise_color,
            day_low: self.day_low_color,
            day_high: self.day_high_color,
            sunset: self.sunset_color,
            night_low: self.night_low_color,
            night_high: self.night_high_color,
        }
    }

    /// The gradient that runs through the six colours as the cycle goes by.
    pub fn build_gradient(&self, settings: &SkyTimeSettings) -> (gradient: Gradient)
        requires
            settings.wf(),
        ensures
            gradient@ == stable_sort(named_stops(*settings, self.named())),
            gradient.wf(),
    {
        Gradient::new(
            place_stops(
                settings,
                self.sunrise_color,
                self.day_low_color,
                self.day_high_color,
                self.sunset_color,
                self.night_low_color,
                self.night_high_color,
            ),
        )
    }
}

/// Six named numbers, from which a scalar gradient over the cycle is built.
#[derive(Clone, Copy, Debug, PartialEq, Eq)]
pub struct ScalarGradientBuilder {
    /// Value at sunrise.
    pub sunrise_color: Fixed,
    /// Value low in the day.
    pub day_low_color: Fixed,
    /// Value high in the day.
    pub day_high_color: Fixed,
    /// Value at sunset.
    pub sunset_color: Fixed,
    /// Value low in the night.
    pub night_low_color: Fixed,
    /// Value high in the night.
    pub night_high_color: Fixed,
}

impl ScalarGradientBuilder {
    /// The six values by name.
    pub open spec fn named(&self) -> NamedValues<Fixed> {
        NamedValues {
            sunrise: self.sunrise_color,
            day_low: self.day_low_color,
            day_high: self.day_high_color,
            sunset: self.sunset_color,
            night_low: self.night_low_color,
            night_high: self.night_high_color,
        }
    }

    /// The gradient that runs through the six values as the cycle goes by.
    pub fn build_gradient(&self, settings: &SkyTimeSettings) -> (gradient: ScalarGradient)
        requires
            settings.wf(),
        ensures
            gradient@ == stable_sort(named_stops(*settings, self.named())),
            gradient.wf(),
    {
        ScalarGradient::new(
            place_stops(
                settings,
                self.sunrise_color,
                self.day_low_color,
                self.day_high_color,
                self.sunset_color,
                self.night_low_color,
                self.night_high_color,
            ),
        )
    }
}

/// The first of the placed stops at position `p`, in the order of placing.
/// Where several stops share a position, this is the one that decides the
/// sample there.
pub open spec fn first_stop_at<V>(s: SkyTimeSettings, values: NamedValues<V>, p: int) -> (Fixed, V) {
    named_stops(s, values).filter(at_position::<V>(p))[0]
}

/// The stop at the start of the cycle is the first at position zero, and some
/// stop lies at position one.
pub proof fn lemma_named_stops_ends<V>(s: SkyTimeSettings, values: NamedValues<V>)
    requires
        s.wf(),
    ensures
        first_stop_at(s, values, 0) == (0i64, values.sunrise),
        named_stops(s, values).filter(at_position::<V>(ONE as int)).len() > 0,
        (forall|i: int| 1 <= i < 8 ==> #[trigger] stop_position(s, i) != ONE) ==> first_stop_at(
            s,
            values,
            ONE as int,
        ) == (ONE, values.sunrise),
{
    let stops = named_stops(s, values);
    let at_zero = at_position::<V>(0);
    let at_one = at_position::<V>(ONE as int);
    assert(stops[0] == (0i64, values.sunrise));
    assert(stops[8] == (ONE, values.sunrise));
    let rest = stops.skip(1);
    assert(seq![stops[0]] + rest =~= stops);
    rest.lemma_filter_prepend(stops[0], at_zero);
    let front = stops.take(8);
    assert(front.push(stops[8]) =~= stops);
    Seq::lemma_filter_push(front, stops[8], at_one);
    if forall|i: int| 1 <= i < 8 ==> #[trigger] stop_position(s, i) != ONE {
        assert forall|i: int| 0 <= i < front.len() implies !at_one(#[trigger] front[i]) by {
            assert(front[i] == stops[i]);
            lemma_stop_position_fits(s, i);
            if i > 0 {
                assert(stop_position(s, i) != ONE);
            }
        }
        front.lemma_all_neg_filter_empty(at_one);
        assert(front.filter(at_one).push(stops[8])[0] == stops[8]);
    }
}

/// Sampling a colour gradient built from stops at a position where some of
/// them lie gives the colour of the first of them, in the order in which they
/// were given.
pub proof fn lemma_sample_color_first_wins(given: Seq<(Fixed, Rgba)>, p: int, k: int)
    requires
        given.filter(at_position::<Rgba>(p)).len() > 0,
        0 <= k < 4,
    ensures
        sample_color_channel(stable_sort(given), p, k) == channel_unit_spec(
            given.filter(at_position::<Rgba>(p))[0].1[k] as int,
        ),
{
    let sorted = stable_sort(given);
    let pred = at_position::<Rgba>(p);
    lemma_stable_sort_sorted(given);
    lemma_stable_sort_keeps_ties(given, p);
    lemma_first_at_position(sorted, p);
    lemma_partition_index_splits(sorted, p);
    let i = partition_index(sorted, p);
    sorted.lemma_filter_pred(pred, 0);
    assert(pred(sorted[i]));
    assert(sorted[i].0 == p);
    if i > 0 {
        assert(sorted[i - 1].0 < p);
    }
    lemma_sample_color_at_stop(sorted, i, k);
}

/// Sampling a scalar gradient built from stops at a position where some of
/// them lie gives the value of the first of them, in the order in which they
/// were given.
pub proof fn lemma_sample_scalar_first_wins(given: Seq<(Fixed, Fixed)>, p: int)
    requires
        given.filter(at_position::<Fixed>(p)).len() > 0,
    ensures
        sample_scalar(stable_sort(given), p) == given.filter(at_position::<Fixed>(p))[0].1,
{
    let sorted = stable_sort(given);
    let pred = at_position::<Fixed>(p);
    lemma_stable_sort_sorted(given);
    lemma_stable_sort_keeps_ties(given, p);
    lemma_first_at_position(sorted, p);
    lemma_partition_index_splits(sorted, p);
    let i = partition_index(sorted, p);
    sorted.lemma_filter_pred(pred, 0);
    assert(pred(sorted[i]));
    assert(sorted[i].0 == p);
    if i > 0 {
        assert(sorted[i - 1].0 < p);
    }
    lemma_sample_scalar_at_stop(sorted, i);
}

/// A colour gradient built from named colours begins with the sunrise colour,
/// and it ends with it as well, so that the cycle closes without a seam,
/// whenever the first stop placed at position one carries the sunrise colour.
/// That is the case as soon as none of the seven inner stops lies at position
/// one.
pub proof fn lemma_named_colors_wrap_around(s: SkyTimeSettings, colors: NamedValues<Rgba>, k: int)
    requires
        s.wf(),
        0 <= k < 4,
        first_stop_at(s, colors, ONE as int).1 == colors.sunrise,
    ensures
        sample_color_channel(stable_sort(named_stops(s, colors)), 0, k) == channel_unit_spec(
            colors.sunrise[k] as int,
        ),
        sample_color_channel(stable_sort(named_stops(s, colors)), ONE as int, k)
            == sample_color_channel(stable_sort(named_stops(s, colors)), 0, k),
{
    let stops = named_stops(s, colors);
    lemma_named_stops_ends(s, colors);
    assert(stops.filter(at_position::<Rgba>(0)).len() > 0) by {
        let rest = stops.skip(1);
        assert(seq![stops[0]] + rest =~= stops);
        rest.lemma_filter_prepend(stops[0], at_position::<Rgba>(0));
    }
    lemma_sample_color_first_wins(stops, 0, k);
    lemma_sample_color_first_wins(stops, ONE as int, k);
}

/// A quotient stays below a bound whose multiple the numerator stays below.
proof fn lemma_ratio_below(num: int, den: int, bound: int)
    requires
        den > 0,
        num * ONE < bound * den,
    ensures
        ratio_spec(num, den) < bound,
{
    let x = num * ONE;
    lemma_fundamental_div_mod(x, den);
    lemma_mod_bound(x, den);
    let q = x / den;
    assert(q < bound) by (nonlinear_arith)
        requires
            x == den * q + x % den,
            0 <= x % den,
            x < bound * den,
            den > 0,
    ;
}

/// With timings as they usually are, no inner stop lies at position one: a
/// sunset shorter than the night, and a sunrise that is shorter than two days
/// but not so short that its share of the night rounds to nothing.
pub proof fn lemma_usual_timings_keep_the_end_free(s: SkyTimeSettings)
    requires
        s.wf(),
        s.sunset_ticks < s.night_ticks,
        s.sunrise_ticks < 2 * s.day_ticks,
        s.sunrise_ticks * HALF >= s.night_ticks,
    ensures
        forall|i: int| 1 <= i < 8 ==> #[trigger] stop_position(s, i) < ONE,
{
    let day = s.day_ticks as int;
    let night = s.night_ticks as int;
    let sunrise = s.sunrise_ticks as int;
    let sunset = s.sunset_ticks as int;
    assert(sunset * ONE < ONE * night) by (nonlinear_arith)
        requires
            sunset < night,
            ONE == 65536,
    ;
    lemma_ratio_below(sunset, night, ONE as int);
    assert(sunrise * ONE < (2 * ONE) * day) by (nonlinear_arith)
        requires
            sunrise < 2 * day,
            ONE == 65536,
    ;
    lemma_ratio_below(sunrise, day, 2 * ONE);
    assert(2 * night <= sunrise * ONE) by (nonlinear_arith)
        requires
            sunrise * HALF >= night,
            ONE == 65536,
            HALF == 32768,
    ;
    lemma_div_is_ordered(2 * night, sunrise * ONE, night);
    lemma_div_multiples_vanish(2, night);
    lemma_ratio_bounds(sunset, day);
    lemma_ratio_bounds(sunrise, day);
    lemma_ratio_bounds(sunset, night);
    assert(sunrise_start_spec(s) < ONE);
    assert(sunset_end_spec(s) < ONE);
    assert(sunrise_end_spec(s) < ONE);
    assert(sunset_start_spec(s) <= HALF);
}

/// With timings as they usually are, a colour gradient built from named
/// colours closes without a seam: it gives the sunrise colour at both ends.
pub proof fn lemma_named_colors_wrap_around_usually(
    s: SkyTimeSettings,
    colors: NamedValues<Rgba>,
    k: int,
)
    requires
        s.wf(),
        0 <= k < 4,
        s.sunset_ticks < s.night_ticks,
        s.sunrise_ticks < 2 * s.day_ticks,
        s.sunrise_ticks * HALF >= s.night_ticks,
    ensures
        sample_color_channel(stable_sort(named_stops(s, colors)), 0, k) == channel_unit_spec(
            colors.sunrise[k] as int,
        ),
        sample_color_channel(stable_sort(named_stops(s, colors)), ONE as int, k)
            == channel_unit_spec(colors.sunrise[k] as int),
{
    lemma_usual_timings_keep_the_end_free(s);
    lemma_named_stops_ends(s, colors);
    lemma_named_colors_wrap_around(s, colors, k);
}

/// A scalar gradient built from named values begins with the sunrise value,
/// and ends with it whenever the first stop placed at position one carries it.
pub proof fn lemma_named_scalars_wrap_around(s: SkyTimeSettings, values: NamedValues<Fixed>)
    requires
        s.wf(),
        first_stop_at(s, values, ONE as int).1 == values.sunrise,
    ensures
        sample_scalar(stable_sort(named_stops(s, values)), 0) == values.sunrise,
        sample_scalar(stable_sort(named_stops(s, values)), ONE as int) == values.sunrise,
{
    let stops = named_stops(s, values);
    lemma_named_stops_ends(s, values);
    assert(stops.filter(at_position::<Fixed>(0)).len() > 0) by {
        let rest = stops.skip(1);
        assert(seq![stops[0]] + rest =~= stops);
        rest.lemma_filter_prepend(stops[0], at_position::<Fixed>(0));
    }
    lemma_sample_scalar_first_wins(stops, 0);
    lemma_sample_scalar_first_wins(stops, ONE as int);
}

/// A colour gradient built from six equal colours gives that colour at every
/// position, whatever the lengths of sunrise and sunset.
pub proof fn lemma_named_colors_constant(s: SkyTimeSettings, color: Rgba, t: int, k: int)
    requires
        0 <= k < 4,
    ensures
        sample_color_channel(
            stable_sort(
                named_stops(
                    s,
                    (NamedValues {
                        sunrise: color,
                        day_low: color,
                        day_high: color,
                        sunset: color,
                        night_low: color,
                        night_high: color,
                    }),
                ),
            ),
            t,
            k,
        ) == channel_unit_spec(color[k] as int),
{
    let values = NamedValues {
        sunrise: color,
        day_low: color,
        day_high: color,
        sunset: color,
        night_low: color,
        night_high: color,
    };
    let stops = named_stops(s, values);
    lemma_stable_sort_keeps_values(stops, color);
    lemma_stable_sort_sorted(stops);
    lemma_sample_color_constant(stable_sort(stops), color, t, k);
}

/// A scalar gradient built from six equal values gives that value at every
/// position.
pub proof fn lemma_named_scalars_constant(s: SkyTimeSettings, value: Fixed, t: int)
    ensures
        sample_scalar(
            stable_sort(
                named_stops(
                    s,
                    (NamedValues {
                        sunrise: value,
                        day_low: value,
                        day_high: value,
                        sunset: value,
                        night_low: value,
                        night_high: value,
                    }),
                ),
            ),
            t,
        ) == value,
{
    let values = NamedValues {
        sunrise: value,
        day_low: value,
        day_high: value,
        sunset: value,
        night_low: value,
        night_high: value,
    };
    let stops = named_stops(s, values);
    lemma_stable_sort_keeps_values(stops, value);
    lemma_stable_sort_sorted(stops);
    lemma_sample_scalar_constant(stable_sort(stops), value, t);
}

} // verus!
