//! The day and night timeline.
//!
//! Time is counted in ticks. A cycle is a day followed by a night; the
//! timeline turns the ticks elapsed since the start of the day into the
//! fraction of the day and of the night that has passed, and into the phase
//! values that the sky is drawn from.

use crate::fixed::{
    abs_spec, lemma_ratio_bounds, lemma_ratio_endpoints, lemma_ratio_monotonic,
    mul_saturating, mul_saturating_spec, mul_spec, ratio, ratio_spec, Fixed, HALF, ONE, PI,
};
use vstd::arithmetic::div_mod::{
    lemma_div_is_ordered, lemma_div_multiples_vanish, lemma_fundamental_div_mod, lemma_mod_bound,
};
use vstd::math::{max, min};
use vstd::prelude::*;

verus! {

/// Ticks in a second, for the default settings and for callers that keep time
/// in seconds.
pub const TICKS_PER_SECOND: u32 = 1000;

/// Why a set of timeline settings cannot be used.
#[derive(Clone, Copy, Debug, PartialEq, Eq, Structural)]
pub enum ConfigurationError {
    /// The day has no length, so no fraction of it can be taken.
    ZeroDayLength,
    /// The night has no length, so no fraction of it can be taken.
    ZeroNightLength,
}

/// The current time of the sky.
#[derive(Clone, Copy, Debug, PartialEq, Eq, Structural)]
pub struct SkyTime {
    /// Ticks since the day began.
    pub time: u32,
    /// Whether the time moves on by itself with every update.
    pub auto_tick: bool,
}

impl Default for SkyTime {
    fn default() -> (sky_time: Self)
        ensures
            sky_time.time == 0,
            sky_time.auto_tick,
    {
        SkyTime { time: 0, auto_tick: true }
    }
}

/// The lengths of the phases of a cycle, in ticks.
#[derive(Clone, Copy, Debug, PartialEq, Eq, Structural)]
pub struct SkyTimeSettings {
    /// Length of the day.
    pub day_ticks: u32,
    /// Length of the night.
    pub night_ticks: u32,
    /// Length of the sunrise, which is taken from the day.
    pub sunrise_ticks: u32,
    /// Length of the sunset, which is taken from the night.
    pub sunset_ticks: u32,
}

impl Default for SkyTimeSettings {
    fn default() -> (settings: Self)
        ensures
            settings.day_ticks == 15 * TICKS_PER_SECOND,
            settings.night_ticks == 25 * TICKS_PER_SECOND,
            settings.sunrise_ticks == 2 * TICKS_PER_SECOND,
            settings.sunset_ticks == 2 * TICKS_PER_SECOND,
            settings.wf(),
    {
        SkyTimeSettings {
            day_ticks: 15_000,
            night_ticks: 25_000,
            sunrise_ticks: 2_000,
            sunset_ticks: 2_000,
        }
    }
}

impl SkyTimeSettings {
    /// Both the day and the night have a length.
    pub open spec fn wf(&self) -> bool {
        self.day_ticks > 0 && self.night_ticks > 0
    }

    /// Fraction of the day that has passed at `time`: it grows from zero to one
    /// during the day and stays at one afterwards.
    pub open spec fn day_percent_spec(&self, time: int) -> int {
        min(ratio_spec(time, self.day_ticks as int), ONE as int)
    }

    /// Fraction of the night that has passed at `time`: zero during the day,
    /// then growing from zero, reaching one when the night ends.
    pub open spec fn night_percent_spec(&self, time: int) -> int {
        max(ratio_spec(time - self.day_ticks, self.night_ticks as int), 0)
    }

    /// Position of `time` in the cycle: the day takes the first half of the
    /// unit interval and the night the second.
    pub open spec fn time_percent_spec(&self, time: int) -> int {
        (self.day_percent_spec(time) + self.night_percent_spec(time)) / 2
    }

    /// Closeness of `time` to the middle of the night: zero outside the night,
    /// one at its middle, linear in between.
    pub open spec fn night_time_distance_spec(&self, time: int) -> int {
        ONE - abs_spec(self.night_percent_spec(time) - HALF) * 2
    }

    /// Angle of the sun at `time`, in radians: half a turn for the day and
    /// another half for the night.
    pub open spec fn time_2pi_spec(&self, time: int) -> int {
        mul_spec(self.day_percent_spec(time), PI as int) + mul_spec(
            self.night_percent_spec(time),
            PI as int,
        )
    }

    /// Length of a whole cycle.
    pub open spec fn total_time_spec(&self) -> int {
        self.day_ticks + self.night_ticks
    }

    /// The settings with the given lengths, if day and night both have one.
    pub fn new(day_ticks: u32, night_ticks: u32, sunrise_ticks: u32, sunset_ticks: u32) -> (result:
        Result<Self, ConfigurationError>)
        ensures
            day_ticks == 0 ==> result == Err::<Self, ConfigurationError>(
                ConfigurationError::ZeroDayLength,
            ),
            day_ticks > 0 && night_ticks == 0 ==> result == Err::<Self, ConfigurationError>(
                ConfigurationError::ZeroNightLength,
            ),
            day_ticks > 0 && night_ticks > 0 ==> result == Ok::<Self, ConfigurationError>(
                (SkyTimeSettings { day_ticks, night_ticks, sunrise_ticks, sunset_ticks }),
            ),
            result is Ok ==> result->Ok_0.wf(),
    {
        let settings = SkyTimeSettings { day_ticks, night_ticks, sunrise_ticks, sunset_ticks };
        match settings.validate() {
            Ok(()) => Ok(settings),
            Err(e) => Err(e),
        }
    }

    /// Checks that the day and the night both have a length.
    pub fn validate(&self) -> (result: Result<(), ConfigurationError>)
        ensures
            result is Ok <==> self.wf(),
            self.day_ticks == 0 ==> result == Err::<(), ConfigurationError>(
                ConfigurationError::ZeroDayLength,
            ),
            self.day_ticks > 0 && self.night_ticks == 0 ==> result == Err::<
                (),
                ConfigurationError,
            >(ConfigurationError::ZeroNightLength),
    {
        if self.day_ticks == 0 {
            Err(ConfigurationError::ZeroDayLength)
        } else if self.night_ticks == 0 {
            Err(ConfigurationError::ZeroNightLength)
        } else {
            Ok(())
        }
    }

    /// Fraction of the day that has passed at `time`.
    pub fn day_percent(&self, time: u32) -> (percent: Fixed)
        requires
            self.day_ticks > 0,
        ensures
            percent == self.day_percent_spec(time as int),
            0 <= percent <= ONE,
    {
        let r: Fixed = ratio(time, self.day_ticks);
        if r > ONE {
            ONE
        } else {
            r
        }
    }

    /// Fraction of the night that has passed at `time`.
    pub fn night_percent(&self, time: u32) -> (percent: Fixed)
        requires
            self.night_ticks > 0,
        ensures
            percent == self.night_percent_spec(time as int),
            0 <= percent <= 0x1_0000_0000_0000,
    {
        if time > self.day_ticks {
            let elapsed: u32 = time - self.day_ticks;
            proof {
                lemma_ratio_bounds(elapsed as int, self.night_ticks as int);
                assert(elapsed * ONE <= 0x1_0000_0000_0000) by (nonlinear_arith)
                    requires
                        elapsed <= 0xffff_ffff,
                        ONE == 65536,
                ;
            }
            ratio(elapsed, self.night_ticks)
        } else {
            proof {
                lemma_ratio_monotonic(time - self.day_ticks, 0, self.night_ticks as int);
                lemma_ratio_endpoints(self.night_ticks as int);
            }
            0
        }
    }

    /// Position of `time` in the cycle.
    pub fn time_percent(&self, time: u32) -> (percent: Fixed)
        requires
            self.wf(),
        ensures
            percent == self.time_percent_spec(time as int),
            0 <= percent,
    {
        let sum: Fixed = self.day_percent(time) + self.night_percent(time);
        sum / 2
    }

    /// Closeness of `time` to the middle of the night.
    pub fn night_time_distance(&self, time: u32) -> (distance: Fixed)
        requires
            self.night_ticks > 0,
        ensures
            distance == self.night_time_distance_spec(time as int),
            distance <= ONE,
    {
        let offset: Fixed = self.night_percent(time) - HALF;
        let spread: Fixed = if offset < 0 {
            -offset
        } else {
            offset
        };
        ONE - spread * 2
    }

    /// Angle of the sun at `time`, in radians.
    pub fn time_2pi(&self, time: u32) -> (angle: Fixed)
        requires
            self.wf(),
        ensures
            angle == self.time_2pi_spec(time as int),
            0 <= angle,
    {
        let day: Fixed = self.day_percent(time);
        let night: Fixed = self.night_percent(time);
        proof {
            lemma_mul_pi_bounds(day as int);
            lemma_mul_pi_bounds(night as int);
        }
        mul_saturating(day, PI) + mul_saturating(night, PI)
    }

    /// Length of a whole cycle.
    pub fn total_time(&self) -> (total: u64)
        ensures
            total == self.total_time_spec(),
    {
        self.day_ticks as u64 + self.night_ticks as u64
    }

    /// Length of the sunrise as a fraction of the day.
    pub fn sunrise_percent_day(&self) -> (percent: Fixed)
        requires
            self.day_ticks > 0,
        ensures
            percent == ratio_spec(self.sunrise_ticks as int, self.day_ticks as int),
            0 <= percent <= 0x1_0000_0000_0000,
    {
        proof {
            lemma_ratio_upper(self.sunrise_ticks as int, self.day_ticks as int);
        }
        ratio(self.sunrise_ticks, self.day_ticks)
    }

    /// Length of the sunrise as a fraction of the night.
    pub fn sunrise_percent_night(&self) -> (percent: Fixed)
        requires
            self.night_ticks > 0,
        ensures
            percent == ratio_spec(self.sunrise_ticks as int, self.night_ticks as int),
            0 <= percent <= 0x1_0000_0000_0000,
    {
        proof {
            lemma_ratio_upper(self.sunrise_ticks as int, self.night_ticks as int);
        }
        ratio(self.sunrise_ticks, self.night_ticks)
    }

    /// Length of the sunset as a fraction of the day.
    pub fn sunset_percent_day(&self) -> (percent: Fixed)
        requires
            self.day_ticks > 0,
        ensures
            percent == ratio_spec(self.sunset_ticks as int, self.day_ticks as int),
            0 <= percent <= 0x1_0000_0000_0000,
    {
        proof {
            lemma_ratio_upper(self.sunset_ticks as int, self.day_ticks as int);
        }
        ratio(self.sunset_ticks, self.day_ticks)
    }

    /// Length of the sunset as a fraction of the night.
    pub fn sunset_percent_night(&self) -> (percent: Fixed)
        requires
            self.night_ticks > 0,
        ensures
            percent == ratio_spec(self.sunset_ticks as int, self.night_ticks as int),
            0 <= percent <= 0x1_0000_0000_0000,
    {
        proof {
            lemma_ratio_upper(self.sunset_ticks as int, self.night_ticks as int);
        }
        ratio(self.sunset_ticks, self.night_ticks)
    }
}

/// What the timeline starts with.
#[derive(Clone, Copy, Debug, PartialEq, Eq, Structural)]
pub struct SkyCyclePlugin {
    /// The lengths of the phases of a cycle.
    pub sky_time_settings: SkyTimeSettings,
    /// The time at which the sky starts.
    pub sky_time: SkyTime,
}

/// The timeline as it starts: a day of fifteen seconds, a night of twenty-five,
/// sunrise and sunset of two seconds each, and the clock running from zero.
pub open spec fn default_cycle() -> SkyCyclePlugin {
    SkyCyclePlugin {
        sky_time_settings: SkyTimeSettings {
            day_ticks: 15_000,
            night_ticks: 25_000,
            sunrise_ticks: 2_000,
            sunset_ticks: 2_000,
        },
        sky_time: SkyTime { time: 0, auto_tick: true },
    }
}

impl Default for SkyCyclePlugin {
    fn default() -> (plugin: Self)
        ensures
            plugin == default_cycle(),
    {
        SkyCyclePlugin { sky_time_settings: SkyTimeSettings::default(), sky_time: SkyTime::default() }
    }
}

/// The time after an update that took `delta` ticks: unchanged while the clock
/// is stopped; else moved on by `delta`, and taken back by one cycle once it
/// has gone past the end of the cycle.
pub open spec fn advanced_time(sky_time: SkyTime, delta: int, settings: SkyTimeSettings) -> int {
    if !sky_time.auto_tick {
        sky_time.time as int
    } else if sky_time.time + delta > settings.total_time_spec() {
        sky_time.time + delta - settings.total_time_spec()
    } else {
        sky_time.time + delta
    }
}

/// Moves the time of the sky on by `delta` ticks.
pub fn update_sky_time(sky_time: &mut SkyTime, delta: u32, settings: &SkyTimeSettings)
    requires
        advanced_time(*old(sky_time), delta as int, *settings) <= u32::MAX,
    ensures
        final(sky_time).time == advanced_time(*old(sky_time), delta as int, *settings),
        final(sky_time).auto_tick == old(sky_time).auto_tick,
{
    if !sky_time.auto_tick {
        return ;
    }
    let mut moved: u64 = sky_time.time as u64 + delta as u64;
    let total: u64 = settings.total_time();
    if moved > total {
        moved = moved - total;
    }
    sky_time.time = moved as u32;
}

/// Moves the time of the sky on by `delta` ticks where the new time can be
/// counted, and says whether it did. Where it cannot, the time stays.
pub fn try_update_sky_time(sky_time: &mut SkyTime, delta: u32, settings: &SkyTimeSettings) -> (moved:
    bool)
    ensures
        moved == (advanced_time(*old(sky_time), delta as int, *settings) <= u32::MAX),
        moved ==> final(sky_time).time == advanced_time(*old(sky_time), delta as int, *settings),
        !moved ==> final(sky_time).time == old(sky_time).time,
        final(sky_time).auto_tick == old(sky_time).auto_tick,
{
    if sky_time.auto_tick {
        let moved_to: u64 = sky_time.time as u64 + delta as u64;
        let total: u64 = settings.total_time();
        let wrapped: u64 = if moved_to > total {
            moved_to - total
        } else {
            moved_to
        };
        if wrapped > u32::MAX as u64 {
            return false;
        }
    }
    update_sky_time(sky_time, delta, settings);
    true
}

/// A ratio of two tick counts fits well inside a [`Fixed`].
proof fn lemma_ratio_upper(num: int, den: int)
    requires
        0 <= num <= u32::MAX,
        den > 0,
    ensures
        0 <= ratio_spec(num, den) <= 0x1_0000_0000_0000,
{
    lemma_ratio_bounds(num, den);
    assert(num * ONE <= 0x1_0000_0000_0000) by (nonlinear_arith)
        requires
            num <= 0xffff_ffff,
            ONE == 65536,
    ;
}

/// Multiplying a fraction of a phase by the circle constant cannot leave the
/// range of [`Fixed`].
proof fn lemma_mul_pi_bounds(x: int)
    requires
        0 <= x <= 0x1_0000_0000_0000,
    ensures
        mul_saturating_spec(x, PI as int) == mul_spec(x, PI as int),
        0 <= mul_spec(x, PI as int) <= 4 * x,
{
    let one = ONE as int;
    assert(0 <= x * PI <= (4 * x) * one) by (nonlinear_arith)
        requires
            0 <= x,
            PI == 205887,
            one == 65536,
    ;
    lemma_div_is_ordered(0, x * PI, one);
    lemma_div_is_ordered(x * PI, (4 * x) * one, one);
    lemma_div_multiples_vanish(4 * x, one);
    assert(0int / one == 0);
}

/// Both phase fractions never go down as time goes on.
pub proof fn lemma_phase_percents_monotonic(settings: SkyTimeSettings, t1: int, t2: int)
    requires
        settings.wf(),
        t1 <= t2,
    ensures
        settings.day_percent_spec(t1) <= settings.day_percent_spec(t2),
        settings.night_percent_spec(t1) <= settings.night_percent_spec(t2),
{
    lemma_ratio_monotonic(t1, t2, settings.day_ticks as int);
    lemma_ratio_monotonic(
        t1 - settings.day_ticks,
        t2 - settings.day_ticks,
        settings.night_ticks as int,
    );
}

/// The position in the cycle never goes down as time goes on, within the day,
/// within the night and across the change from one to the other.
pub proof fn lemma_time_percent_monotonic(settings: SkyTimeSettings, t1: int, t2: int)
    requires
        settings.wf(),
        t1 <= t2,
    ensures
        settings.time_percent_spec(t1) <= settings.time_percent_spec(t2),
{
    lemma_phase_percents_monotonic(settings, t1, t2);
    lemma_div_is_ordered(
        settings.day_percent_spec(t1) + settings.night_percent_spec(t1),
        settings.day_percent_spec(t2) + settings.night_percent_spec(t2),
        2,
    );
}

/// The values of the phase fractions at the marks of the cycle: at its start,
/// where the day turns into night, and at its end.
pub proof fn lemma_phase_percents_at_marks(settings: SkyTimeSettings)
    requires
        settings.wf(),
    ensures
        settings.day_percent_spec(0) == 0,
        settings.night_percent_spec(0) == 0,
        settings.day_percent_spec(settings.day_ticks as int) == ONE,
        settings.night_percent_spec(settings.day_ticks as int) == 0,
        settings.day_percent_spec(settings.total_time_spec()) == ONE,
        settings.night_percent_spec(settings.total_time_spec()) == ONE,
{
    let day = settings.day_ticks as int;
    let night = settings.night_ticks as int;
    lemma_ratio_endpoints(day);
    lemma_ratio_endpoints(night);
    lemma_ratio_monotonic(-day, 0, night);
    lemma_ratio_bounds(day + night, day);
}

/// The position in the cycle is zero at the start of the day, exactly one half
/// where the day turns into night, and one at the end of the night. Before
/// the change it is at most one half, after it at least one half.
pub proof fn lemma_time_percent_at_marks(settings: SkyTimeSettings, time: int)
    requires
        settings.wf(),
        0 <= time,
    ensures
        settings.time_percent_spec(0) == 0,
        settings.time_percent_spec(settings.day_ticks as int) == HALF,
        settings.time_percent_spec(settings.total_time_spec()) == ONE,
        time <= settings.day_ticks ==> settings.time_percent_spec(time) <= HALF,
        time >= settings.day_ticks ==> settings.time_percent_spec(time) >= HALF,
{
    lemma_phase_percents_at_marks(settings);
    if time <= settings.day_ticks {
        lemma_time_percent_monotonic(settings, time, settings.day_ticks as int);
    }
    if time >= settings.day_ticks {
        lemma_time_percent_monotonic(settings, settings.day_ticks as int, time);
    }
}

/// One tick moves the position in the cycle by no more than the tick's share
/// of the phases, up to rounding: the position makes no jump, neither inside
/// a phase nor where the day turns into night.
pub proof fn lemma_time_percent_step(settings: SkyTimeSettings, time: int)
    requires
        settings.wf(),
        0 <= time,
    ensures
        2 * (settings.time_percent_spec(time + 1) - settings.time_percent_spec(time))
            <= ratio_spec(1, settings.day_ticks as int) + ratio_spec(
            1,
            settings.night_ticks as int,
        ) + 3,
{
    let day = settings.day_ticks as int;
    let night = settings.night_ticks as int;
    lemma_ratio_step(time, day);
    lemma_ratio_step(time - day, night);
    lemma_phase_percents_monotonic(settings, time, time + 1);
    lemma_ratio_bounds(1, day);
    lemma_ratio_bounds(1, night);
    let a = settings.day_percent_spec(time) + settings.night_percent_spec(time);
    let b = settings.day_percent_spec(time + 1) + settings.night_percent_spec(time + 1);
    assert(b - a <= ratio_spec(1, day) + ratio_spec(1, night) + 2);
}

/// One more in the numerator raises a ratio by at most the ratio of one, plus
/// one unit for the rounding.
proof fn lemma_ratio_step(num: int, den: int)
    requires
        den > 0,
    ensures
        ratio_spec(num + 1, den) <= ratio_spec(num, den) + ratio_spec(1, den) + 1,
{
    let x = num * ONE;
    let y = 1 * ONE;
    lemma_fundamental_div_mod(x, den);
    lemma_fundamental_div_mod(y, den);
    lemma_fundamental_div_mod(x + y, den);
    lemma_mod_bound(x, den);
    lemma_mod_bound(y, den);
    lemma_mod_bound(x + y, den);
    let qx = x / den;
    let qy = y / den;
    let qs = (x + y) / den;
    assert((num + 1) * ONE == x + y) by (nonlinear_arith)
        requires
            x == num * ONE,
            y == 1 * ONE,
    ;
    assert(qs <= qx + qy + 1) by (nonlinear_arith)
        requires
            x == den * qx + x % den,
            y == den * qy + y % den,
            x + y == den * qs + (x + y) % den,
            0 <= x % den < den,
            0 <= y % den < den,
            0 <= (x + y) % den < den,
            den > 0,
    ;
}

/// Closeness to the middle of the night is zero during the whole day, one
/// exactly at the middle of the night and zero again when the night ends;
/// during the night it stays between zero and one.
pub proof fn lemma_night_time_distance_profile(settings: SkyTimeSettings, time: int)
    requires
        settings.night_ticks > 0,
    ensures
        time <= settings.day_ticks ==> settings.night_time_distance_spec(time) == 0,
        2 * (time - settings.day_ticks) == settings.night_ticks
            ==> settings.night_time_distance_spec(time) == ONE,
        time == settings.day_ticks + settings.night_ticks ==> settings.night_time_distance_spec(
            time,
        ) == 0,
        settings.day_ticks <= time <= settings.day_ticks + settings.night_ticks ==> 0
            <= settings.night_time_distance_spec(time) <= ONE,
{
    let day = settings.day_ticks as int;
    let night = settings.night_ticks as int;
    let elapsed = time - day;
    lemma_ratio_endpoints(night);
    if time <= day {
        lemma_ratio_monotonic(elapsed, 0, night);
    }
    if 2 * elapsed == night {
        assert(elapsed * ONE == HALF * night) by (nonlinear_arith)
            requires
                2 * elapsed == night,
                ONE == 65536,
                HALF == 32768,
        ;
        lemma_div_multiples_vanish(HALF as int, night);
    }
    if day <= time <= day + night {
        lemma_ratio_bounds(elapsed, night);
    }
}

} // verus!
