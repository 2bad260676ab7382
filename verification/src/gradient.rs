//! Gradients: piecewise linear functions of a position.
//!
//! A [`Gradient`] goes from a position to a colour, a [`ScalarGradient`] from a
//! position to a single number. Both hold their stops in ascending order of
//! position, interpolate linearly between neighbouring stops and stay flat
//! outside the first and the last stop.

use crate::fixed::{
    channel_unit, channel_unit_spec, lemma_channel_unit_bounds, lemma_lerp_bounds, lerp,
    lerp_spec, span_ratio, span_ratio_spec, Fixed, ONE,
};
use crate::stops::{
    lemma_partition_index_range, lemma_partition_index_splits, lemma_partition_index_unique,
    lemma_stable_sort_of_sorted, partition_index, partition_point, sort_stops, sorted_by_position,
    stable_sort,
};
use vstd::arithmetic::div_mod::lemma_div_multiples_vanish;
use vstd::prelude::*;

verus! {

/// A colour as it is stored: red, green, blue and alpha, each from 0 to 255.
pub type Rgba = [u8; 4];

/// A colour as it is sampled: red, green, blue and alpha, each a fraction of
/// one.
pub type UnitColor = [Fixed; 4];

/// What an empty colour gradient gives for channel `k`: opaque black.
pub open spec fn fallback_channel(k: int) -> int {
    if k == 3 {
        ONE as int
    } else {
        0
    }
}

/// Channel `k` of the colour of the sorted stops `s` at position `t`.
///
/// Without stops it is the fallback. Up to the first stop it is the first
/// stop's colour, past the last stop the last stop's. In between it is
/// interpolated between the first stop at or after `t` and the stop before it.
pub open spec fn sample_color_channel(s: Seq<(Fixed, Rgba)>, t: int, k: int) -> int {
    let idx = partition_index(s, t);
    if s.len() == 0 {
        fallback_channel(k)
    } else if idx == 0 {
        channel_unit_spec(s[0].1[k] as int)
    } else if idx >= s.len() {
        channel_unit_spec(s[s.len() - 1].1[k] as int)
    } else {
        lerp_spec(
            channel_unit_spec(s[idx - 1].1[k] as int),
            channel_unit_spec(s[idx].1[k] as int),
            span_ratio_spec(t, s[idx - 1].0 as int, s[idx].0 as int),
        )
    }
}

/// The value of the sorted stops `s` at position `t`: zero without stops, else
/// found as a colour channel is, from the values as they are stored.
pub open spec fn sample_scalar(s: Seq<(Fixed, Fixed)>, t: int) -> int {
    let idx = partition_index(s, t);
    if s.len() == 0 {
        0
    } else if idx == 0 {
        s[0].1 as int
    } else if idx >= s.len() {
        s[s.len() - 1].1 as int
    } else {
        lerp_spec(
            s[idx - 1].1 as int,
            s[idx].1 as int,
            span_ratio_spec(t, s[idx - 1].0 as int, s[idx].0 as int),
        )
    }
}

/// A position that coincides with the upper end of a span lies at ratio one.
pub proof fn lemma_span_ratio_at_end(t0: int, t1: int)
    requires
        t0 < t1,
    ensures
        span_ratio_spec(t1, t0, t1) == ONE,
{
    assert((t1 - t0) * ONE == ONE * (t1 - t0)) by (nonlinear_arith);
    lemma_div_multiples_vanish(ONE as int, t1 - t0);
}

/// In a sorted list, a stop that is the first at its position sits at the
/// partition index of that position.
pub proof fn lemma_partition_index_at_stop<V>(s: Seq<(Fixed, V)>, i: int)
    requires
        sorted_by_position(s),
        0 <= i < s.len(),
        i > 0 ==> s[i - 1].0 < s[i].0,
    ensures
        partition_index(s, s[i].0 as int) == i,
{
    let p = s[i].0 as int;
    assert forall|j: int| 0 <= j < i implies (#[trigger] s[j]).0 < p by {
        assert(s[j].0 <= s[i - 1].0);
    }
    assert forall|j: int| i <= j < s.len() implies (#[trigger] s[j]).0 >= p by {
        assert(s[i].0 <= s[j].0);
    }
    lemma_partition_index_unique(s, p, i);
}

/// Sampling a colour gradient at the position of a stop gives that stop's
/// colour exactly, provided that the stop is the first at its position.
pub proof fn lemma_sample_color_at_stop(s: Seq<(Fixed, Rgba)>, i: int, k: int)
    requires
        sorted_by_position(s),
        0 <= i < s.len(),
        i > 0 ==> s[i - 1].0 < s[i].0,
        0 <= k < 4,
    ensures
        sample_color_channel(s, s[i].0 as int, k) == channel_unit_spec(s[i].1[k] as int),
{
    lemma_partition_index_at_stop(s, i);
    if i > 0 {
        lemma_span_ratio_at_end(s[i - 1].0 as int, s[i].0 as int);
        lemma_lerp_bounds(
            channel_unit_spec(s[i - 1].1[k] as int),
            channel_unit_spec(s[i].1[k] as int),
            ONE as int,
        );
    }
}

/// Sampling a scalar gradient at the position of a stop gives that stop's
/// value exactly, provided that the stop is the first at its position.
pub proof fn lemma_sample_scalar_at_stop(s: Seq<(Fixed, Fixed)>, i: int)
    requires
        sorted_by_position(s),
        0 <= i < s.len(),
        i > 0 ==> s[i - 1].0 < s[i].0,
    ensures
        sample_scalar(s, s[i].0 as int) == s[i].1,
{
    lemma_partition_index_at_stop(s, i);
    if i > 0 {
        lemma_span_ratio_at_end(s[i - 1].0 as int, s[i].0 as int);
        lemma_lerp_bounds(s[i - 1].1 as int, s[i].1 as int, ONE as int);
    }
}

/// A colour gradient is flat outside its stops: up to the first stop it gives
/// the first stop's colour, and past the last stop the last stop's.
pub proof fn lemma_sample_color_outside(s: Seq<(Fixed, Rgba)>, t: int, k: int)
    requires
        sorted_by_position(s),
        s.len() > 0,
    ensures
        t <= s[0].0 ==> sample_color_channel(s, t, k) == channel_unit_spec(s[0].1[k] as int),
        t > s[s.len() - 1].0 ==> sample_color_channel(s, t, k) == channel_unit_spec(
            s[s.len() - 1].1[k] as int,
        ),
{
    lemma_partition_index_splits(s, t);
    let idx = partition_index(s, t);
    if t <= s[0].0 && idx > 0 {
        assert(s[0].0 < t);
    }
    if t > s[s.len() - 1].0 && idx < s.len() {
        assert(s[idx].0 <= s[s.len() - 1].0);
    }
}

/// A scalar gradient is flat outside its stops.
pub proof fn lemma_sample_scalar_outside(s: Seq<(Fixed, Fixed)>, t: int)
    requires
        sorted_by_position(s),
        s.len() > 0,
    ensures
        t <= s[0].0 ==> sample_scalar(s, t) == s[0].1,
        t > s[s.len() - 1].0 ==> sample_scalar(s, t) == s[s.len() - 1].1,
{
    lemma_partition_index_splits(s, t);
    let idx = partition_index(s, t);
    if t <= s[0].0 && idx > 0 {
        assert(s[0].0 < t);
    }
    if t > s[s.len() - 1].0 && idx < s.len() {
        assert(s[idx].0 <= s[s.len() - 1].0);
    }
}

/// Every channel of a sampled colour is a fraction of one.
pub proof fn lemma_sample_color_range(s: Seq<(Fixed, Rgba)>, t: int, k: int)
    requires
        0 <= k < 4,
    ensures
        0 <= sample_color_channel(s, t, k) <= ONE,
{
    let idx = partition_index(s, t);
    lemma_partition_index_range(s, t);
    if s.len() == 0 {
    } else if idx == 0 {
        lemma_channel_unit_bounds(s[0].1[k] as int);
    } else if idx >= s.len() {
        lemma_channel_unit_bounds(s[s.len() - 1].1[k] as int);
    } else {
        let a = channel_unit_spec(s[idx - 1].1[k] as int);
        let b = channel_unit_spec(s[idx].1[k] as int);
        lemma_channel_unit_bounds(s[idx - 1].1[k] as int);
        lemma_channel_unit_bounds(s[idx].1[k] as int);
        lemma_lerp_bounds(a, b, span_ratio_spec(t, s[idx - 1].0 as int, s[idx].0 as int));
    }
}

/// A gradient whose stops all carry one colour gives that colour everywhere.
pub proof fn lemma_sample_color_constant(s: Seq<(Fixed, Rgba)>, color: Rgba, t: int, k: int)
    requires
        s.len() > 0,
        forall|i: int| 0 <= i < s.len() ==> (#[trigger] s[i]).1 == color,
        0 <= k < 4,
    ensures
        sample_color_channel(s, t, k) == channel_unit_spec(color[k] as int),
{
    let idx = partition_index(s, t);
    lemma_partition_index_range(s, t);
    assert(s[0].1 == color);
    assert(s[s.len() - 1].1 == color);
    if 0 < idx < s.len() {
        assert(s[idx - 1].1 == color);
        assert(s[idx].1 == color);
        lemma_lerp_bounds(
            channel_unit_spec(color[k] as int),
            channel_unit_spec(color[k] as int),
            span_ratio_spec(t, s[idx - 1].0 as int, s[idx].0 as int),
        );
    }
}

/// A scalar gradient whose stops all carry one value gives that value
/// everywhere.
pub proof fn lemma_sample_scalar_constant(s: Seq<(Fixed, Fixed)>, value: Fixed, t: int)
    requires
        s.len() > 0,
        forall|i: int| 0 <= i < s.len() ==> (#[trigger] s[i]).1 == value,
    ensures
        sample_scalar(s, t) == value,
{
    let idx = partition_index(s, t);
    lemma_partition_index_range(s, t);
    assert(s[0].1 == value);
    assert(s[s.len() - 1].1 == value);
    if 0 < idx < s.len() {
        assert(s[idx - 1].1 == value);
        assert(s[idx].1 == value);
        lemma_lerp_bounds(
            value as int,
            value as int,
            span_ratio_spec(t, s[idx - 1].0 as int, s[idx].0 as int),
        );
    }
}

/// A stored colour with every channel as a fraction of one.
pub fn unit_color(color: Rgba) -> (unit: UnitColor)
    ensures
        forall|k: int| 0 <= k < 4 ==> #[trigger] unit[k] == channel_unit_spec(color[k] as int),
        forall|k: int| 0 <= k < 4 ==> 0 <= #[trigger] unit[k] <= ONE,
{
    [
        channel_unit(color[0]),
        channel_unit(color[1]),
        channel_unit(color[2]),
        channel_unit(color[3]),
    ]
}

/// A copy of `stops`.
fn copy_stops<V: Copy>(stops: &Vec<(Fixed, V)>) -> (copy: Vec<(Fixed, V)>)
    ensures
        copy@ == stops@,
{
    let n: usize = stops.len();
    let mut copy: Vec<(Fixed, V)> = Vec::new();
    let mut i: usize = 0;
    while i < n
        invariant
            0 <= i <= n,
            n == stops@.len(),
            copy@ == stops@.take(i as int),
        decreases n - i,
    {
        copy.push(stops[i]);
        proof {
            assert(stops@.take(i as int).push(stops@[i as int]) =~= stops@.take(i as int + 1));
        }
        i = i + 1;
    }
    proof {
        assert(stops@.take(n as int) =~= stops@);
    }
    copy
}

/// A colour gradient with linear interpolation.
#[derive(Debug, PartialEq, Eq)]
pub struct Gradient {
    /// The stops: a position and the colour at that position.
    ///
    /// Sampling needs them in ascending order of position. [`Gradient::new`]
    /// sorts them; after changing them by hand, call [`Gradient::sort`].
    pub stops: Vec<(Fixed, Rgba)>,
}

impl View for Gradient {
    type V = Seq<(Fixed, Rgba)>;

    open spec fn view(&self) -> Seq<(Fixed, Rgba)> {
        self.stops@
    }
}

impl Clone for Gradient {
    fn clone(&self) -> (copy: Self)
        ensures
            copy@ == self@,
    {
        Gradient { stops: copy_stops(&self.stops) }
    }
}

impl Default for Gradient {
    /// The gradient from opaque black at zero to opaque white at one.
    fn default() -> (gradient: Self)
        ensures
            gradient@ == seq![(0i64, [0u8, 0u8, 0u8, 255u8]), (ONE, [255u8, 255u8, 255u8, 255u8])],
            gradient.wf(),
    {
        let mut stops: Vec<(Fixed, Rgba)> = Vec::new();
        stops.push((0, [0, 0, 0, 255]));
        stops.push((ONE, [255, 255, 255, 255]));
        proof {
            assert(stops@ =~= seq![
                (0i64, [0u8, 0u8, 0u8, 255u8]),
                (ONE, [255u8, 255u8, 255u8, 255u8]),
            ]);
            assert(sorted_by_position(stops@));
            lemma_stable_sort_of_sorted(stops@);
        }
        Gradient::new(stops)
    }
}

impl Gradient {
    /// The stops are in ascending order of position.
    pub open spec fn wf(&self) -> bool {
        sorted_by_position(self@)
    }

    /// A gradient of the given stops, which need not come in order: they are
    /// sorted by position, those at one position staying in the given order.
    pub fn new(stops: Vec<(Fixed, Rgba)>) -> (gradient: Self)
        ensures
            gradient@ == stable_sort(stops@),
            gradient@.to_multiset() == stops@.to_multiset(),
            gradient.wf(),
    {
        let mut stops = stops;
        sort_stops(&mut stops);
        Gradient { stops }
    }

    /// Puts the stops back in order after they were changed by hand.
    pub fn sort(&mut self)
        ensures
            final(self)@ == stable_sort(old(self)@),
            final(self)@.to_multiset() == old(self)@.to_multiset(),
            final(self).wf(),
    {
        sort_stops(&mut self.stops);
    }

    /// Whether the stops are in order, so that the gradient can be sampled.
    pub fn is_sorted(&self) -> (sorted: bool)
        ensures
            sorted == self.wf(),
    {
        crate::stops::is_sorted(&self.stops)
    }

    /// The colour at position `t`, each channel as a fraction of one.
    pub fn sample_at(&self, t: Fixed) -> (color: UnitColor)
        requires
            self.wf(),
        ensures
            forall|k: int|
                0 <= k < 4 ==> #[trigger] color[k] == sample_color_channel(self@, t as int, k),
            forall|k: int| 0 <= k < 4 ==> 0 <= #[trigger] color[k] <= ONE,
    {
        proof {
            assert forall|k: int| 0 <= k < 4 implies 0 <= #[trigger] sample_color_channel(
                self@,
                t as int,
                k,
            ) <= ONE by {
                lemma_sample_color_range(self@, t as int, k);
            }
        }
        let n: usize = self.stops.len();
        if n == 0 {
            return [0, 0, 0, ONE];
        }
        let idx: usize = partition_point(&self.stops, t);
        if idx == 0 {
            return unit_color(self.stops[0].1);
        }
        if idx >= n {
            return unit_color(self.stops[n - 1].1);
        }
        let lower: (Fixed, Rgba) = self.stops[idx - 1];
        let upper: (Fixed, Rgba) = self.stops[idx];
        let ratio: Fixed = span_ratio(t, lower.0, upper.0);
        let c0: UnitColor = unit_color(lower.1);
        let c1: UnitColor = unit_color(upper.1);
        let red: Fixed = lerp(c0[0], c1[0], ratio);
        let green: Fixed = lerp(c0[1], c1[1], ratio);
        let blue: Fixed = lerp(c0[2], c1[2], ratio);
        let alpha: Fixed = lerp(c0[3], c1[3], ratio);
        proof {
            assert(red == sample_color_channel(self@, t as int, 0));
            assert(green == sample_color_channel(self@, t as int, 1));
            assert(blue == sample_color_channel(self@, t as int, 2));
            assert(alpha == sample_color_channel(self@, t as int, 3));
        }
        [red, green, blue, alpha]
    }
}

/// A gradient of plain numbers with linear interpolation.
#[derive(Debug, PartialEq, Eq)]
pub struct ScalarGradient {
    /// The stops: a position and the value at that position.
    ///
    /// Sampling needs them in ascending order of position.
    /// [`ScalarGradient::new`] sorts them; after changing them by hand, call
    /// [`ScalarGradient::sort`].
    pub stops: Vec<(Fixed, Fixed)>,
}

impl View for ScalarGradient {
    type V = Seq<(Fixed, Fixed)>;

    open spec fn view(&self) -> Seq<(Fixed, Fixed)> {
        self.stops@
    }
}

impl Clone for ScalarGradient {
    fn clone(&self) -> (copy: Self)
        ensures
            copy@ == self@,
    {
        ScalarGradient { stops: copy_stops(&self.stops) }
    }
}

impl Default for ScalarGradient {
    /// The gradient from zero at zero to one at one.
    fn default() -> (gradient: Self)
        ensures
            gradient@ == seq![(0i64, 0i64), (ONE, ONE)],
            gradient.wf(),
    {
        let mut stops: Vec<(Fixed, Fixed)> = Vec::new();
        stops.push((0, 0));
        stops.push((ONE, ONE));
        proof {
            assert(stops@ =~= seq![(0i64, 0i64), (ONE, ONE)]);
            assert(sorted_by_position(stops@));
            lemma_stable_sort_of_sorted(stops@);
        }
        ScalarGradient::new(stops)
    }
}

impl ScalarGradient {
    /// The stops are in ascending order of position.
    pub open spec fn wf(&self) -> bool {
        sorted_by_position(self@)
    }

    /// A gradient of the given stops, which need not come in order: they are
    /// sorted by position, those at one position staying in the given order.
    pub fn new(stops: Vec<(Fixed, Fixed)>) -> (gradient: Self)
        ensures
            gradient@ == stable_sort(stops@),
            gradient@.to_multiset() == stops@.to_multiset(),
            gradient.wf(),
    {
        let mut stops = stops;
        sort_stops(&mut stops);
        ScalarGradient { stops }
    }

    /// Puts the stops back in order after they were changed by hand.
    pub fn sort(&mut self)
        ensures
            final(self)@ == stable_sort(old(self)@),
            final(self)@.to_multiset() == old(self)@.to_multiset(),
            final(self).wf(),
    {
        sort_stops(&mut self.stops);
    }

    /// Whether the stops are in order, so that the gradient can be sampled.
    pub fn is_sorted(&self) -> (sorted: bool)
        ensures
            sorted == self.wf(),
    {
        crate::stops::is_sorted(&self.stops)
    }

    /// The value at position `t`.
    pub fn sample_at(&self, t: Fixed) -> (value: Fixed)
        requires
            self.wf(),
        ensures
            value == sample_scalar(self@, t as int),
    {
        let n: usize = self.stops.len();
        if n == 0 {
            return 0;
        }
        let idx: usize = partition_point(&self.stops, t);
        if idx == 0 {
            return self.stops[0].1;
        }
        if idx >= n {
            return self.stops[n - 1].1;
        }
        let lower: (Fixed, Fixed) = self.stops[idx - 1];
        let upper: (Fixed, Fixed) = self.stops[idx];
        let ratio: Fixed = span_ratio(t, lower.0, upper.0);
        lerp(lower.1, upper.1, ratio)
    }
}

} // verus!
