//! Ordered lists of stops.
//!
//! A stop pairs a position with a value. Gradients keep their stops in
//! ascending order of position; this module holds what is common to every
//! kind of gradient: the order itself, the stable sort that establishes it,
//! and the search for the stops around a position.

use crate::fixed::Fixed;
use vstd::prelude::*;
use vstd::seq_lib::to_multiset_build;

verus! {

/// The positions of `s` never go down from one stop to the next.
pub open spec fn sorted_by_position<V>(s: Seq<(Fixed, V)>) -> bool {
    forall|i: int, j: int| 0 <= i <= j < s.len() ==> (#[trigger] s[i]).0 <= (#[trigger] s[j]).0
}

/// The number of stops of `s` that lie strictly before `t`. In a sorted list
/// this is the index of the first stop at or after `t`.
pub open spec fn partition_index<V>(s: Seq<(Fixed, V)>, t: int) -> int
    decreases s.len(),
{
    if s.len() == 0 {
        0
    } else {
        partition_index(s.drop_last(), t) + if s.last().0 < t {
            1int
        } else {
            0int
        }
    }
}

/// `s` with `x` put behind every stop that does not lie after `x`. Stops at the
/// position of `x` stay in front of it.
pub open spec fn insert_stop<V>(s: Seq<(Fixed, V)>, x: (Fixed, V)) -> Seq<(Fixed, V)>
    decreases s.len(),
{
    if s.len() == 0 || s.last().0 <= x.0 {
        s.push(x)
    } else {
        insert_stop(s.drop_last(), x).push(s.last())
    }
}

/// The stops of `s` in ascending order of position, those at one position in
/// the order in which `s` has them.
pub open spec fn stable_sort<V>(s: Seq<(Fixed, V)>) -> Seq<(Fixed, V)>
    decreases s.len(),
{
    if s.len() == 0 {
        s
    } else {
        insert_stop(stable_sort(s.drop_last()), s.last())
    }
}

/// The test that picks the stops at position `p`.
pub open spec fn at_position<V>(p: int) -> spec_fn((Fixed, V)) -> bool {
    |stop: (Fixed, V)| stop.0 == p
}

/// The partition index is an index into the list, or its length.
pub proof fn lemma_partition_index_range<V>(s: Seq<(Fixed, V)>, t: int)
    ensures
        0 <= partition_index(s, t) <= s.len(),
    decreases s.len(),
{
    if s.len() > 0 {
        lemma_partition_index_range(s.drop_last(), t);
    }
}

/// In a sorted list the partition index splits the stops into those before
/// `t` and those at or after it.
pub proof fn lemma_partition_index_splits<V>(s: Seq<(Fixed, V)>, t: int)
    requires
        sorted_by_position(s),
    ensures
        0 <= partition_index(s, t) <= s.len(),
        forall|i: int| 0 <= i < partition_index(s, t) ==> (#[trigger] s[i]).0 < t,
        forall|i: int| partition_index(s, t) <= i < s.len() ==> (#[trigger] s[i]).0 >= t,
    decreases s.len(),
{
    if s.len() > 0 {
        let front = s.drop_last();
        assert forall|i: int, j: int| 0 <= i <= j < front.len() implies (#[trigger] front[i]).0 <= (
        #[trigger] front[j]).0 by {
            assert(front[i] == s[i] && front[j] == s[j]);
        }
        lemma_partition_index_splits(front, t);
        let k = partition_index(front, t);
        assert forall|i: int| 0 <= i < partition_index(s, t) implies (#[trigger] s[i]).0 < t by {
            if i < front.len() {
                assert(s[i] == front[i]);
                if i >= k {
                    assert(front[i].0 >= t);
                    assert(s[i].0 <= s[s.len() - 1].0);
                }
            }
        }
        assert forall|i: int| partition_index(s, t) <= i < s.len() implies (#[trigger] s[i]).0
            >= t by {
            if i < front.len() {
                assert(s[i] == front[i]);
                if s.last().0 < t && k < front.len() {
                    assert(front[k].0 >= t);
                    assert(s[k] == front[k]);
                    assert(s[k].0 <= s[s.len() - 1].0);
                }
            }
        }
    }
}

/// An index that splits the stops into those before `t` and those at or after
/// it is the partition index.
pub proof fn lemma_partition_index_unique<V>(s: Seq<(Fixed, V)>, t: int, k: int)
    requires
        0 <= k <= s.len(),
        forall|i: int| 0 <= i < k ==> (#[trigger] s[i]).0 < t,
        forall|i: int| k <= i < s.len() ==> (#[trigger] s[i]).0 >= t,
    ensures
        partition_index(s, t) == k,
    decreases s.len(),
{
    if s.len() > 0 {
        let front = s.drop_last();
        let last = s[s.len() - 1];
        if k == s.len() {
            assert(last.0 < t);
            assert forall|i: int| 0 <= i < k - 1 implies (#[trigger] front[i]).0 < t by {
                assert(front[i] == s[i]);
            }
            lemma_partition_index_unique(front, t, k - 1);
        } else {
            assert(last.0 >= t);
            assert forall|i: int| 0 <= i < k implies (#[trigger] front[i]).0 < t by {
                assert(front[i] == s[i]);
            }
            assert forall|i: int| k <= i < front.len() implies (#[trigger] front[i]).0 >= t by {
                assert(front[i] == s[i]);
            }
            lemma_partition_index_unique(front, t, k);
        }
    }
}

/// Inserting a stop makes the list one longer and keeps every position at or
/// below a bound that held before and holds for the new stop.
pub proof fn lemma_insert_stop_bounded<V>(s: Seq<(Fixed, V)>, x: (Fixed, V), bound: int)
    requires
        forall|i: int| 0 <= i < s.len() ==> (#[trigger] s[i]).0 <= bound,
        x.0 <= bound,
    ensures
        insert_stop(s, x).len() == s.len() + 1,
        forall|i: int|
            0 <= i < insert_stop(s, x).len() ==> (#[trigger] insert_stop(s, x)[i]).0 <= bound,
    decreases s.len(),
{
    if !(s.len() == 0 || s.last().0 <= x.0) {
        let front = s.drop_last();
        assert forall|i: int| 0 <= i < front.len() implies (#[trigger] front[i]).0 <= bound by {
            assert(front[i] == s[i]);
        }
        lemma_insert_stop_bounded(front, x, bound);
    }
}

/// Inserting a stop into a sorted list gives a sorted list.
pub proof fn lemma_insert_stop_sorted<V>(s: Seq<(Fixed, V)>, x: (Fixed, V))
    requires
        sorted_by_position(s),
    ensures
        sorted_by_position(insert_stop(s, x)),
        insert_stop(s, x).len() == s.len() + 1,
    decreases s.len(),
{
    let r = insert_stop(s, x);
    if s.len() == 0 || s.last().0 <= x.0 {
        assert forall|i: int, j: int| 0 <= i <= j < r.len() implies (#[trigger] r[i]).0 <= (
        #[trigger] r[j]).0 by {
            if i < s.len() {
                assert(r[i] == s[i]);
                assert(s[i].0 <= s[s.len() - 1].0);
            }
            if j < s.len() {
                assert(r[j] == s[j]);
            }
        }
    } else {
        let front = s.drop_last();
        let last = s[s.len() - 1];
        assert forall|i: int, j: int| 0 <= i <= j < front.len() implies (#[trigger] front[i]).0 <= (
        #[trigger] front[j]).0 by {
            assert(front[i] == s[i] && front[j] == s[j]);
        }
        assert forall|i: int| 0 <= i < front.len() implies (#[trigger] front[i]).0 <= last.0 by {
            assert(front[i] == s[i]);
        }
        lemma_insert_stop_sorted(front, x);
        lemma_insert_stop_bounded(front, x, last.0 as int);
        let inner = insert_stop(front, x);
        assert forall|i: int, j: int| 0 <= i <= j < r.len() implies (#[trigger] r[i]).0 <= (
        #[trigger] r[j]).0 by {
            if j < inner.len() {
                assert(r[i] == inner[i] && r[j] == inner[j]);
            } else if i < inner.len() {
                assert(r[i] == inner[i]);
            }
        }
    }
}

/// Where the inserted stop ends up: just in front of the stops that lie after
/// it.
pub proof fn lemma_insert_stop_at<V>(s: Seq<(Fixed, V)>, x: (Fixed, V), k: int)
    requires
        0 <= k <= s.len(),
        forall|i: int| k <= i < s.len() ==> (#[trigger] s[i]).0 > x.0,
        k > 0 ==> s[k - 1].0 <= x.0,
    ensures
        insert_stop(s, x) == s.insert(k, x),
    decreases s.len(),
{
    if s.len() == 0 || s.last().0 <= x.0 {
        if k < s.len() {
            assert(s[s.len() - 1].0 > x.0);
        }
        assert(s.push(x) =~= s.insert(k, x));
    } else {
        let front = s.drop_last();
        if k == s.len() {
            assert(s[k - 1].0 <= x.0);
        }
        assert forall|i: int| k <= i < front.len() implies (#[trigger] front[i]).0 > x.0 by {
            assert(front[i] == s[i]);
        }
        if k > 0 {
            assert(front[k - 1] == s[k - 1]);
        }
        lemma_insert_stop_at(front, x, k);
        assert(front.insert(k, x).push(s.last()) =~= s.insert(k, x));
    }
}

/// Inserting a stop adds that stop to the collection and nothing else.
pub proof fn lemma_insert_stop_multiset<V>(s: Seq<(Fixed, V)>, x: (Fixed, V))
    ensures
        insert_stop(s, x).to_multiset() == s.to_multiset().insert(x),
    decreases s.len(),
{
    if s.len() == 0 || s.last().0 <= x.0 {
        to_multiset_build(s, x);
    } else {
        let front = s.drop_last();
        let last = s.last();
        lemma_insert_stop_multiset(front, x);
        to_multiset_build(insert_stop(front, x), last);
        to_multiset_build(front, last);
        assert(front.push(last) =~= s);
        assert(front.to_multiset().insert(x).insert(last) =~= front.to_multiset().insert(
            last,
        ).insert(x));
    }
}

/// Among the stops at one position, an inserted stop comes last.
pub proof fn lemma_insert_stop_filter<V>(s: Seq<(Fixed, V)>, x: (Fixed, V), p: int)
    ensures
        insert_stop(s, x).filter(at_position::<V>(p)) == if x.0 == p {
            s.filter(at_position::<V>(p)).push(x)
        } else {
            s.filter(at_position::<V>(p))
        },
    decreases s.len(),
{
    let pred = at_position::<V>(p);
    if s.len() == 0 || s.last().0 <= x.0 {
        Seq::lemma_filter_push(s, x, pred);
    } else {
        let front = s.drop_last();
        let last = s.last();
        lemma_insert_stop_filter(front, x, p);
        Seq::lemma_filter_push(insert_stop(front, x), last, pred);
        Seq::lemma_filter_push(front, last, pred);
        assert(front.push(last) =~= s);
    }
}

/// The stable sort gives a sorted list of the same length.
pub proof fn lemma_stable_sort_sorted<V>(s: Seq<(Fixed, V)>)
    ensures
        sorted_by_position(stable_sort(s)),
        stable_sort(s).len() == s.len(),
    decreases s.len(),
{
    if s.len() > 0 {
        lemma_stable_sort_sorted(s.drop_last());
        lemma_insert_stop_sorted(stable_sort(s.drop_last()), s.last());
    }
}

/// The stable sort only rearranges: every stop occurs as often afterwards as
/// before.
pub proof fn lemma_stable_sort_permutes<V>(s: Seq<(Fixed, V)>)
    ensures
        stable_sort(s).to_multiset() == s.to_multiset(),
    decreases s.len(),
{
    if s.len() > 0 {
        let front = s.drop_last();
        lemma_stable_sort_permutes(front);
        lemma_insert_stop_multiset(stable_sort(front), s.last());
        to_multiset_build(front, s.last());
        assert(front.push(s.last()) =~= s);
    }
}

/// The sort is stable: the stops at any one position come out in the order in
/// which they went in.
pub proof fn lemma_stable_sort_keeps_ties<V>(s: Seq<(Fixed, V)>, p: int)
    ensures
        stable_sort(s).filter(at_position::<V>(p)) == s.filter(at_position::<V>(p)),
    decreases s.len(),
{
    if s.len() > 0 {
        let front = s.drop_last();
        lemma_stable_sort_keeps_ties(front, p);
        lemma_insert_stop_filter(stable_sort(front), s.last(), p);
        Seq::lemma_filter_push(front, s.last(), at_position::<V>(p));
        assert(front.push(s.last()) =~= s);
    }
}

/// Sorting a list that is sorted already changes nothing.
pub proof fn lemma_stable_sort_of_sorted<V>(s: Seq<(Fixed, V)>)
    requires
        sorted_by_position(s),
    ensures
        stable_sort(s) == s,
    decreases s.len(),
{
    if s.len() > 0 {
        let front = s.drop_last();
        assert forall|i: int, j: int| 0 <= i <= j < front.len() implies (#[trigger] front[i]).0 <= (
        #[trigger] front[j]).0 by {
            assert(front[i] == s[i] && front[j] == s[j]);
        }
        lemma_stable_sort_of_sorted(front);
        if front.len() > 0 {
            assert(front.last() == s[s.len() - 2]);
            assert(s[s.len() - 2].0 <= s[s.len() - 1].0);
        }
        assert(front.push(s.last()) =~= s);
    }
}

/// A value that every stop of a list carries is carried by every stop of the
/// sorted list.
pub proof fn lemma_stable_sort_keeps_values<V>(s: Seq<(Fixed, V)>, value: V)
    requires
        forall|i: int| 0 <= i < s.len() ==> (#[trigger] s[i]).1 == value,
    ensures
        forall|i: int| 0 <= i < stable_sort(s).len() ==> (#[trigger] stable_sort(s)[i]).1 == value,
{
    let r = stable_sort(s);
    lemma_stable_sort_permutes(s);
    assert forall|i: int| 0 <= i < r.len() implies (#[trigger] r[i]).1 == value by {
        r.to_multiset_ensures();
        s.to_multiset_ensures();
        assert(r.contains(r[i]));
        assert(r.to_multiset().count(r[i]) > 0);
        assert(s.to_multiset().count(r[i]) > 0);
        assert(s.contains(r[i]));
        let j = choose|j: int| 0 <= j < s.len() && s[j] == r[i];
        assert(s[j].1 == value);
    }
}

/// In a sorted list, the stop at the partition index of `p` is the first of
/// the stops at position `p`, if there is any.
pub proof fn lemma_first_at_position<V>(s: Seq<(Fixed, V)>, p: int)
    requires
        sorted_by_position(s),
        s.filter(at_position::<V>(p)).len() > 0,
    ensures
        0 <= partition_index(s, p) < s.len(),
        s[partition_index(s, p)] == s.filter(at_position::<V>(p))[0],
{
    let pred = at_position::<V>(p);
    let k = partition_index(s, p);
    lemma_partition_index_splits(s, p);
    let head = s.take(k);
    let tail = s.skip(k);
    assert(head + tail =~= s);
    Seq::filter_distributes_over_add(head, tail, pred);
    assert forall|i: int| 0 <= i < head.len() implies !pred(#[trigger] head[i]) by {
        assert(head[i] == s[i]);
    }
    head.lemma_all_neg_filter_empty(pred);
    assert(head.filter(pred).len() == 0);
    assert(s.filter(pred) =~= tail.filter(pred));
    if tail.len() == 0 {
        assert(tail.filter(pred).len() == 0) by {
            tail.lemma_filter_len(pred);
        }
    }
    let w = tail.filter(pred)[0];
    tail.lemma_filter_contains_rev(pred, w);
    assert(tail.filter(pred).contains(w));
    assert(tail.contains(w));
    let m = choose|m: int| 0 <= m < tail.len() && tail[m] == w;
    assert(pred(w)) by {
        tail.lemma_filter_pred(pred, 0);
    }
    assert(tail[m] == s[k + m]);
    assert(s[k].0 <= s[k + m].0);
    assert(s[k].0 >= p);
    assert(pred(s[k]));
    assert(tail[0] == s[k]);
    let rest = tail.skip(1);
    assert(seq![tail[0]] + rest =~= tail);
    rest.lemma_filter_prepend(tail[0], pred);
}

/// Whether the positions of `stops` never go down.
pub fn is_sorted<V>(stops: &Vec<(Fixed, V)>) -> (sorted: bool)
    ensures
        sorted == sorted_by_position(stops@),
{
    let n: usize = stops.len();
    if n < 2 {
        return true;
    }
    let mut i: usize = 1;
    while i < n
        invariant
            1 <= i <= n,
            n == stops@.len(),
            forall|a: int| 0 <= a < i - 1 ==> (#[trigger] stops@[a]).0 <= stops@[a + 1].0,
        decreases n - i,
    {
        if stops[i - 1].0 > stops[i].0 {
            assert(!(stops@[i - 1].0 <= stops@[i as int].0));
            return false;
        }
        i = i + 1;
    }
    proof {
        lemma_adjacent_sorted(stops@);
    }
    true
}

/// A list in which no stop lies before its predecessor is sorted.
proof fn lemma_adjacent_sorted<V>(s: Seq<(Fixed, V)>)
    requires
        forall|a: int| 0 <= a < s.len() - 1 ==> (#[trigger] s[a]).0 <= s[a + 1].0,
    ensures
        sorted_by_position(s),
    decreases s.len(),
{
    if s.len() > 1 {
        let front = s.drop_last();
        assert forall|a: int| 0 <= a < front.len() - 1 implies (#[trigger] front[a]).0 <= front[a
            + 1].0 by {
            assert(front[a] == s[a] && front[a + 1] == s[a + 1]);
        }
        lemma_adjacent_sorted(front);
        assert forall|i: int, j: int| 0 <= i <= j < s.len() implies (#[trigger] s[i]).0 <= (
        #[trigger] s[j]).0 by {
            if j < front.len() {
                assert(front[i] == s[i] && front[j] == s[j]);
            } else if i < front.len() {
                assert(front[i] == s[i]);
                assert(front[front.len() - 1] == s[s.len() - 2]);
                assert(front[i].0 <= front[front.len() - 1].0);
                assert(s[s.len() - 2].0 <= s[s.len() - 2 + 1].0);
            }
        }
    }
}

/// Sorts `stops` by position. Stops at one position keep their order.
pub fn sort_stops<V: Copy>(stops: &mut Vec<(Fixed, V)>)
    ensures
        final(stops)@ == stable_sort(old(stops)@),
        sorted_by_position(final(stops)@),
        final(stops)@.len() == old(stops)@.len(),
        final(stops)@.to_multiset() == old(stops)@.to_multiset(),
{
    let n: usize = stops.len();
    let mut sorted: Vec<(Fixed, V)> = Vec::new();
    let mut i: usize = 0;
    while i < n
        invariant
            0 <= i <= n,
            n == stops@.len(),
            stops@ == old(stops)@,
            sorted@ == stable_sort(stops@.take(i as int)),
            sorted@.len() == i,
        decreases n - i,
    {
        let x: (Fixed, V) = stops[i];
        let mut k: usize = sorted.len();
        while k > 0 && sorted[k - 1].0 > x.0
            invariant
                0 <= k <= sorted@.len(),
                forall|j: int| k <= j < sorted@.len() ==> (#[trigger] sorted@[j]).0 > x.0,
            decreases k,
        {
            k = k - 1;
        }
        proof {
            let prefix = stops@.take(i as int + 1);
            assert(prefix.drop_last() =~= stops@.take(i as int));
            assert(prefix.last() == x);
            lemma_insert_stop_at(sorted@, x, k as int);
        }
        sorted.insert(k, x);
        i = i + 1;
    }
    proof {
        assert(stops@.take(n as int) =~= stops@);
        lemma_stable_sort_sorted(stops@);
        lemma_stable_sort_permutes(stops@);
    }
    *stops = sorted;
}

/// Index of the first stop at or after `t`; the number of stops if there is
/// none.
pub fn partition_point<V>(stops: &Vec<(Fixed, V)>, t: Fixed) -> (idx: usize)
    requires
        sorted_by_position(stops@),
    ensures
        idx == partition_index(stops@, t as int),
        idx <= stops@.len(),
        forall|i: int| 0 <= i < idx ==> (#[trigger] stops@[i]).0 < t,
        forall|i: int| idx <= i < stops@.len() ==> (#[trigger] stops@[i]).0 >= t,
{
    let mut lo: usize = 0;
    let mut hi: usize = stops.len();
    while lo < hi
        invariant
            0 <= lo <= hi <= stops@.len(),
            sorted_by_position(stops@),
            forall|i: int| 0 <= i < lo ==> (#[trigger] stops@[i]).0 < t,
            forall|i: int| hi <= i < stops@.len() ==> (#[trigger] stops@[i]).0 >= t,
        decreases hi - lo,
    {
        let mid: usize = lo + (hi - lo) / 2;
        if stops[mid].0 < t {
            assert forall|i: int| 0 <= i < mid + 1 implies (#[trigger] stops@[i]).0 < t by {
                assert(stops@[i].0 <= stops@[mid as int].0);
            }
            lo = mid + 1;
        } else {
            assert forall|i: int| mid <= i < stops@.len() implies (#[trigger] stops@[i]).0 >= t by {
                assert(stops@[mid as int].0 <= stops@[i].0);
            }
            hi = mid;
        }
    }
    proof {
        lemma_partition_index_unique(stops@, t as int, lo as int);
    }
    lo
}

} // verus!
