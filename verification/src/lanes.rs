//! The lane allocator: gives every interval a display row such that no two
//! intervals of one row share a day, using as few rows as possible.
//!
//! Intervals are placed in the order of their start days, equal starts in list
//! order. Each goes to the lowest lane in which no interval placed before it
//! still reaches its start day.

use vstd::prelude::*;
use vstd::relations::injective_on;
use vstd::set_lib::{lemma_int_range, lemma_len_subset, lemma_map_size, set_int_range};
use crate::interval::Interval;

verus! {

/// First day of the interval at position `i`.
pub open spec fn start_at(ivs: Seq<Interval>, i: int) -> int {
    ivs[i].start as int
}

/// Last layout day of the interval at position `i`.
pub open spec fn end_at(ivs: Seq<Interval>, i: int) -> int {
    ivs[i].layout_end()
}

/// The placing order: `j` is placed before `i`.
pub open spec fn precedes(ivs: Seq<Interval>, j: int, i: int) -> bool {
    start_at(ivs, j) < start_at(ivs, i) || (start_at(ivs, j) == start_at(ivs, i) && j < i)
}

/// Two intervals share at least one day; a shared boundary day counts.
pub open spec fn overlaps(ivs: Seq<Interval>, i: int, j: int) -> bool {
    start_at(ivs, i) <= end_at(ivs, j) && start_at(ivs, j) <= end_at(ivs, i)
}

/// Interval `j` was placed before `i`, lies in `lane`, and reaches the start
/// day of `i`.
pub open spec fn blocks(ivs: Seq<Interval>, lanes: Seq<usize>, j: int, i: int, lane: int) -> bool {
    &&& 0 <= j < ivs.len()
    &&& precedes(ivs, j, i)
    &&& lanes[j] as int == lane
    &&& end_at(ivs, j) >= start_at(ivs, i)
}

/// Some interval placed before `i` keeps `lane` occupied at the start of `i`.
pub open spec fn lane_taken(ivs: Seq<Interval>, lanes: Seq<usize>, i: int, lane: int) -> bool {
    exists|j: int| #[trigger] blocks(ivs, lanes, j, i, lane)
}

/// Interval `i` lies in the lowest lane that was free when it was placed.
pub open spec fn placed_ok(ivs: Seq<Interval>, lanes: Seq<usize>, i: int) -> bool {
    &&& !lane_taken(ivs, lanes, i, lanes[i] as int)
    &&& forall|l: int| 0 <= l < lanes[i] ==> #[trigger] lane_taken(ivs, lanes, i, l)
}

/// `lanes` is the layout that the allocator produces for `ivs`.
pub open spec fn is_greedy_layout(ivs: Seq<Interval>, lanes: Seq<usize>) -> bool {
    &&& lanes.len() == ivs.len()
    &&& forall|i: int| 0 <= i < ivs.len() ==> #[trigger] placed_ok(ivs, lanes, i)
}

/// `count` is the number of lanes in use: every lane lies below it, and the
/// one just below it holds an interval.
pub open spec fn is_lane_count(lanes: Seq<usize>, count: int) -> bool {
    &&& count >= 0
    &&& forall|i: int| 0 <= i < lanes.len() ==> (#[trigger] lanes[i]) < count
    &&& count > 0 ==> exists|i: int| 0 <= i < lanes.len() && #[trigger] lanes[i] == count - 1
}

/// The number of `true` entries.
pub open spec fn count_true(s: Seq<bool>) -> nat
    decreases s.len(),
{
    if s.len() == 0 {
        0
    } else {
        count_true(s.drop_last()) + if s.last() {
            1nat
        } else {
            0nat
        }
    }
}

/// The count is at most the length; it is the length exactly where every
/// entry is `true`, and zero where none is.
proof fn lemma_count_bounds(s: Seq<bool>)
    ensures
        count_true(s) <= s.len(),
        count_true(s) == s.len() ==> forall|i: int| 0 <= i < s.len() ==> s[i],
        (forall|i: int| 0 <= i < s.len() ==> !s[i]) ==> count_true(s) == 0,
        (forall|i: int| 0 <= i < s.len() ==> s[i]) ==> count_true(s) == s.len(),
    decreases s.len(),
{
    if s.len() > 0 {
        lemma_count_bounds(s.drop_last());
        assert forall|i: int| 0 <= i < s.len() - 1 implies s[i] == s.drop_last()[i] by {}
    }
}

/// Setting an entry that was `false` raises the count by one.
proof fn lemma_count_set(s: Seq<bool>, m: int)
    requires
        0 <= m < s.len(),
        !s[m],
    ensures
        count_true(s.update(m, true)) == count_true(s) + 1,
    decreases s.len(),
{
    let t = s.update(m, true);
    if m == s.len() - 1 {
        assert(t.drop_last() =~= s.drop_last());
    } else {
        lemma_count_set(s.drop_last(), m);
        assert(t.drop_last() =~= s.drop_last().update(m, true));
    }
}

/// A change of the lane at position `m` changes nothing for an interval that
/// `m` does not precede.
proof fn lemma_placed_stable(ivs: Seq<Interval>, a: Seq<usize>, m: int, lane: usize, i: int)
    requires
        a.len() == ivs.len(),
        0 <= m < ivs.len(),
        0 <= i < ivs.len(),
        i != m,
        !precedes(ivs, m, i),
        placed_ok(ivs, a, i),
    ensures
        placed_ok(ivs, a.update(m, lane), i),
{
    let b = a.update(m, lane);
    assert forall|j: int, l: int| blocks(ivs, a, j, i, l) == #[trigger] blocks(ivs, b, j, i, l) by {}
    assert forall|l: int| 0 <= l < b[i] implies #[trigger] lane_taken(ivs, b, i, l) by {
        assert(lane_taken(ivs, a, i, l));
        let j = choose|j: int| #[trigger] blocks(ivs, a, j, i, l);
        assert(blocks(ivs, b, j, i, l));
    }
    if lane_taken(ivs, b, i, b[i] as int) {
        let j = choose|j: int| #[trigger] blocks(ivs, b, j, i, b[i] as int);
        assert(blocks(ivs, a, j, i, a[i] as int));
    }
}

/// The lanes of a set of intervals, by position in the list, and the number
/// of lanes in use.
#[derive(Debug, Clone)]
pub struct LaneLayout {
    /// The lane of each interval.
    pub lanes: Vec<usize>,
    /// The number of lanes in use.
    pub lane_count: usize,
}

impl LaneLayout {
    /// The layout is the allocator's layout of `ivs`.
    pub open spec fn is_layout_of(self, ivs: Seq<Interval>) -> bool {
        &&& is_greedy_layout(ivs, self.lanes@)
        &&& is_lane_count(self.lanes@, self.lane_count as int)
    }
}

/// The lane of the first interval with identifier `id`, or `None` where the
/// list holds no such interval or the layout does not reach it.
pub open spec fn lane_of_id_spec(ivs: Seq<Interval>, lanes: Seq<usize>, id: u128) -> Option<usize> {
    if exists|i: int| 0 <= i < ivs.len() && i < lanes.len() && ivs[i].id == id {
        let first = choose|i: int|
            0 <= i < ivs.len() && i < lanes.len() && ivs[i].id == id && forall|j: int|
                0 <= j < i ==> ivs[j].id != id;
        Some(lanes[first])
    } else {
        None
    }
}

/// Looks up the lane of an interval by its identifier.
pub fn lane_of_id(intervals: &Vec<Interval>, layout: &LaneLayout, id: u128) -> (r: Option<usize>)
    ensures
        r == lane_of_id_spec(intervals@, layout.lanes@, id),
{
    let mut i: usize = 0;
    while i < intervals.len() && i < layout.lanes.len()
        invariant
            forall|j: int| 0 <= j < i ==> intervals@[j].id != id,
        decreases intervals@.len() - i,
    {
        if intervals[i].id == id {
            proof {
                let ivs = intervals@;
                let lanes = layout.lanes@;
                let first = choose|x: int|
                    0 <= x < ivs.len() && x < lanes.len() && ivs[x].id == id && forall|j: int|
                        0 <= j < x ==> ivs[j].id != id;
                assert(0 <= i < ivs.len() && i < lanes.len() && ivs[i as int].id == id
                    && forall|j: int| 0 <= j < i ==> ivs[j].id != id);
                assert(first == i) by {
                    if first < i {
                        assert(ivs[first].id != id);
                    } else if i < first {
                        assert(ivs[i as int].id != id);
                    }
                }
            }
            return Some(layout.lanes[i]);
        }
        i = i + 1;
    }
    None
}

/// The state of the allocator after some intervals have been placed.
spec fn partial_layout(
    ivs: Seq<Interval>,
    lanes: Seq<usize>,
    done: Seq<bool>,
    ends: Seq<i32>,
) -> bool {
    &&& lanes.len() == ivs.len()
    &&& done.len() == ivs.len()
    &&& forall|j: int, i: int|
        0 <= j < ivs.len() && 0 <= i < ivs.len() && done[j] && !done[i] ==> #[trigger] precedes(
            ivs,
            j,
            i,
        )
    &&& forall|i: int| 0 <= i < ivs.len() && done[i] ==> #[trigger] placed_ok(ivs, lanes, i)
    &&& forall|i: int| 0 <= i < ivs.len() && done[i] ==> (#[trigger] lanes[i]) < ends.len()
    &&& forall|i: int|
        0 <= i < ivs.len() && done[i] ==> end_at(ivs, i) <= ends[(#[trigger] lanes[i]) as int]
    &&& forall|l: int| 0 <= l < ends.len() ==> lane_has_last(ivs, lanes, done, #[trigger] ends[l], l)
}

/// Some placed interval of lane `l` ends on day `end`.
spec fn lane_has_last(ivs: Seq<Interval>, lanes: Seq<usize>, done: Seq<bool>, end: i32, l: int) -> bool {
    exists|j: int| #[trigger] is_last_of(ivs, lanes, done, end, l, j)
}

/// Interval `j` is placed, lies in lane `l` and ends on day `end`.
spec fn is_last_of(
    ivs: Seq<Interval>,
    lanes: Seq<usize>,
    done: Seq<bool>,
    end: i32,
    l: int,
    j: int,
) -> bool {
    0 <= j < ivs.len() && done[j] && lanes[j] == l && end_at(ivs, j) == end
}

/// Placing the first interval not yet placed keeps the allocator's state.
proof fn lemma_place(
    ivs: Seq<Interval>,
    lanes: Seq<usize>,
    done: Seq<bool>,
    ends: Seq<i32>,
    m: int,
    l: int,
)
    requires
        partial_layout(ivs, lanes, done, ends),
        0 <= m < ivs.len(),
        !done[m],
        forall|i: int| 0 <= i < ivs.len() && !done[i] && i != m ==> #[trigger] precedes(ivs, m, i),
        0 <= l <= ends.len(),
        l <= usize::MAX,
        forall|x: int| 0 <= x < l ==> (#[trigger] ends[x]) >= start_at(ivs, m),
        l < ends.len() ==> ends[l] < start_at(ivs, m),
    ensures
        partial_layout(
            ivs,
            lanes.update(m, l as usize),
            done.update(m, true),
            if l < ends.len() {
                ends.update(l, end_at(ivs, m) as i32)
            } else {
                ends.push(end_at(ivs, m) as i32)
            },
        ),
{
    let lanes2 = lanes.update(m, l as usize);
    let done2 = done.update(m, true);
    let e = end_at(ivs, m) as i32;
    let ends2 = if l < ends.len() {
        ends.update(l, e)
    } else {
        ends.push(e)
    };
    assert forall|j: int, i: int|
        0 <= j < ivs.len() && 0 <= i < ivs.len() && done2[j] && !done2[i] implies #[trigger] precedes(
        ivs,
        j,
        i,
    ) by {
        if j != m {
            assert(done[j] && !done[i]);
        }
    }
    assert forall|i: int| 0 <= i < ivs.len() && done2[i] implies #[trigger] placed_ok(
        ivs,
        lanes2,
        i,
    ) by {
        if i != m {
            assert(precedes(ivs, i, m));
            lemma_placed_stable(ivs, lanes, m, l as usize, i);
        } else {
            if lane_taken(ivs, lanes2, m, l) {
                let j = choose|j: int| #[trigger] blocks(ivs, lanes2, j, m, l);
                if !done[j] {
                    assert(precedes(ivs, m, j));
                }
                assert(done[j] && j != m);
                assert(lanes[j] == l);
                assert(lanes[j] < ends.len());
                assert(end_at(ivs, j) <= ends[lanes[j] as int]);
            }
            assert forall|x: int| 0 <= x < l implies #[trigger] lane_taken(ivs, lanes2, m, x) by {
                assert(lane_has_last(ivs, lanes, done, ends[x], x));
                let j = choose|j: int| #[trigger] is_last_of(ivs, lanes, done, ends[x], x, j);
                assert(precedes(ivs, j, m));
                assert(blocks(ivs, lanes2, j, m, x));
            }
        }
    }
    assert forall|i: int| 0 <= i < ivs.len() && done2[i] implies (#[trigger] lanes2[i])
        < ends2.len() by {
        if i != m {
            assert(lanes[i] < ends.len());
        }
    }
    assert forall|i: int| 0 <= i < ivs.len() && done2[i] implies end_at(ivs, i) <= ends2[(
    #[trigger] lanes2[i]) as int] by {
        if i != m {
            assert(lanes[i] < ends.len());
            assert(end_at(ivs, i) <= ends[lanes[i] as int]);
        }
    }
    assert forall|x: int| 0 <= x < ends2.len() implies lane_has_last(
        ivs,
        lanes2,
        done2,
        #[trigger] ends2[x],
        x,
    ) by {
        if x == l {
            assert(is_last_of(ivs, lanes2, done2, ends2[x], x, m));
        } else {
            assert(lane_has_last(ivs, lanes, done, ends[x], x));
            let j = choose|j: int| #[trigger] is_last_of(ivs, lanes, done, ends[x], x, j);
            assert(is_last_of(ivs, lanes2, done2, ends2[x], x, j));
        }
    }
}

/// Assigns a lane to every interval.
///
/// The result is the layout in which each interval, taken in the order of
/// start days (equal starts in list order), lies in the lowest lane that no
/// earlier interval of that lane still occupies on its start day.
pub fn allocate_lanes(intervals: &Vec<Interval>) -> (r: LaneLayout)
    ensures
        r.is_layout_of(intervals@),
{
    let n = intervals.len();
    let mut lanes: Vec<usize> = Vec::new();
    let mut done: Vec<bool> = Vec::new();
    let mut ends: Vec<i32> = Vec::new();
    let mut i: usize = 0;
    while i < n
        invariant
            i <= n,
            lanes.len() == i,
            done.len() == i,
            forall|x: int| 0 <= x < i ==> !done[x],
        decreases n - i,
    {
        lanes.push(0);
        done.push(false);
        i = i + 1;
    }
    proof {
        lemma_count_bounds(done@);
    }
    let ghost ivs = intervals@;
    let mut k: usize = 0;
    while k < n
        invariant
            n == intervals.len(),
            ivs == intervals@,
            k <= n,
            count_true(done@) == k,
            ends.len() <= k,
            partial_layout(ivs, lanes@, done@, ends@),
        decreases n - k,
    {
        // The first interval, in placing order, that has no lane yet.
        let mut m: usize = n;
        let mut s: usize = 0;
        while s < n
            invariant
                n == intervals.len(),
                ivs == intervals@,
                done.len() == n,
                s <= n,
                m <= n,
                m == n ==> forall|x: int| 0 <= x < s ==> done[x],
                m < n ==> !done[m as int] && m < s,
                m < n ==> forall|x: int|
                    0 <= x < s && !done[x] && x != m ==> #[trigger] precedes(ivs, m as int, x),
            decreases n - s,
        {
            if !done[s] && (m == n || intervals[s].start < intervals[m].start) {
                proof {
                    if m < n {
                        assert forall|x: int| 0 <= x < s && !done[x] && x != s implies #[trigger] precedes(
                            ivs,
                            s as int,
                            x,
                        ) by {
                            if x != m {
                                assert(precedes(ivs, m as int, x));
                            }
                        }
                    }
                }
                m = s;
            }
            s = s + 1;
        }
        proof {
            lemma_count_bounds(done@);
        }
        assert(m < n);
        let start = intervals[m].start;
        let end = intervals[m].effective_end();
        // The lowest lane whose last interval ends before this one starts.
        let mut l: usize = 0;
        while l < ends.len() && ends[l] >= start
            invariant
                l <= ends.len(),
                forall|x: int| 0 <= x < l ==> (#[trigger] ends[x]) >= start,
            decreases ends.len() - l,
        {
            l = l + 1;
        }
        proof {
            lemma_place(ivs, lanes@, done@, ends@, m as int, l as int);
            lemma_count_set(done@, m as int);
        }
        if l < ends.len() {
            ends.set(l, end);
        } else {
            ends.push(end);
        }
        lanes.set(m, l);
        done.set(m, true);
        k = k + 1;
    }
    proof {
        lemma_count_bounds(done@);
        assert forall|x: int| 0 <= x < ivs.len() implies #[trigger] placed_ok(ivs, lanes@, x) by {
            assert(done[x]);
        }
        let count = ends.len() as int;
        assert forall|x: int| 0 <= x < lanes.len() implies (#[trigger] lanes[x]) < count by {
            assert(done[x]);
        }
        if count > 0 {
            assert(lane_has_last(ivs, lanes@, done@, ends[count - 1], count - 1));
            let j = choose|j: int| #[trigger]
                is_last_of(ivs, lanes@, done@, ends[count - 1], count - 1, j);
            assert(lanes[j] == count - 1);
        }
    }
    LaneLayout { lanes, lane_count: ends.len() }
}

/// No two intervals of one lane share a day.
pub proof fn lemma_lanes_disjoint(ivs: Seq<Interval>, lanes: Seq<usize>, i: int, j: int)
    requires
        is_greedy_layout(ivs, lanes),
        0 <= i < ivs.len(),
        0 <= j < ivs.len(),
        i != j,
        lanes[i] == lanes[j],
    ensures
        !overlaps(ivs, i, j),
{
    assert(placed_ok(ivs, lanes, i));
    assert(placed_ok(ivs, lanes, j));
    if precedes(ivs, j, i) {
        assert(!blocks(ivs, lanes, j, i, lanes[i] as int));
    } else {
        assert(precedes(ivs, i, j));
        assert(!blocks(ivs, lanes, i, j, lanes[j] as int));
    }
}

/// Two layouts of the same intervals give interval `i` the same lane.
proof fn lemma_same_lane(ivs: Seq<Interval>, a: Seq<usize>, b: Seq<usize>, i: int)
    requires
        is_greedy_layout(ivs, a),
        is_greedy_layout(ivs, b),
        0 <= i < ivs.len(),
    ensures
        a[i] == b[i],
    decreases start_at(ivs, i) - i32::MIN, i,
{
    assert(placed_ok(ivs, a, i));
    assert(placed_ok(ivs, b, i));
    assert forall|j: int| 0 <= j < ivs.len() && precedes(ivs, j, i) implies a[j] == b[j] by {
        lemma_same_lane(ivs, a, b, j);
    }
    if a[i] < b[i] {
        assert(lane_taken(ivs, b, i, a[i] as int));
        let j = choose|j: int| #[trigger] blocks(ivs, b, j, i, a[i] as int);
        assert(blocks(ivs, a, j, i, a[i] as int));
    } else if b[i] < a[i] {
        assert(lane_taken(ivs, a, i, b[i] as int));
        let j = choose|j: int| #[trigger] blocks(ivs, a, j, i, b[i] as int);
        assert(blocks(ivs, b, j, i, b[i] as int));
    }
}

/// The layout of a list of intervals is determined by the list: any two
/// results of the allocator on the same list are equal.
pub proof fn lemma_layout_unique(ivs: Seq<Interval>, a: LaneLayout, b: LaneLayout)
    requires
        a.is_layout_of(ivs),
        b.is_layout_of(ivs),
    ensures
        a.lanes@ == b.lanes@,
        a.lane_count == b.lane_count,
{
    assert forall|i: int| 0 <= i < ivs.len() implies a.lanes@[i] == b.lanes@[i] by {
        lemma_same_lane(ivs, a.lanes@, b.lanes@, i);
    }
    assert(a.lanes@ =~= b.lanes@);
    let ca = a.lane_count as int;
    let cb = b.lane_count as int;
    if ca > 0 {
        let i = choose|i: int| 0 <= i < a.lanes@.len() && #[trigger] a.lanes@[i] == ca - 1;
        assert(b.lanes@[i] < cb);
    }
    if cb > 0 {
        let i = choose|i: int| 0 <= i < b.lanes@.len() && #[trigger] b.lanes@[i] == cb - 1;
        assert(a.lanes@[i] < ca);
    }
}

/// The positions of the intervals whose range contains `day`.
pub open spec fn open_on(ivs: Seq<Interval>, day: int) -> Set<int> {
    Set::new(|i: int| 0 <= i < ivs.len() && ivs[i].covers(day))
}

/// The lane of the interval at a position, as a map on positions.
pub open spec fn lane_of(lanes: Seq<usize>) -> spec_fn(int) -> int {
    |i: int| lanes[i] as int
}

/// The intervals open on one day lie in different lanes, one for each, so
/// that the set of their lanes is as large as the set of the intervals.
proof fn lemma_open_lanes(ivs: Seq<Interval>, layout: LaneLayout, day: int)
    requires
        layout.is_layout_of(ivs),
    ensures
        open_on(ivs, day).finite(),
        open_on(ivs, day).map(lane_of(layout.lanes@)).finite(),
        open_on(ivs, day).map(lane_of(layout.lanes@)).len() == open_on(ivs, day).len(),
        open_on(ivs, day).len() <= layout.lane_count,
{
    let lanes = layout.lanes@;
    let count = layout.lane_count as int;
    let s = open_on(ivs, day);
    let f = lane_of(lanes);
    let all = set_int_range(0, ivs.len() as int);
    lemma_int_range(0, ivs.len() as int);
    assert(s.subset_of(all));
    lemma_len_subset(s, all);
    assert forall|x1: int, x2: int|
        s.contains(x1) && s.contains(x2) && #[trigger] f(x1) == #[trigger] f(x2) implies x1
        == x2 by {
        if x1 != x2 {
            lemma_lanes_disjoint(ivs, lanes, x1, x2);
        }
    }
    assert(injective_on(f, s));
    let img = s.map(f);
    lemma_map_size(s, img, f);
    let range = set_int_range(0, count);
    lemma_int_range(0, count);
    assert forall|l: int| img.contains(l) implies range.contains(l) by {
        let a = choose|a: int| s.contains(a) && l == f(a);
        assert(lanes[a] < count);
    }
    assert(img.subset_of(range));
    lemma_len_subset(img, range);
}

/// On no day are more intervals open than lanes are in use.
pub proof fn lemma_open_within_lanes(ivs: Seq<Interval>, layout: LaneLayout, day: int)
    requires
        layout.is_layout_of(ivs),
    ensures
        open_on(ivs, day).finite(),
        open_on(ivs, day).len() <= layout.lane_count,
{
    lemma_open_lanes(ivs, layout, day);
}

/// Where lanes are in use, there is a day on which as many intervals are
/// open as lanes are in use: the start day of an interval of the highest
/// lane.
pub proof fn lemma_busiest_day(ivs: Seq<Interval>, layout: LaneLayout) -> (day: int)
    requires
        layout.is_layout_of(ivs),
        layout.lane_count > 0,
    ensures
        open_on(ivs, day).finite(),
        open_on(ivs, day).len() == layout.lane_count,
{
    let lanes = layout.lanes@;
    let count = layout.lane_count as int;
    let i = choose|i: int| 0 <= i < lanes.len() && #[trigger] lanes[i] == count - 1;
    let day = start_at(ivs, i);
    let s = open_on(ivs, day);
    let f = lane_of(lanes);
    let img = s.map(f);
    lemma_open_lanes(ivs, layout, day);
    let range = set_int_range(0, count);
    lemma_int_range(0, count);
    assert(placed_ok(ivs, lanes, i));
    assert forall|l: int| range.contains(l) implies img.contains(l) by {
        if l == count - 1 {
            assert(s.contains(i) && l == f(i));
        } else {
            assert(lane_taken(ivs, lanes, i, l));
            let j = choose|j: int| #[trigger] blocks(ivs, lanes, j, i, l);
            assert(s.contains(j) && l == f(j));
        }
    }
    assert(range.subset_of(img));
    lemma_len_subset(range, img);
    day
}

/// The number of lanes is the largest number of intervals that are open on
/// one day: no day has more open intervals than there are lanes, and, unless
/// there is no interval at all, some day has exactly as many.
pub proof fn lemma_lane_count_is_max_open(ivs: Seq<Interval>, layout: LaneLayout)
    requires
        layout.is_layout_of(ivs),
    ensures
        forall|day: int| #[trigger] open_on(ivs, day).len() <= layout.lane_count,
        layout.lane_count > 0 ==> exists|day: int| #[trigger] open_on(ivs, day).len()
            == layout.lane_count,
        layout.lane_count == 0 <==> ivs.len() == 0,
{
    assert forall|day: int| #[trigger] open_on(ivs, day).len() <= layout.lane_count by {
        lemma_open_within_lanes(ivs, layout, day);
    }
    if layout.lane_count > 0 {
        let day = lemma_busiest_day(ivs, layout);
        assert(open_on(ivs, day).len() == layout.lane_count);
    }
    if ivs.len() > 0 {
        assert(layout.lanes@[0] < layout.lane_count);
    }
}

} // verus!
