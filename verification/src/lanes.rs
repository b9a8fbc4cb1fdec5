//! Lane lists: truncating, merging and aligning the lanes of carried vectors.
use vstd::prelude::*;
use crate::capabilities::{min_usize, spec_min};

verus! {

/// The first `count` entries, or all where there are fewer.
pub open spec fn prefix<T>(values: Seq<T>, count: usize) -> Seq<T> {
    if count <= values.len() {
        values.take(count as int)
    } else {
        values
    }
}

/// The first `count` entries, or all where there are fewer.
pub(crate) fn take_prefix<T: Copy>(values: &[T], count: usize) -> (r: Vec<T>)
    ensures
        r@ == prefix(values@, count),
{
    let limit: usize = if count <= values.len() {
        count
    } else {
        values.len()
    };
    let mut out: Vec<T> = Vec::with_capacity(limit);
    let mut index: usize = 0;
    while index < limit
        invariant
            index <= limit <= values@.len(),
            out@ == values@.take(index as int),
        decreases limit - index,
    {
        out.push(values[index]);
        index += 1;
        assert(out@ =~= values@.take(index as int));
    }
    assert(values@.take(values@.len() as int) =~= values@);
    out
}

/// The numbers from zero up to, and without, `count`.
pub open spec fn first_lanes(count: usize) -> Seq<usize> {
    Seq::new(count as nat, |i: int| i as usize)
}

/// The numbers from zero up to, and without, `count`.
pub(crate) fn count_lanes(count: usize) -> (r: Vec<usize>)
    ensures
        r@ == first_lanes(count),
{
    let mut out: Vec<usize> = Vec::new();
    let mut index: usize = 0;
    while index < count
        invariant
            index <= count,
            out@ == first_lanes(index),
        decreases count - index,
    {
        out.push(index);
        index += 1;
        assert(out@ =~= first_lanes(index));
    }
    out
}

/// Whether each entry is larger than those before it.
pub open spec fn ascending(lanes: Seq<usize>) -> bool {
    forall|i: int, j: int| 0 <= i < j < lanes.len() ==> lanes[i] < lanes[j]
}

/// The ascending list `lanes` with `lane` in its place, once.
pub open spec fn insert_lane(lanes: Seq<usize>, lane: usize) -> Seq<usize>
    decreases lanes.len(),
{
    if lanes.len() == 0 || lanes.last() < lane {
        lanes.push(lane)
    } else if lanes.last() == lane {
        lanes
    } else {
        insert_lane(lanes.drop_last(), lane).push(lanes.last())
    }
}

/// The ascending list `lanes` with each of `more` in its place, once.
pub open spec fn insert_lanes(lanes: Seq<usize>, more: Seq<usize>) -> Seq<usize>
    decreases more.len(),
{
    if more.len() == 0 {
        lanes
    } else {
        insert_lane(insert_lanes(lanes, more.drop_last()), more.last())
    }
}

/// Inserting a lane keeps the list ascending and adds exactly that lane.
pub proof fn lemma_insert_lane(lanes: Seq<usize>, lane: usize)
    requires
        ascending(lanes),
    ensures
        ascending(insert_lane(lanes, lane)),
        forall|x: usize| #[trigger]
            insert_lane(lanes, lane).contains(x) <==> lanes.contains(x) || x == lane,
    decreases lanes.len(),
{
    let out = insert_lane(lanes, lane);
    if lanes.len() == 0 || lanes.last() < lane {
        assert forall|x: usize| #[trigger] out.contains(x) <==> lanes.contains(x) || x == lane by {
            if lanes.contains(x) {
                let i = choose|i: int| 0 <= i < lanes.len() && lanes[i] == x;
                assert(out[i] == x);
            }
            assert(out[lanes.len() as int] == lane);
        }
        assert forall|i: int, j: int| 0 <= i < j < out.len() implies out[i] < out[j] by {
            if j == lanes.len() {
                assert(lanes[i] <= lanes.last());
            }
        }
    } else if lanes.last() == lane {
        assert(lanes.contains(lane));
    } else {
        let rest = lanes.drop_last();
        lemma_insert_lane(rest, lane);
        let inner = insert_lane(rest, lane);
        assert(out == inner.push(lanes.last()));
        assert forall|x: usize| #[trigger] out.contains(x) <==> lanes.contains(x) || x == lane by {
            if out.contains(x) {
                let i = choose|i: int| 0 <= i < out.len() && out[i] == x;
                if i < inner.len() {
                    assert(inner[i] == x);
                    assert(inner.contains(x));
                    if rest.contains(x) {
                        let j = choose|j: int| 0 <= j < rest.len() && rest[j] == x;
                        assert(lanes[j] == x);
                    }
                } else {
                    assert(lanes[lanes.len() - 1] == x);
                }
            }
            if lanes.contains(x) {
                let i = choose|i: int| 0 <= i < lanes.len() && lanes[i] == x;
                if i < rest.len() {
                    assert(rest[i] == x);
                    assert(inner.contains(x));
                    let j = choose|j: int| 0 <= j < inner.len() && inner[j] == x;
                    assert(out[j] == x);
                } else {
                    assert(out[inner.len() as int] == x);
                }
            }
            if x == lane {
                assert(inner.contains(x));
                let j = choose|j: int| 0 <= j < inner.len() && inner[j] == x;
                assert(out[j] == x);
            }
        }
        assert forall|i: int, j: int| 0 <= i < j < out.len() implies out[i] < out[j] by {
            if j == inner.len() {
                assert(inner.contains(inner[i]));
                if rest.contains(inner[i]) {
                    let m = choose|m: int| 0 <= m < rest.len() && rest[m] == inner[i];
                    assert(lanes[m] < lanes[lanes.len() - 1]);
                }
            }
        }
    }
}

/// Inserting lanes keeps the list ascending and adds exactly those lanes.
pub proof fn lemma_insert_lanes(lanes: Seq<usize>, more: Seq<usize>)
    requires
        ascending(lanes),
    ensures
        ascending(insert_lanes(lanes, more)),
        forall|x: usize| #[trigger]
            insert_lanes(lanes, more).contains(x) <==> lanes.contains(x) || more.contains(x),
    decreases more.len(),
{
    if more.len() > 0 {
        let rest = more.drop_last();
        lemma_insert_lanes(lanes, rest);
        lemma_insert_lane(insert_lanes(lanes, rest), more.last());
        assert forall|x: usize| #[trigger]
            insert_lanes(lanes, more).contains(x) <==> lanes.contains(x) || more.contains(x) by {
            if more.contains(x) {
                let i = choose|i: int| 0 <= i < more.len() && more[i] == x;
                if i < rest.len() {
                    assert(rest[i] == x);
                }
            }
            if rest.contains(x) {
                let i = choose|i: int| 0 <= i < rest.len() && rest[i] == x;
                assert(more[i] == x);
            }
            if x == more.last() {
                assert(more[more.len() - 1] == x);
            }
        }
    }
}

/// Where the entries from `at` on are larger than `lane` and those before it smaller, the lane
/// goes in at `at`.
proof fn lemma_insert_position(lanes: Seq<usize>, lane: usize, at: int)
    requires
        ascending(lanes),
        0 <= at <= lanes.len(),
        at > 0 ==> lanes[at - 1] < lane,
        forall|i: int| at <= i < lanes.len() ==> lane < #[trigger] lanes[i],
    ensures
        insert_lane(lanes, lane) == lanes.insert(at, lane),
    decreases lanes.len(),
{
    if at == lanes.len() {
        assert(lanes.insert(at, lane) =~= lanes.push(lane));
    } else {
        lemma_insert_position(lanes.drop_last(), lane, at);
        assert(lanes.insert(at, lane) =~= lanes.drop_last().insert(at, lane).push(lanes.last()));
    }
}

/// Where `lane` stands at `at`, inserting it changes nothing.
proof fn lemma_insert_present(lanes: Seq<usize>, lane: usize, at: int)
    requires
        ascending(lanes),
        0 <= at < lanes.len(),
        lanes[at] == lane,
    ensures
        insert_lane(lanes, lane) == lanes,
    decreases lanes.len(),
{
    if at < lanes.len() - 1 {
        lemma_insert_present(lanes.drop_last(), lane, at);
        assert(lanes.drop_last().push(lanes.last()) =~= lanes);
    }
}

/// Puts `lane` in its place in an ascending list.
pub(crate) fn put_lane(lanes: &mut Vec<usize>, lane: usize)
    requires
        ascending(old(lanes)@),
    ensures
        final(lanes)@ == insert_lane(old(lanes)@, lane),
        ascending(final(lanes)@),
{
    proof {
        lemma_insert_lane(lanes@, lane);
    }
    let mut at: usize = lanes.len();
    while at > 0 && lanes[at - 1] > lane
        invariant
            lanes@ == old(lanes)@,
            at <= lanes@.len(),
            forall|i: int| at <= i < lanes@.len() ==> lane < #[trigger] lanes@[i],
        decreases at,
    {
        at -= 1;
    }
    if at > 0 && lanes[at - 1] == lane {
        proof {
            lemma_insert_present(lanes@, lane, at - 1);
        }
    } else {
        proof {
            lemma_insert_position(lanes@, lane, at as int);
        }
        lanes.insert(at, lane);
    }
}

/// Puts each of `more` in its place in an ascending list.
pub(crate) fn put_lanes(lanes: &mut Vec<usize>, more: &[usize])
    requires
        ascending(old(lanes)@),
    ensures
        final(lanes)@ == insert_lanes(old(lanes)@, more@),
        ascending(final(lanes)@),
{
    let mut index: usize = 0;
    assert(more@.take(0) =~= Seq::empty());
    while index < more.len()
        invariant
            index <= more@.len(),
            ascending(lanes@),
            lanes@ == insert_lanes(old(lanes)@, more@.take(index as int)),
        decreases more.len() - index,
    {
        proof {
            assert(more@.take(index + 1).drop_last() =~= more@.take(index as int));
            assert(more@.take(index + 1).last() == more@[index as int]);
        }
        put_lane(lanes, more[index]);
        index += 1;
    }
    assert(more@.take(index as int) =~= more@);
}

/// The last place of `lane` in `lanes`.
pub open spec fn last_place(lanes: Seq<usize>, lane: usize) -> Option<int>
    decreases lanes.len(),
{
    if lanes.len() == 0 {
        None
    } else if lanes.last() == lane {
        Some(lanes.len() - 1)
    } else {
        last_place(lanes.drop_last(), lane)
    }
}

/// The last place, if there is one, is a place of `lane`, and none comes after it.
pub proof fn lemma_last_place(lanes: Seq<usize>, lane: usize)
    ensures
        match last_place(lanes, lane) {
            Some(at) => 0 <= at < lanes.len() && lanes[at] == lane && forall|i: int|
                at < i < lanes.len() ==> lanes[i] != lane,
            None => !lanes.contains(lane),
        },
    decreases lanes.len(),
{
    if lanes.len() > 0 && lanes.last() != lane {
        lemma_last_place(lanes.drop_last(), lane);
        if let Some(at) = last_place(lanes, lane) {
            assert forall|i: int| at < i < lanes.len() implies lanes[i] != lane by {
                if i < lanes.len() - 1 {
                    assert(lanes.drop_last()[i] == lanes[i]);
                }
            }
        }
        if last_place(lanes, lane) is None && lanes.contains(lane) {
            let i = choose|i: int| 0 <= i < lanes.len() && lanes[i] == lane;
            assert(lanes.drop_last()[i] == lane);
        }
    }
}

/// The value carried for `lane`: that of its last place in `lanes`, else zero.
pub open spec fn lane_value(lanes: Seq<usize>, values: Seq<u32>, lane: usize) -> u32 {
    match last_place(lanes, lane) {
        Some(at) if at < values.len() => values[at],
        _ => 0,
    }
}

/// The values carried for each of `targets`.
pub open spec fn aligned(targets: Seq<usize>, lanes: Seq<usize>, values: Seq<u32>) -> Seq<u32> {
    Seq::new(targets.len(), |i: int| lane_value(lanes, values, targets[i]))
}

/// The value carried for `lane`.
fn value_of_lane(lanes: &[usize], values: &[u32], lane: usize) -> (r: u32)
    ensures
        r == lane_value(lanes@, values@, lane),
{
    let mut at: usize = lanes.len();
    assert(lanes@.take(at as int) =~= lanes@);
    while at > 0
        invariant
            at <= lanes@.len(),
            lane_value(lanes@, values@, lane) == lane_value(
                lanes@.take(at as int),
                values@,
                lane,
            ),
        decreases at,
    {
        at -= 1;
        proof {
            assert(lanes@.take(at + 1).last() == lanes@[at as int]);
            assert(lanes@.take(at + 1).drop_last() =~= lanes@.take(at as int));
        }
        if lanes[at] == lane {
            return if at < values.len() {
                values[at]
            } else {
                0
            };
        }
    }
    0
}

/// The values carried for each of `targets`.
pub(crate) fn align(targets: &[usize], lanes: &[usize], values: &[u32]) -> (r: Vec<u32>)
    ensures
        r@ == aligned(targets@, lanes@, values@),
{
    let mut out: Vec<u32> = Vec::new();
    let mut index: usize = 0;
    while index < targets.len()
        invariant
            index <= targets@.len(),
            out@ == aligned(targets@.take(index as int), lanes@, values@),
        decreases targets.len() - index,
    {
        out.push(value_of_lane(lanes, values, targets[index]));
        index += 1;
        assert(out@ =~= aligned(targets@.take(index as int), lanes@, values@));
    }
    assert(targets@.take(index as int) =~= targets@);
    out
}

/// `count` zeros.
pub open spec fn zeros(count: nat) -> Seq<u32> {
    Seq::new(count, |i: int| 0u32)
}

/// `count` zeros.
pub(crate) fn zero_values(count: usize) -> (r: Vec<u32>)
    ensures
        r@ == zeros(count as nat),
{
    let mut out: Vec<u32> = Vec::new();
    let mut index: usize = 0;
    while index < count
        invariant
            index <= count,
            out@ == zeros(index as nat),
        decreases count - index,
    {
        out.push(0);
        index += 1;
        assert(out@ =~= zeros(index as nat));
    }
    out
}

/// Whether some lane is `width` or more.
pub open spec fn exceeds(lanes: Seq<usize>, width: usize) -> bool {
    exists|i: int| 0 <= i < lanes.len() && #[trigger] lanes[i] >= width
}

/// Whether some lane is `width` or more.
pub(crate) fn any_exceeds(lanes: &[usize], width: usize) -> (r: bool)
    ensures
        r == exceeds(lanes@, width),
{
    let mut index: usize = 0;
    while index < lanes.len()
        invariant
            index <= lanes@.len(),
            forall|i: int| 0 <= i < index ==> #[trigger] lanes@[i] < width,
        decreases lanes.len() - index,
    {
        if lanes[index] >= width {
            return true;
        }
        index += 1;
    }
    false
}

} // verus!
