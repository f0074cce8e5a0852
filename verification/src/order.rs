//! Newest-first ordering of dated items: a stable sort by date, latest
//! first, as an insertion order on positions.

use vstd::prelude::*;
use crate::models::{event_view, event_views, TrackingEvent};
use crate::time::{before, is_before, UtcTime};

verus! {

/// The first position in `keys` holding a date strictly earlier than `x`,
/// or the length of `keys` when there is none.
pub open spec fn first_earlier(keys: Seq<UtcTime>, x: UtcTime) -> int
    decreases keys.len(),
{
    if keys.len() == 0 {
        0
    } else if before(keys[0], x) {
        0
    } else {
        1 + first_earlier(keys.drop_first(), x)
    }
}

/// The dates at the positions of `order`.
pub open spec fn keys_of(order: Seq<int>, dates: Seq<UtcTime>) -> Seq<UtcTime> {
    order.map_values(|k: int| dates[k])
}

/// The positions of `dates`, newest first; items with the same date keep
/// their order. Each item goes in before the first item placed so far
/// that is strictly earlier.
pub open spec fn newest_first(dates: Seq<UtcTime>) -> Seq<int>
    decreases dates.len(),
{
    if dates.len() == 0 {
        seq![]
    } else {
        let o = newest_first(dates.drop_last());
        o.insert(first_earlier(keys_of(o, dates), dates.last()), dates.len() - 1)
    }
}

/// `order` is a rearrangement of the positions `0..n`.
pub open spec fn is_permutation(order: Seq<int>, n: int) -> bool {
    &&& order.len() == n
    &&& forall|i: int| 0 <= i < n ==> 0 <= #[trigger] order[i] < n
    &&& forall|i: int, j: int| 0 <= i < j < n ==> order[i] != order[j]
}

/// Along `order`, no date is strictly earlier than a later one.
pub open spec fn is_newest_first(order: Seq<int>, dates: Seq<UtcTime>) -> bool {
    forall|i: int, j: int|
        0 <= i < j < order.len() ==> !before(#[trigger] dates[order[i]], #[trigger] dates[order[j]])
}

/// Along `order`, items with the same date keep the order they came in.
pub open spec fn is_stable(order: Seq<int>, dates: Seq<UtcTime>) -> bool {
    forall|i: int, j: int|
        0 <= i < j < order.len() && dates[order[i]] == dates[order[j]] ==> order[i] < order[j]
}

proof fn lemma_first_earlier_bounds(keys: Seq<UtcTime>, x: UtcTime)
    ensures
        0 <= first_earlier(keys, x) <= keys.len(),
        forall|k: int| 0 <= k < first_earlier(keys, x) ==> !before(#[trigger] keys[k], x),
        first_earlier(keys, x) < keys.len() ==> before(keys[first_earlier(keys, x)], x),
    decreases keys.len(),
{
    if keys.len() > 0 && !before(keys[0], x) {
        lemma_first_earlier_bounds(keys.drop_first(), x);
        assert forall|k: int| 0 <= k < first_earlier(keys, x) implies !before(#[trigger] keys[k], x) by {
            if k > 0 {
                assert(keys[k] == keys.drop_first()[k - 1]);
            }
        }
    }
}

proof fn lemma_before_facts()
    ensures
        forall|a: UtcTime, b: UtcTime| #[trigger] before(a, b) ==> !before(b, a),
        forall|a: UtcTime, b: UtcTime, c: UtcTime|
            #[trigger] before(a, b) && #[trigger] before(b, c) ==> before(a, c),
        forall|a: UtcTime, b: UtcTime|
            !before(a, b) && !before(b, a) ==> #[trigger] (a.secs) == #[trigger] (b.secs) && a.nanos == b.nanos,
{
}

/// The newest-first order is a rearrangement of the positions, is newest
/// first, and keeps items of equal date in the order they came in.
pub proof fn lemma_newest_first(dates: Seq<UtcTime>)
    ensures
        is_permutation(newest_first(dates), dates.len() as int),
        is_newest_first(newest_first(dates), dates),
        is_stable(newest_first(dates), dates),
    decreases dates.len(),
{
    if dates.len() > 0 {
        let d0 = dates.drop_last();
        let o = newest_first(d0);
        let n = dates.len() - 1;
        lemma_newest_first(d0);
        let keys = keys_of(o, dates);
        let x = dates.last();
        let p = first_earlier(keys, x);
        lemma_first_earlier_bounds(keys, x);
        lemma_before_facts();
        let r = o.insert(p, n);
        assert(r == newest_first(dates));
        assert forall|i: int| 0 <= i < o.len() implies dates[#[trigger] o[i]] == d0[o[i]] by {}
        assert forall|i: int| 0 <= i < dates.len() implies 0 <= #[trigger] r[i] < dates.len() by {
            if i < p {
                assert(r[i] == o[i]);
            } else if i > p {
                assert(r[i] == o[i - 1]);
            }
        }
        assert forall|i: int, j: int| 0 <= i < j < dates.len() implies r[i] != r[j] by {
            if i < p && j < p {
                assert(r[i] == o[i] && r[j] == o[j]);
            } else if i < p && j == p {
                assert(r[i] == o[i]);
            } else if i < p && j > p {
                assert(r[i] == o[i] && r[j] == o[j - 1]);
            } else if i == p {
                assert(r[j] == o[j - 1]);
            } else {
                assert(r[i] == o[i - 1] && r[j] == o[j - 1]);
            }
        }
        assert forall|i: int, j: int| 0 <= i < j < r.len() implies !before(
            #[trigger] dates[r[i]],
            #[trigger] dates[r[j]],
        ) by {
            if i < p && j < p {
                assert(r[i] == o[i] && r[j] == o[j]);
                assert(!before(d0[o[i]], d0[o[j]]));
            } else if i < p && j == p {
                assert(r[i] == o[i]);
                assert(keys[i] == dates[o[i]]);
            } else if i < p && j > p {
                assert(r[i] == o[i] && r[j] == o[j - 1]);
                assert(!before(d0[o[i]], d0[o[j - 1]]));
            } else if i == p {
                assert(r[j] == o[j - 1]);
                assert(keys[p] == dates[o[p]]);
                if j - 1 > p {
                    assert(!before(d0[o[p]], d0[o[j - 1]]));
                }
                if before(x, dates[o[j - 1]]) {
                    assert(before(dates[o[p]], x));
                    assert(before(dates[o[p]], dates[o[j - 1]]));
                }
            } else {
                assert(r[i] == o[i - 1] && r[j] == o[j - 1]);
                assert(!before(d0[o[i - 1]], d0[o[j - 1]]));
            }
        }
        assert forall|i: int, j: int|
            0 <= i < j < r.len() && dates[r[i]] == dates[r[j]] implies r[i] < r[j] by {
            if i < p && j < p {
                assert(r[i] == o[i] && r[j] == o[j]);
                assert(d0[o[i]] == d0[o[j]]);
            } else if i < p && j == p {
                assert(r[i] == o[i]);
            } else if i < p && j > p {
                assert(r[i] == o[i] && r[j] == o[j - 1]);
                assert(d0[o[i]] == d0[o[j - 1]]);
            } else if i == p {
                assert(r[j] == o[j - 1]);
                assert(keys[p] == dates[o[p]]);
                assert(before(dates[o[p]], x));
                if j - 1 > p {
                    assert(!before(d0[o[p]], d0[o[j - 1]]));
                }
                assert(false);
            } else {
                assert(r[i] == o[i - 1] && r[j] == o[j - 1]);
                assert(d0[o[i - 1]] == d0[o[j - 1]]);
            }
        }
    }
}

/// The first position, in the order built so far, whose date is
/// strictly earlier than `x`.
fn find_insert_position(order: &Vec<usize>, dates: &Vec<UtcTime>, x: UtcTime) -> (p: usize)
    requires
        forall|k: int| 0 <= k < order@.len() ==> (#[trigger] order@[k] as int) < dates@.len(),
    ensures
        p as int == first_earlier(keys_of(order@.map_values(|k: usize| k as int), dates@), x),
{
    let ghost o = order@.map_values(|k: usize| k as int);
    let ghost keys = keys_of(o, dates@);
    let mut p: usize = 0;
    assert(keys.skip(0) =~= keys);
    while p < order.len()
        invariant
            p <= order@.len(),
            o == order@.map_values(|k: usize| k as int),
            keys == keys_of(o, dates@),
            forall|k: int| 0 <= k < order@.len() ==> (#[trigger] order@[k] as int) < dates@.len(),
            first_earlier(keys, x) == p + first_earlier(keys.skip(p as int), x),
        decreases order.len() - p,
    {
        assert(keys.skip(p as int).drop_first() =~= keys.skip(p + 1));
        assert(keys.skip(p as int)[0] == dates@[order@[p as int] as int]);
        if is_before(dates[order[p]], x) {
            return p;
        }
        p = p + 1;
    }
    p
}

/// The positions of `dates`, newest first, equal dates keeping their order.
pub fn newest_first_order(dates: &Vec<UtcTime>) -> (r: Vec<usize>)
    ensures
        r@.map_values(|k: usize| k as int) == newest_first(dates@),
{
    let mut order: Vec<usize> = Vec::new();
    let mut i: usize = 0;
    while i < dates.len()
        invariant
            i <= dates@.len(),
            order@.map_values(|k: usize| k as int) == newest_first(dates@.subrange(0, i as int)),
        decreases dates.len() - i,
    {
        let ghost sub = dates@.subrange(0, i as int);
        let ghost sub1 = dates@.subrange(0, i + 1);
        proof {
            lemma_newest_first(sub);
            assert(sub1.drop_last() =~= sub);
        }
        let ghost o = order@.map_values(|k: usize| k as int);
        assert forall|k: int| 0 <= k < order@.len() implies (#[trigger] order@[k] as int) < dates@.len() by {
            assert(o[k] == order@[k] as int);
        }
        let p = find_insert_position(&order, dates, dates[i]);
        proof {
            lemma_first_earlier_bounds(keys_of(o, dates@), dates@[i as int]);
            assert(keys_of(o, dates@) =~= keys_of(o, sub1)) by {
                assert forall|k: int| 0 <= k < o.len() implies keys_of(o, dates@)[k] == keys_of(o, sub1)[k] by {
                    assert(0 <= o[k] < i);
                }
            }
        }
        order.insert(p, i);
        i = i + 1;
        assert(order@.map_values(|k: usize| k as int) =~= o.insert(p as int, (i - 1) as int));
    }
    assert(dates@.subrange(0, dates@.len() as int) =~= dates@);
    order
}

/// An event as mathematical values: date, description, location.
pub type EventTriple = (UtcTime, Seq<char>, Seq<char>);

/// Events newest first; events with the same date keep their order.
pub open spec fn sorted_events(evs: Seq<EventTriple>) -> Seq<EventTriple> {
    newest_first(evs.map_values(|e: EventTriple| e.0)).map_values(|k: int| evs[k])
}

/// The events newest first, equal dates keeping their order.
pub fn sort_newest_first(events: &Vec<TrackingEvent>) -> (r: Vec<TrackingEvent>)
    ensures
        event_views(r@) == sorted_events(event_views(events@)),
{
    let ghost evs = event_views(events@);
    let mut dates: Vec<UtcTime> = Vec::new();
    let mut i: usize = 0;
    while i < events.len()
        invariant
            i <= events.len(),
            evs == event_views(events@),
            dates@ =~= evs.map_values(|e: EventTriple| e.0).subrange(0, i as int),
        decreases events.len() - i,
    {
        dates.push(events[i].date);
        i = i + 1;
    }
    assert(dates@ =~= evs.map_values(|e: EventTriple| e.0));
    let order = newest_first_order(&dates);
    let ghost o = order@.map_values(|k: usize| k as int);
    proof {
        lemma_newest_first(dates@);
    }
    let mut r: Vec<TrackingEvent> = Vec::new();
    let mut j: usize = 0;
    while j < order.len()
        invariant
            j <= order@.len(),
            o == order@.map_values(|k: usize| k as int),
            o == newest_first(dates@),
            order@.len() == events@.len(),
            dates@.len() == events@.len(),
            forall|k: int| 0 <= k < o.len() ==> 0 <= #[trigger] o[k] < events@.len(),
            evs == event_views(events@),
            event_views(r@) =~= o.map_values(|k: int| evs[k]).subrange(0, j as int),
        decreases order.len() - j,
    {
        assert(o[j as int] == order@[j as int] as int);
        let e = events[order[j]].duplicate();
        assert(event_view(e) == evs[o[j as int]]);
        let ghost target = o.map_values(|k: int| evs[k]);
        let ghost before_push = r@;
        assert(target[j as int] == evs[o[j as int]]);
        r.push(e);
        assert(r@ =~= before_push.push(e));
        assert(event_views(r@) =~= event_views(before_push).push(event_view(e)));
        assert(target.subrange(0, j + 1) =~= target.subrange(0, j as int).push(target[j as int]));
        j = j + 1;
    }
    assert(o.map_values(|k: int| evs[k]).subrange(0, j as int) =~= o.map_values(|k: int| evs[k]));
    r
}

} // verus!
