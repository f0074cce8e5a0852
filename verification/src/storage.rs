//! Finding, removing and renaming parcels in the saved list, by position
//! (counted from 1) or by tracking number. Reading and writing the files
//! is left to the caller.

use vstd::prelude::*;
use crate::models::{parcel_delivered, Parcel, WaybarSelection};
use crate::text::{parse_usize, parsed_usize, str_eq, owned};
use crate::time::{before, parse_rfc3339, rfc3339_instant, UtcTime};

verus! {

/// The position (counted from 1) that an identifier names, as an index,
/// when it reads as a number in range.
pub open spec fn position_index(len: int, identifier: Seq<char>) -> Option<int> {
    match parsed_usize(identifier) {
        Some(pos) => if 0 < pos && pos <= len {
            Some(pos - 1)
        } else {
            None
        },
        None => None,
    }
}

/// The index of the first parcel with this tracking number.
pub open spec fn tracking_index(ps: Seq<Parcel>, tracking: Seq<char>) -> Option<int>
    decreases ps.len(),
{
    if ps.len() == 0 {
        None
    } else if ps[0].tracking_number@ == tracking {
        Some(0)
    } else {
        match tracking_index(ps.drop_first(), tracking) {
            Some(i) => Some(i + 1),
            None => None,
        }
    }
}

/// The parcel an identifier names: a position in range first, else the
/// first parcel with that tracking number.
pub open spec fn identified_index(ps: Seq<Parcel>, identifier: Seq<char>) -> Option<int> {
    match position_index(ps.len() as int, identifier) {
        Some(i) => Some(i),
        None => tracking_index(ps, identifier),
    }
}

pub proof fn lemma_tracking_index(ps: Seq<Parcel>, tracking: Seq<char>)
    ensures
        match tracking_index(ps, tracking) {
            Some(i) => 0 <= i < ps.len() && ps[i].tracking_number@ == tracking && forall|k: int|
                0 <= k < i ==> (#[trigger] ps[k]).tracking_number@ != tracking,
            None => forall|k: int| 0 <= k < ps.len() ==> (#[trigger] ps[k]).tracking_number@ != tracking,
        },
    decreases ps.len(),
{
    if ps.len() > 0 {
        lemma_tracking_index(ps.drop_first(), tracking);
        assert forall|k: int| 1 <= k < ps.len() implies (#[trigger] ps[k]) == ps.drop_first()[k - 1] by {}
    }
}

/// The index an identifier names lies within the list.
pub proof fn lemma_identified_in_range(ps: Seq<Parcel>, identifier: Seq<char>)
    ensures
        identified_index(ps, identifier) matches Some(i) ==> 0 <= i < ps.len(),
        tracking_index(ps, identifier) matches Some(i) ==> 0 <= i < ps.len(),
{
    lemma_tracking_index(ps, identifier);
}

/// The index of the first parcel with this tracking number.
pub fn index_of_tracking(parcels: &Vec<Parcel>, tracking: &str) -> (r: Option<usize>)
    ensures
        match r {
            Some(i) => tracking_index(parcels@, tracking@) == Some(i as int) && i < parcels@.len(),
            None => tracking_index(parcels@, tracking@) is None,
        },
{
    proof {
        lemma_tracking_index(parcels@, tracking@);
    }
    let mut i: usize = 0;
    while i < parcels.len()
        invariant
            i <= parcels.len(),
            forall|k: int| 0 <= k < i ==> (#[trigger] parcels@[k]).tracking_number@ != tracking@,
            match tracking_index(parcels@, tracking@) {
                Some(j) => 0 <= j < parcels@.len() && parcels@[j].tracking_number@ == tracking@
                    && forall|k: int| 0 <= k < j ==> (#[trigger] parcels@[k]).tracking_number@ != tracking@,
                None => forall|k: int| 0 <= k < parcels@.len() ==> (#[trigger] parcels@[k]).tracking_number@ != tracking@,
            },
        decreases parcels.len() - i,
    {
        if str_eq(parcels[i].tracking_number.as_str(), tracking) {
            return Some(i);
        }
        i = i + 1;
    }
    None
}

/// The index that an identifier names by position, when it reads as a
/// number in range.
pub fn index_of_position(len: usize, identifier: &str) -> (r: Option<usize>)
    ensures
        match r {
            Some(i) => position_index(len as int, identifier@) == Some(i as int),
            None => position_index(len as int, identifier@) is None,
        },
{
    match parse_usize(identifier) {
        Some(pos) => if pos > 0 && pos <= len {
            Some(pos - 1)
        } else {
            None
        },
        None => None,
    }
}

/// The index of the parcel an identifier names: a position in range
/// first, else the first parcel with that tracking number.
pub fn identify(parcels: &Vec<Parcel>, identifier: &str) -> (r: Option<usize>)
    ensures
        match r {
            Some(i) => identified_index(parcels@, identifier@) == Some(i as int) && i < parcels@.len(),
            None => identified_index(parcels@, identifier@) is None,
        },
{
    match index_of_position(parcels.len(), identifier) {
        Some(i) => Some(i),
        None => index_of_tracking(parcels, identifier),
    }
}

/// The parcel at a position counted from 1; none for position 0 or past the end.
pub fn find_parcel_by_position(parcels: &Vec<Parcel>, position: usize) -> (r: Option<&Parcel>)
    ensures
        match r {
            Some(p) => 0 < position <= parcels@.len() && *p == parcels@[position - 1],
            None => position == 0 || position > parcels@.len(),
        },
{
    if position == 0 {
        None
    } else if position <= parcels.len() {
        Some(&parcels[position - 1])
    } else {
        None
    }
}

/// The first parcel with this tracking number.
pub fn find_parcel_by_tracking<'a>(parcels: &'a Vec<Parcel>, tracking: &str) -> (r: Option<&'a Parcel>)
    ensures
        match r {
            Some(p) => tracking_index(parcels@, tracking@) matches Some(i) && *p == parcels@[i],
            None => tracking_index(parcels@, tracking@) is None,
        },
{
    match index_of_tracking(parcels, tracking) {
        Some(i) => Some(&parcels[i]),
        None => None,
    }
}

/// Removes the parcel an identifier names (a position in range first,
/// else the first parcel with that tracking number) and returns it; the
/// list is unchanged when nothing matches.
pub fn remove_parcel(parcels: &mut Vec<Parcel>, identifier: &str) -> (r: Option<Parcel>)
    ensures
        identified_index(old(parcels)@, identifier@) matches Some(i) ==> 0 <= i < old(parcels)@.len(),
        match identified_index(old(parcels)@, identifier@) {
            Some(i) => r == Some(old(parcels)@[i]) && final(parcels)@ == old(parcels)@.remove(i),
            None => r is None && final(parcels)@ == old(parcels)@,
        },
{
    proof {
        lemma_identified_in_range(parcels@, identifier@);
    }
    match identify(parcels, identifier) {
        Some(i) => Some(parcels.remove(i)),
        None => None,
    }
}

/// Renames the parcel an identifier names (a position in range first,
/// else the first parcel with that tracking number). Only its description
/// changes; nothing changes when nothing matches.
pub fn rename_parcel(parcels: &mut Vec<Parcel>, identifier: &str, new_description: &str) -> (r: bool)
    ensures
        final(parcels)@.len() == old(parcels)@.len(),
        identified_index(old(parcels)@, identifier@) matches Some(i) ==> 0 <= i < old(parcels)@.len(),
        match identified_index(old(parcels)@, identifier@) {
            Some(i) => {
                &&& r
                &&& final(parcels)@[i].description@ == new_description@
                &&& final(parcels)@[i].id == old(parcels)@[i].id
                &&& final(parcels)@[i].tracking_number == old(parcels)@[i].tracking_number
                &&& final(parcels)@[i].carrier == old(parcels)@[i].carrier
                &&& final(parcels)@[i].tracking_info == old(parcels)@[i].tracking_info
                &&& final(parcels)@[i].last_updated == old(parcels)@[i].last_updated
                &&& forall|k: int| 0 <= k < old(parcels)@.len() && k != i ==> #[trigger] final(parcels)@[k] == old(parcels)@[k]
            },
            None => !r && final(parcels)@ == old(parcels)@,
        },
{
    proof {
        lemma_identified_in_range(parcels@, identifier@);
    }
    match identify(parcels, identifier) {
        Some(i) => {
            let mut p = parcels.remove(i);
            p.description = owned(new_description);
            parcels.insert(i, p);
            true
        },
        None => false,
    }
}

/// The id of the parcel an identifier names (a position in range first,
/// else the first parcel with that tracking number).
pub fn find_parcel_for_selection(parcels: &Vec<Parcel>, identifier: &str) -> (r: Option<String>)
    ensures
        identified_index(parcels@, identifier@) matches Some(i) ==> 0 <= i < parcels@.len(),
        match identified_index(parcels@, identifier@) {
            Some(i) => r matches Some(id) && id@ == parcels@[i].id@,
            None => r is None,
        },
{
    proof {
        lemma_identified_in_range(parcels@, identifier@);
    }
    match identify(parcels, identifier) {
        Some(i) => Some(parcels[i].id.clone()),
        None => None,
    }
}

/// When a parcel was seen delivered, for the bar.
pub struct BarCacheEntry {
    pub parcel_id: String,
    pub delivered_at: Option<UtcTime>,
    pub cached_at: UtcTime,
}

/// The nanoseconds from `a` to `b`.
pub open spec fn elapsed_nanos(a: UtcTime, b: UtcTime) -> int {
    (b.secs - a.secs) * 1_000_000_000 + (b.nanos - a.nanos)
}

/// A bar selection is cleared once the selected parcel reads as delivered
/// and more than two hours have passed since the selection was made.
pub open spec fn selection_expired(selection: WaybarSelection, ps: Seq<Parcel>, now: UtcTime) -> bool {
    match tracking_index(ps, selection.tracking@) {
        Some(i) => parcel_delivered(ps[i]) && match rfc3339_instant(selection.timestamp@) {
            Some(t) => elapsed_nanos(t, now) > 7200 * 1_000_000_000,
            None => false,
        },
        None => false,
    }
}

/// Whether the bar selection should be cleared: the selected parcel is
/// delivered and was selected more than two hours before `now`.
pub fn should_clear_selection(selection: &WaybarSelection, parcels: &Vec<Parcel>, now: UtcTime) -> (r: bool)
    ensures
        r == selection_expired(*selection, parcels@, now),
{
    proof {
        lemma_identified_in_range(parcels@, selection.tracking@);
    }
    match index_of_tracking(parcels, selection.tracking.as_str()) {
        Some(i) => {
            if !parcels[i].is_delivered() {
                return false;
            }
            match parse_rfc3339(selection.timestamp.as_str()) {
                Some(t) => {
                    let secs: i128 = (now.secs as i128) - (t.secs as i128);
                    let nanos: i128 = (now.nanos as i128) - (t.nanos as i128);
                    assert(secs * 1_000_000_000 == (now.secs - t.secs) * 1_000_000_000) by (nonlinear_arith)
                        requires secs == now.secs - t.secs;
                    secs * 1_000_000_000 + nanos > 7200 * 1_000_000_000
                },
                None => false,
            }
        },
        None => false,
    }
}

} // verus!
