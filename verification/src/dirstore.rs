//! A simpler parcel store kept under the user's configuration and cache
//! directories: parcels with a plain status text, and a bar selection
//! stamped with a UNIX time. Reading and writing the files, printing and
//! leaving the program are left to the caller.

use vstd::prelude::*;
use crate::text::{concat3, decimal, owned, parse_usize, parsed_usize, str_eq, u128_decimal};
use crate::time::{day_of, epoch_day, local_offset_at, naive_date_days, parse_naive_date, utc_now, UtcTime};

verus! {

/// A tracked parcel in this store.
#[derive(Clone, Debug)]
pub struct Parcel {
    pub tracking: String,
    pub carrier: String,
    pub description: String,
    pub status: String,
    pub last_checked: u64,
    pub tracking_events: Vec<TrackingEvent>,
    pub estimated_delivery: Option<String>,
}

/// One checkpoint of a parcel in this store.
#[derive(Clone, Debug)]
pub struct TrackingEvent {
    pub timestamp: String,
    pub status: String,
    pub location: String,
    pub description: String,
}

/// The bar selection of this store, stamped with a UNIX time.
#[derive(Clone, Debug)]
pub struct WaybarSelection {
    pub tracking: String,
    pub timestamp: u64,
}

/// The configuration of this store.
#[derive(Clone, Debug)]
pub struct Config {
    pub track17_api_key: Option<String>,
    pub waybar_selected: Option<WaybarSelection>,
}

/// The index of the first parcel with this tracking number.
pub open spec fn first_with(ps: Seq<Parcel>, tracking: Seq<char>) -> Option<int>
    decreases ps.len(),
{
    if ps.len() == 0 {
        None
    } else if ps[0].tracking@ == tracking {
        Some(0)
    } else {
        match first_with(ps.drop_first(), tracking) {
            Some(i) => Some(i + 1),
            None => None,
        }
    }
}

pub proof fn lemma_first_with(ps: Seq<Parcel>, tracking: Seq<char>)
    ensures
        match first_with(ps, tracking) {
            Some(i) => 0 <= i < ps.len() && ps[i].tracking@ == tracking,
            None => forall|k: int| 0 <= k < ps.len() ==> (#[trigger] ps[k]).tracking@ != tracking,
        },
    decreases ps.len(),
{
    if ps.len() > 0 {
        lemma_first_with(ps.drop_first(), tracking);
        if first_with(ps, tracking) is None {
            assert forall|k: int| 0 <= k < ps.len() implies (#[trigger] ps[k]).tracking@ != tracking by {
                if k > 0 {
                    assert(ps[k] == ps.drop_first()[k - 1]);
                }
            }
        }
    }
}

/// The index of the first parcel with this tracking number.
fn find_first(ps: &Vec<Parcel>, tracking: &str) -> (r: Option<usize>)
    ensures
        match r {
            Some(i) => first_with(ps@, tracking@) == Some(i as int) && i < ps@.len(),
            None => first_with(ps@, tracking@) is None,
        },
{
    proof {
        lemma_first_with(ps@, tracking@);
    }
    let mut i: usize = 0;
    assert(ps@.skip(0) =~= ps@);
    while i < ps.len()
        invariant
            i <= ps.len(),
            first_with(ps@, tracking@) == match first_with(ps@.skip(i as int), tracking@) {
                Some(k) => Some(k + i),
                None => None::<int>,
            },
        decreases ps.len() - i,
    {
        assert(ps@.skip(i as int).drop_first() =~= ps@.skip(i + 1));
        assert(ps@.skip(i as int)[0] == ps@[i as int]);
        if str_eq(ps[i].tracking.as_str(), tracking) {
            return Some(i);
        }
        i = i + 1;
    }
    None
}

/// The whole seconds since 1970 of an instant (0 before 1970).
pub open spec fn unix_seconds_of(t: UtcTime) -> u64 {
    if t.secs >= 0 {
        t.secs as u64
    } else {
        0
    }
}

/// The whole seconds since 1970 of an instant (0 before 1970).
pub fn unix_seconds(t: UtcTime) -> (r: u64)
    ensures
        r == unix_seconds_of(t),
{
    if t.secs >= 0 {
        t.secs as u64
    } else {
        0
    }
}

/// The current UNIX time in seconds: the seconds of the instant the clock
/// reads.
pub fn current_timestamp() -> (r: u64)
    ensures
        exists|now: UtcTime| r == unix_seconds_of(now),
{
    let now = utc_now();
    unix_seconds(now)
}

/// Why an identifier names no parcel.
#[derive(Clone, Copy, PartialEq, Eq, Debug, Structural)]
pub enum LookupError {
    /// A position outside 1..=count: the position and the count
    /// ("Position {pos} out of range (1-{count})").
    OutOfRange(usize, usize),
    /// No parcel has that tracking number ("Parcel {identifier} not found").
    NotFound,
}

/// The index of the parcel an identifier names: a number is a position
/// counted from 1 (an error when out of range); anything else is a
/// tracking number, naming the first parcel that has it.
pub open spec fn store_index(ps: Seq<Parcel>, identifier: Seq<char>) -> Result<int, LookupError> {
    match parsed_usize(identifier) {
        Some(pos) => if 0 < pos <= ps.len() {
            Ok(pos - 1)
        } else {
            Err(LookupError::OutOfRange(pos, ps.len() as usize))
        },
        None => match first_with(ps, identifier) {
            Some(i) => Ok(i),
            None => Err(LookupError::NotFound),
        },
    }
}

/// The parcels left after removing every parcel with this tracking number.
pub open spec fn without_tracking(ps: Seq<Parcel>, tracking: Seq<char>) -> Seq<Parcel>
    decreases ps.len(),
{
    if ps.len() == 0 {
        ps
    } else if ps.last().tracking@ == tracking {
        without_tracking(ps.drop_last(), tracking)
    } else {
        without_tracking(ps.drop_last(), tracking).push(ps.last())
    }
}

pub proof fn lemma_without_tracking_len(ps: Seq<Parcel>, tracking: Seq<char>)
    ensures
        without_tracking(ps, tracking).len() <= ps.len(),
        without_tracking(ps, tracking).len() == ps.len() ==> without_tracking(ps, tracking) == ps,
    decreases ps.len(),
{
    if ps.len() > 0 {
        lemma_without_tracking_len(ps.drop_last(), tracking);
        if without_tracking(ps, tracking).len() == ps.len() {
            assert(ps.last().tracking@ != tracking);
            assert(ps.drop_last().push(ps.last()) =~= ps);
        }
    }
}

/// What removing by an identifier came to.
#[derive(Debug)]
pub enum Removal {
    /// The parcel at a position was removed.
    AtPosition(Parcel),
    /// Every parcel with the tracking number was removed.
    ByTracking,
}

/// A renamed parcel: its tracking number and the description it had.
#[derive(Debug)]
pub struct Renaming {
    pub tracking: String,
    pub previous: String,
}

/// The contents of the store: its parcels and its configuration, as read
/// from and written back to its files by the caller.
pub struct App {
    pub parcels: Vec<Parcel>,
    pub config: Config,
}

impl App {
    /// Adds a parcel with the status `Info Received`, checked at `now`,
    /// unless one with the same tracking number is already tracked.
    pub fn add_parcel_at(&mut self, tracking: &str, carrier: &str, description: &str, now: u64) -> (added: bool)
        ensures
            added == first_with(old(self).parcels@, tracking@) is None,
            final(self).config == old(self).config,
            !added ==> final(self).parcels@ == old(self).parcels@,
            added ==> {
                &&& final(self).parcels@.len() == old(self).parcels@.len() + 1
                &&& final(self).parcels@.drop_last() == old(self).parcels@
                &&& final(self).parcels@.last().tracking@ == tracking@
                &&& final(self).parcels@.last().carrier@ == carrier@
                &&& final(self).parcels@.last().description@ == description@
                &&& final(self).parcels@.last().status@ == "Info Received"@
                &&& final(self).parcels@.last().last_checked == now
                &&& final(self).parcels@.last().tracking_events@.len() == 0
                &&& final(self).parcels@.last().estimated_delivery is None
            },
    {
        if find_first(&self.parcels, tracking).is_some() {
            return false;
        }
        let ghost before = self.parcels@;
        self.parcels.push(Parcel {
            tracking: owned(tracking),
            carrier: owned(carrier),
            description: owned(description),
            status: owned("Info Received"),
            last_checked: now,
            tracking_events: Vec::new(),
            estimated_delivery: None,
        });
        assert(self.parcels@.drop_last() =~= before);
        true
    }

    /// Adds a parcel as `add_parcel_at` does, checked at the current time.
    pub fn add_parcel(&mut self, tracking: &str, carrier: &str, description: &str) -> (added: bool)
        ensures
            added == first_with(old(self).parcels@, tracking@) is None,
            final(self).config == old(self).config,
            !added ==> final(self).parcels@ == old(self).parcels@,
            added ==> {
                &&& final(self).parcels@.len() == old(self).parcels@.len() + 1
                &&& final(self).parcels@.drop_last() == old(self).parcels@
                &&& final(self).parcels@.last().tracking@ == tracking@
                &&& final(self).parcels@.last().carrier@ == carrier@
                &&& final(self).parcels@.last().description@ == description@
                &&& final(self).parcels@.last().status@ == "Info Received"@
                &&& final(self).parcels@.last().tracking_events@.len() == 0
                &&& final(self).parcels@.last().estimated_delivery is None
            },
    {
        let now = current_timestamp();
        self.add_parcel_at(tracking, carrier, description, now)
    }

    /// Removes by position when the identifier reads as a number (an error
    /// when out of range), else every parcel with that tracking number (an
    /// error when there is none).
    pub fn remove_parcel(&mut self, identifier: &str) -> (r: Result<Removal, LookupError>)
        ensures
            final(self).config == old(self).config,
            match parsed_usize(identifier@) {
                Some(pos) => if 0 < pos <= old(self).parcels@.len() {
                    &&& r matches Ok(Removal::AtPosition(p)) && p == old(self).parcels@[pos - 1]
                    &&& final(self).parcels@ == old(self).parcels@.remove(pos - 1)
                } else {
                    &&& r == Err::<Removal, LookupError>(LookupError::OutOfRange(pos, old(self).parcels@.len() as usize))
                    &&& final(self).parcels@ == old(self).parcels@
                },
                None => if first_with(old(self).parcels@, identifier@) is None {
                    &&& r == Err::<Removal, LookupError>(LookupError::NotFound)
                    &&& final(self).parcels@ == old(self).parcels@
                } else {
                    &&& r matches Ok(Removal::ByTracking)
                    &&& final(self).parcels@ == without_tracking(old(self).parcels@, identifier@)
                },
            },
    {
        if let Some(pos) = parse_usize(identifier) {
            if pos == 0 || pos > self.parcels.len() {
                return Err(LookupError::OutOfRange(pos, self.parcels.len()));
            }
            return Ok(Removal::AtPosition(self.parcels.remove(pos - 1)));
        }
        if find_first(&self.parcels, identifier).is_none() {
            return Err(LookupError::NotFound);
        }
        let ghost before = self.parcels@;
        let mut taken: Vec<Parcel> = Vec::new();
        std::mem::swap(&mut taken, &mut self.parcels);
        let mut kept: Vec<Parcel> = Vec::new();
        let n = taken.len();
        let mut i: usize = 0;
        assert(before.subrange(0, 0) =~= Seq::<Parcel>::empty());
        assert(before.subrange(0, n as int) =~= before);
        while i < n
            invariant
                n == before.len(),
                i <= n,
                taken@ == before.subrange(i as int, n as int),
                kept@ == without_tracking(before.subrange(0, i as int), identifier@),
            decreases n - i,
        {
            let p = taken.remove(0);
            assert(p == before[i as int]);
            assert(before.subrange(0, i + 1).drop_last() =~= before.subrange(0, i as int));
            assert(before.subrange(0, i + 1).last() == before[i as int]);
            assert(taken@ =~= before.subrange(i + 1, n as int));
            if !str_eq(p.tracking.as_str(), identifier) {
                kept.push(p);
            }
            i = i + 1;
        }
        self.parcels = kept;
        Ok(Removal::ByTracking)
    }

    /// Replaces the description of the parcel an identifier names, and
    /// gives back its tracking number and former description.
    pub fn rename_parcel(&mut self, identifier: &str, new_description: &str) -> (r: Result<Renaming, LookupError>)
        ensures
            final(self).config == old(self).config,
            match store_index(old(self).parcels@, identifier@) {
                Ok(i) => {
                    &&& 0 <= i < old(self).parcels@.len()
                    &&& r matches Ok(rn) && rn.tracking@ == old(self).parcels@[i].tracking@
                        && rn.previous@ == old(self).parcels@[i].description@
                    &&& final(self).parcels@.len() == old(self).parcels@.len()
                    &&& final(self).parcels@[i].description@ == new_description@
                    &&& final(self).parcels@[i].tracking == old(self).parcels@[i].tracking
                    &&& final(self).parcels@[i].carrier == old(self).parcels@[i].carrier
                    &&& final(self).parcels@[i].status == old(self).parcels@[i].status
                    &&& final(self).parcels@[i].last_checked == old(self).parcels@[i].last_checked
                    &&& final(self).parcels@[i].tracking_events == old(self).parcels@[i].tracking_events
                    &&& final(self).parcels@[i].estimated_delivery == old(self).parcels@[i].estimated_delivery
                    &&& forall|k: int| 0 <= k < old(self).parcels@.len() && k != i
                        ==> #[trigger] final(self).parcels@[k] == old(self).parcels@[k]
                },
                Err(e) => r == Err::<Renaming, LookupError>(e) && final(self).parcels@ == old(self).parcels@,
            },
    {
        let i = match self.index_of(identifier) {
            Ok(i) => i,
            Err(e) => return Err(e),
        };
        let mut p = self.parcels.remove(i);
        let previous = p.description;
        p.description = owned(new_description);
        let tracking = owned(p.tracking.as_str());
        self.parcels.insert(i, p);
        Ok(Renaming { tracking, previous })
    }

    /// The index of the parcel an identifier names.
    fn index_of(&self, identifier: &str) -> (r: Result<usize, LookupError>)
        ensures
            match r {
                Ok(i) => store_index(self.parcels@, identifier@) == Ok::<int, LookupError>(i as int)
                    && i < self.parcels@.len(),
                Err(e) => store_index(self.parcels@, identifier@) == Err::<int, LookupError>(e),
            },
    {
        if let Some(pos) = parse_usize(identifier) {
            if pos == 0 || pos > self.parcels.len() {
                return Err(LookupError::OutOfRange(pos, self.parcels.len()));
            }
            return Ok(pos - 1);
        }
        match find_first(&self.parcels, identifier) {
            Some(i) => Ok(i),
            None => Err(LookupError::NotFound),
        }
    }

    /// Selects the parcel an identifier names for the bar, stamped with
    /// `now`, and gives back its tracking number.
    pub fn select_waybar_at(&mut self, identifier: &str, now: u64) -> (r: Result<String, LookupError>)
        ensures
            final(self).parcels == old(self).parcels,
            final(self).config.track17_api_key == old(self).config.track17_api_key,
            match store_index(old(self).parcels@, identifier@) {
                Ok(i) => {
                    &&& 0 <= i < old(self).parcels@.len()
                    &&& r matches Ok(t) && t@ == old(self).parcels@[i].tracking@
                    &&& final(self).config.waybar_selected matches Some(sel)
                        && sel.tracking@ == old(self).parcels@[i].tracking@ && sel.timestamp == now
                },
                Err(e) => r == Err::<String, LookupError>(e) && final(self).config == old(self).config,
            },
    {
        let i = match self.index_of(identifier) {
            Ok(i) => i,
            Err(e) => return Err(e),
        };
        let tracking = owned(self.parcels[i].tracking.as_str());
        self.config.waybar_selected = Some(WaybarSelection {
            tracking: owned(tracking.as_str()),
            timestamp: now,
        });
        Ok(tracking)
    }

    /// Selects a parcel for the bar as `select_waybar_at` does, stamped
    /// with the current time.
    pub fn select_waybar(&mut self, identifier: &str) -> (r: Result<String, LookupError>)
        ensures
            final(self).parcels == old(self).parcels,
            final(self).config.track17_api_key == old(self).config.track17_api_key,
            match store_index(old(self).parcels@, identifier@) {
                Ok(i) => {
                    &&& 0 <= i < old(self).parcels@.len()
                    &&& r matches Ok(t) && t@ == old(self).parcels@[i].tracking@
                    &&& final(self).config.waybar_selected matches Some(sel)
                        && sel.tracking@ == old(self).parcels@[i].tracking@
                },
                Err(e) => r == Err::<String, LookupError>(e) && final(self).config == old(self).config,
            },
    {
        let now = current_timestamp();
        self.select_waybar_at(identifier, now)
    }

    /// Clears the bar selection.
    pub fn unselect_waybar(&mut self)
        ensures
            final(self).parcels == old(self).parcels,
            final(self).config.track17_api_key == old(self).config.track17_api_key,
            final(self).config.waybar_selected is None,
    {
        self.config.waybar_selected = None;
    }

    /// Stores the 17track API key.
    pub fn set_api_key(&mut self, key: &str)
        ensures
            final(self).parcels == old(self).parcels,
            final(self).config.waybar_selected == old(self).config.waybar_selected,
            final(self).config.track17_api_key matches Some(k) && k@ == key@,
    {
        self.config.track17_api_key = Some(owned(key));
    }
}

/// The note shown after a parcel's delivery date: nothing without a date;
/// the date itself in brackets when it is not a `%Y-%m-%d` date; else how
/// many days from `today` (days counted from 1970-01-01) it is.
pub open spec fn delivery_note(estimated: Option<Seq<char>>, today: int) -> Seq<char> {
    match estimated {
        None => Seq::empty(),
        Some(s) => match naive_date_days(s, "%Y-%m-%d"@) {
            Some(d) => {
                let n = d - today;
                if n < 0 {
                    " (delivered)"@
                } else if n == 0 {
                    " (today)"@
                } else if n == 1 {
                    " (1 day)"@
                } else {
                    " ("@ + decimal(n as nat) + " days)"@
                }
            },
            None => " ("@ + s + ")"@,
        },
    }
}

/// The view of an optional text.
pub open spec fn opt_text(o: Option<String>) -> Option<Seq<char>> {
    match o {
        Some(s) => Some(s@),
        None => None,
    }
}

/// The note after a delivery date, counted from `today` (days from 1970-01-01).
pub fn delivery_note_on(estimated: &Option<String>, today: i64) -> (r: String)
    ensures
        r@ == delivery_note(opt_text(*estimated), today as int),
{
    proof {
        reveal_strlit("%Y-%m-%d");
        reveal_strlit(" (delivered)");
        reveal_strlit(" (today)");
        reveal_strlit(" (1 day)");
        reveal_strlit(" (");
        reveal_strlit(" days)");
        reveal_strlit(")");
    }
    match estimated {
        None => String::new(),
        Some(s) => match parse_naive_date(s.as_str(), "%Y-%m-%d") {
            Some(d) => {
                let n: i128 = d as i128 - today as i128;
                if n < 0 {
                    owned(" (delivered)")
                } else if n == 0 {
                    owned(" (today)")
                } else if n == 1 {
                    owned(" (1 day)")
                } else {
                    let digits = u128_decimal(n as u128);
                    concat3(" (", digits.as_str(), " days)")
                }
            },
            None => concat3(" (", s.as_str(), ")"),
        },
    }
}

/// The note after a delivery date, counted from today in the machine's
/// time zone.
pub fn format_delivery_date(estimated: &Option<String>) -> (r: String)
    ensures
        exists|today: int| r@ == delivery_note(opt_text(*estimated), today),
{
    let now = utc_now();
    let local_secs = match local_offset_at(now) {
        Some(offset) => match now.secs.checked_add(offset as i64) {
            Some(s) => s,
            None => now.secs,
        },
        None => now.secs,
    };
    let today = day_of(local_secs);
    delivery_note_on(estimated, today)
}

} // verus!
