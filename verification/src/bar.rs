//! The bar display: which parcel leads it (the selected one, else the
//! first to arrive), selecting and clearing that parcel, and the short
//! human label of an estimated delivery time.

use vstd::prelude::*;
use crate::models::{
    days_until_at, display_name_of, info_status_text, parcel_delivered, parcel_state, state_emoji, state_name,
    Config, Parcel, WaybarSelection,
};
use crate::jsonout::parcel_eta;
use crate::storage::{
    identified_index, identify, index_of_tracking, lemma_identified_in_range, selection_expired,
    should_clear_selection, tracking_index,
};
use crate::text::{concat2, concat3, lowercase_of, owned, to_lowercase};
use crate::time::{
    day_of, epoch_day, format_instant, formatted, four_digit_year, local_offset_at, parse_rfc3339,
    rfc3339_instant, rfc3339_of, to_rfc3339, utc_now, UtcTime,
};

verus! {

// ---------------------------------------------------------------------------
// The first parcel to arrive
// ---------------------------------------------------------------------------

/// `a` is expected strictly sooner than `b`: both have an estimate and
/// `a`'s is earlier, or only `a` has one.
pub open spec fn arrives_sooner(a: Parcel, b: Parcel, now: UtcTime) -> bool {
    match days_until_at(a, now) {
        Some(x) => match days_until_at(b, now) {
            Some(y) => x < y,
            None => true,
        },
        None => false,
    }
}

/// The first undelivered parcel among those expected soonest (parcels
/// with an estimate before those without; earlier in the list on ties).
pub open spec fn first_arriving(ps: Seq<Parcel>, now: UtcTime) -> Option<int>
    decreases ps.len(),
{
    if ps.len() == 0 {
        None
    } else {
        let best = first_arriving(ps.drop_last(), now);
        let i = ps.len() - 1;
        if parcel_delivered(ps[i]) {
            best
        } else {
            match best {
                None => Some(i),
                Some(j) => if arrives_sooner(ps[i], ps[j], now) {
                    Some(i)
                } else {
                    best
                },
            }
        }
    }
}

/// Whether `a` is expected strictly sooner than `b`.
fn sooner(a: &Parcel, b: &Parcel, now: UtcTime) -> (r: bool)
    ensures
        r == arrives_sooner(*a, *b, now),
{
    match a.days_until_delivery_at(now) {
        Some(x) => match b.days_until_delivery_at(now) {
            Some(y) => x < y,
            None => true,
        },
        None => false,
    }
}

/// The index of the first undelivered parcel among those expected
/// soonest, counting days from `now`.
pub fn find_first_arriving_at(parcels: &Vec<Parcel>, now: UtcTime) -> (r: Option<usize>)
    ensures
        match r {
            Some(i) => first_arriving(parcels@, now) == Some(i as int) && i < parcels@.len(),
            None => first_arriving(parcels@, now) is None,
        },
{
    let mut best: Option<usize> = None;
    let mut i: usize = 0;
    while i < parcels.len()
        invariant
            i <= parcels.len(),
            match best {
                Some(b) => first_arriving(parcels@.subrange(0, i as int), now) == Some(b as int)
                    && b < i,
                None => first_arriving(parcels@.subrange(0, i as int), now) is None,
            },
        decreases parcels.len() - i,
    {
        let ghost sub = parcels@.subrange(0, i + 1);
        assert(sub.drop_last() =~= parcels@.subrange(0, i as int));
        assert(sub[i as int] == parcels@[i as int]);
        if !parcels[i].is_delivered() {
            match best {
                None => {
                    best = Some(i);
                },
                Some(b) => {
                    assert(sub[b as int] == parcels@[b as int]);
                    if sooner(&parcels[i], &parcels[b], now) {
                        best = Some(i);
                    }
                },
            }
        }
        i = i + 1;
    }
    assert(parcels@.subrange(0, parcels@.len() as int) =~= parcels@);
    best
}

/// The first undelivered parcel among those expected soonest, counting
/// days from today (read from the clock).
pub fn find_first_arriving(parcels: &Vec<Parcel>) -> (r: Option<&Parcel>)
    ensures
        match r {
            Some(p) => exists|now: UtcTime|
                #[trigger] first_arriving(parcels@, now) matches Some(i) && *p == parcels@[i],
            None => exists|now: UtcTime| #[trigger] first_arriving(parcels@, now) is None,
        },
{
    let now = utc_now();
    match find_first_arriving_at(parcels, now) {
        Some(i) => Some(&parcels[i]),
        None => None,
    }
}

// ---------------------------------------------------------------------------
// The parcel that leads the bar
// ---------------------------------------------------------------------------

/// The parcel that leads the bar: the selected one while its selection
/// holds (it exists and has not expired), else the first to arrive.
pub open spec fn bar_index(ps: Seq<Parcel>, config: Config, now: UtcTime) -> Option<int> {
    match config.waybar_selected {
        Some(sel) => if selection_expired(sel, ps, now) {
            first_arriving(ps, now)
        } else {
            match tracking_index(ps, sel.tracking@) {
                Some(i) => Some(i),
                None => first_arriving(ps, now),
            }
        },
        None => first_arriving(ps, now),
    }
}

/// The index of the parcel that leads the bar at `now`.
pub fn resolve_bar_index(parcels: &Vec<Parcel>, config: &Config, now: UtcTime) -> (r: Option<usize>)
    ensures
        match r {
            Some(i) => bar_index(parcels@, *config, now) == Some(i as int) && i < parcels@.len(),
            None => bar_index(parcels@, *config, now) is None,
        },
{
    match &config.waybar_selected {
        Some(sel) => {
            if should_clear_selection(sel, parcels, now) {
                find_first_arriving_at(parcels, now)
            } else {
                match index_of_tracking(parcels, sel.tracking.as_str()) {
                    Some(i) => Some(i),
                    None => find_first_arriving_at(parcels, now),
                }
            }
        },
        None => find_first_arriving_at(parcels, now),
    }
}

/// The parcel that leads the bar now (the clock is read).
pub fn resolve_bar_parcel<'a>(parcels: &'a Vec<Parcel>, config: &Config) -> (r: Option<&'a Parcel>)
    ensures
        match r {
            Some(p) => exists|now: UtcTime|
                #[trigger] bar_index(parcels@, *config, now) matches Some(i) && *p == parcels@[i],
            None => exists|now: UtcTime| #[trigger] bar_index(parcels@, *config, now) is None,
        },
{
    let now = utc_now();
    match resolve_bar_index(parcels, config, now) {
        Some(i) => Some(&parcels[i]),
        None => None,
    }
}

// ---------------------------------------------------------------------------
// The bar entry
// ---------------------------------------------------------------------------

/// What the bar shows: a line of text, a tooltip and a class for styling.
#[derive(Debug)]
pub struct BarEntry {
    pub text: String,
    pub tooltip: String,
    pub class: String,
}

/// A parcel's status summary: its status text, `Not tracked` without
/// tracking information.
pub open spec fn summary_of(p: Parcel) -> Seq<char> {
    match p.tracking_info {
        Some(info) => info_status_text(info),
        None => "Not tracked"@,
    }
}

/// The end of the bar text for a parcel: nothing without an estimate
/// chrono can write, else ` · ` and the estimate's label seen from `now`
/// under some UTC offsets of the machine (in a year of four digits, seen
/// from an instant chrono holds, offsets of less than a day).
pub open spec fn eta_suffix_fits(p: Parcel, now: UtcTime, suffix: Seq<char>) -> bool {
    match parcel_eta(p) {
        None => suffix.len() == 0,
        Some(t) => match rfc3339_of(t.secs, t.nanos) {
            None => suffix.len() == 0,
            Some(s) => {
                &&& exists|o1: Option<i32>, o2: Option<i32>|
                    #![trigger smart_eta(s, now, o1, o2)]
                    suffix == " · "@ + smart_eta(s, now, o1, o2)
                &&& four_digit_year(t) && rfc3339_of(now.secs, now.nanos) is Some ==> exists|o1: i32, o2: i32|
                    -86400 < o1 < 86400 && -86400 < o2 < 86400
                        && suffix == " · "@ + #[trigger] smart_eta(s, now, Some(o1), Some(o2))
            },
        },
    }
}

/// The bar entry of a parcel, given the end of its text.
pub open spec fn entry_of(p: Parcel, suffix: Seq<char>, text: Seq<char>, tooltip: Seq<char>, class: Seq<char>) -> bool {
    &&& text == state_emoji(parcel_state(p)) + " "@ + display_name_of(p) + suffix
    &&& tooltip == summary_of(p)
    &&& class == state_name(parcel_state(p))
}

/// The bar entry at `now`: for the parcel that leads the bar, its state's
/// emoji, its name and its estimate's label as text, its status summary as
/// tooltip and its state's name as class; with no such parcel an empty
/// text, `No parcels` and `unknown`.
pub open spec fn bar_entry_fits(ps: Seq<Parcel>, config: Config, now: UtcTime, e: BarEntry) -> bool {
    match bar_index(ps, config, now) {
        Some(i) => exists|suffix: Seq<char>|
            #[trigger] eta_suffix_fits(ps[i], now, suffix) && entry_of(ps[i], suffix, e.text@, e.tooltip@, e.class@),
        None => e.text@.len() == 0 && e.tooltip@ == "No parcels"@ && e.class@ == "unknown"@,
    }
}

/// The end of the bar text for a parcel, seen from `now`.
fn eta_suffix(p: &Parcel, now: UtcTime) -> (r: String)
    ensures
        eta_suffix_fits(*p, now, r@),
{
    let eta: Option<UtcTime> = match &p.tracking_info {
        Some(info) => info.estimated_delivery_date,
        None => None,
    };
    match eta {
        Some(t) => match to_rfc3339(t) {
            Some(s) => {
                let label = format_eta_smart_at(s.as_str(), now);
                let r = concat2(" · ", label.as_str());
                proof {
                    reveal_strlit(" · ");
                    let (o1, o2) = choose|o1: Option<i32>, o2: Option<i32>|
                        label@ == smart_eta(s@, now, o1, o2);
                    assert(r@ == " · "@ + smart_eta(s@, now, o1, o2));
                    assert(parcel_eta(*p) == Some(t));
                    let sx = rfc3339_of(t.secs, t.nanos)->0;
                    assert(sx == s@);
                    assert(exists|a: Option<i32>, b: Option<i32>| #![trigger smart_eta(sx, now, a, b)] r@ == " · "@ + smart_eta(sx, now, a, b));
                    if four_digit_year(t) && rfc3339_of(now.secs, now.nanos) is Some {
                        let (a, b) = choose|a: i32, b: i32| -86400 < a < 86400 && -86400 < b < 86400
                            && label@ == #[trigger] smart_eta(s@, now, Some(a), Some(b));
                        assert(r@ == " · "@ + smart_eta(sx, now, Some(a), Some(b)));
                    }
                }
                r
            },
            None => String::new(),
        },
        None => String::new(),
    }
}

/// The bar entry at `now` (see `bar_entry_fits`).
pub fn bar_entry_at(parcels: &Vec<Parcel>, config: &Config, now: UtcTime) -> (r: BarEntry)
    ensures
        bar_entry_fits(parcels@, *config, now, r),
{
    match resolve_bar_index(parcels, config, now) {
        Some(i) => {
            let p = &parcels[i];
            let suffix = eta_suffix(p, now);
            let name = p.display_name();
            let mut text = concat3(p.status_emoji(), " ", name.as_str());
            text.append(suffix.as_str());
            let tooltip = p.status_summary();
            let class = owned(p.status_state());
            proof {
                assert(eta_suffix_fits(parcels@[i as int], now, suffix@));
                assert(entry_of(parcels@[i as int], suffix@, text@, tooltip@, class@));
                assert(bar_index(parcels@, *config, now) == Some(i as int));
            }
            let r = BarEntry { text, tooltip, class };
            proof {
                let ghost sfx = suffix@;
                assert(entry_of(parcels@[i as int], sfx, r.text@, r.tooltip@, r.class@));
                assert(eta_suffix_fits(parcels@[i as int], now, sfx) && entry_of(parcels@[i as int], sfx, r.text@, r.tooltip@, r.class@));
                assert(exists|x: Seq<char>| #[trigger] eta_suffix_fits(parcels@[i as int], now, x) && entry_of(parcels@[i as int], x, r.text@, r.tooltip@, r.class@));
                let b = bar_index(parcels@, *config, now);
                assert(b is Some);
                let j = b->0;
                assert(j == i as int);
                assert(exists|x: Seq<char>| #[trigger] eta_suffix_fits(parcels@[j], now, x) && entry_of(parcels@[j], x, r.text@, r.tooltip@, r.class@));
            }
            assert(bar_entry_fits(parcels@, *config, now, r));
            r
        },
        None => {
            let text = String::new();
            let r = BarEntry { text, tooltip: owned("No parcels"), class: owned("unknown") };
            assert(bar_entry_fits(parcels@, *config, now, r));
            r
        },
    }
}

/// The bar entry now (the clock is read).
pub fn bar_entry(parcels: &Vec<Parcel>, config: &Config) -> (r: BarEntry)
    ensures
        exists|now: UtcTime| rfc3339_of(now.secs, now.nanos) is Some && #[trigger] bar_entry_fits(parcels@, *config, now, r),
{
    let now = utc_now();
    bar_entry_at(parcels, config, now)
}

// ---------------------------------------------------------------------------
// Selecting and clearing
// ---------------------------------------------------------------------------

/// The tracking number an identifier selects: the parcel at that position
/// when it reads as a number in range, else the first parcel with that
/// tracking number.
pub open spec fn selected_tracking(ps: Seq<Parcel>, identifier: Seq<char>) -> Option<Seq<char>> {
    match identified_index(ps, identifier) {
        Some(i) => Some(ps[i].tracking_number@),
        None => None,
    }
}

/// The message shown after selecting.
pub open spec fn selection_message(ps: Seq<Parcel>, identifier: Seq<char>) -> Seq<char> {
    match selected_tracking(ps, identifier) {
        Some(t) => match tracking_index(ps, t) {
            Some(i) => "Selected: "@ + display_name_of(ps[i]),
            None => "Parcel not found: "@ + identifier,
        },
        None => "Parcel not found: "@ + identifier,
    }
}

/// Selects the parcel that leads the bar, stamping the selection with
/// `timestamp`; the configuration is unchanged when nothing is found.
pub fn select_parcel_for_bar_at(
    parcels: &Vec<Parcel>,
    identifier: &str,
    config: &mut Config,
    timestamp: String,
) -> (r: String)
    ensures
        r@ == selection_message(parcels@, identifier@),
        final(config).track17_api_key == old(config).track17_api_key,
        match selected_tracking(parcels@, identifier@) {
            Some(t) => final(config).waybar_selected matches Some(sel) && sel.tracking@ == t
                && sel.timestamp@ == timestamp@,
            None => final(config).waybar_selected == old(config).waybar_selected,
        },
{
    proof {
        lemma_identified_in_range(parcels@, identifier@);
    }
    let tracking: Option<String> = match identify(parcels, identifier) {
        Some(i) => Some(parcels[i].tracking_number.clone()),
        None => None,
    };
    match tracking {
        Some(t) => {
            proof {
                lemma_identified_in_range(parcels@, t@);
            }
            let found = index_of_tracking(parcels, t.as_str());
            match found {
                Some(i) => {
                    let name = parcels[i].display_name();
                    config.waybar_selected = Some(WaybarSelection { tracking: t, timestamp });
                    concat2("Selected: ", name.as_str())
                },
                None => {
                    config.waybar_selected = Some(WaybarSelection { tracking: t, timestamp });
                    concat2("Parcel not found: ", identifier)
                },
            }
        },
        None => concat2("Parcel not found: ", identifier),
    }
}

/// Selects the parcel that leads the bar, stamped with the current time
/// in RFC 3339.
pub fn select_parcel_for_bar(parcels: &Vec<Parcel>, identifier: &str, config: &mut Config) -> (r: String)
    ensures
        r@ == selection_message(parcels@, identifier@),
        final(config).track17_api_key == old(config).track17_api_key,
        match selected_tracking(parcels@, identifier@) {
            Some(t) => final(config).waybar_selected matches Some(sel) && sel.tracking@ == t && (
            exists|now: UtcTime| #[trigger] rfc3339_of(now.secs, now.nanos) == Some(sel.timestamp@)),
            None => final(config).waybar_selected == old(config).waybar_selected,
        },
{
    let now = utc_now();
    let stamp = match to_rfc3339(now) {
        Some(s) => s,
        None => String::new(),
    };
    select_parcel_for_bar_at(parcels, identifier, config, stamp)
}

/// Clears the bar selection.
pub fn unselect_parcel(config: &mut Config) -> (r: String)
    ensures
        r@ == "Selection cleared"@,
        final(config).waybar_selected is None,
        final(config).track17_api_key == old(config).track17_api_key,
{
    config.waybar_selected = None;
    owned("Selection cleared")
}


// ---------------------------------------------------------------------------
// Estimated delivery labels
// ---------------------------------------------------------------------------

/// The short name of a weekday, Monday being 0.
pub open spec fn weekday_name(w: int) -> Seq<char> {
    if w == 0 {
        "Mon"@
    } else if w == 1 {
        "Tue"@
    } else if w == 2 {
        "Wed"@
    } else if w == 3 {
        "Thu"@
    } else if w == 4 {
        "Fri"@
    } else if w == 5 {
        "Sat"@
    } else {
        "Sun"@
    }
}

/// The label of a delivery `days_diff` days away: today, tomorrow, the
/// weekday within the week, the month and day within the year, else the
/// full date.
pub open spec fn smart_label(
    days_diff: int,
    weekday: int,
    time_text: Seq<char>,
    month_day: Seq<char>,
    full_date: Seq<char>,
) -> Seq<char> {
    if days_diff == 0 {
        "Today @ "@ + time_text
    } else if days_diff == 1 {
        "Tomorrow @ "@ + time_text
    } else if 2 <= days_diff <= 6 {
        weekday_name(weekday) + " @ "@ + time_text
    } else if 7 <= days_diff <= 365 {
        month_day
    } else {
        full_date
    }
}

/// Chooses the label of a delivery `days_diff` days away from the
/// already-formatted pieces.
pub fn eta_label(days_diff: i64, weekday: i64, time_text: &str, month_day: &str, full_date: &str) -> (r: String)
    ensures
        r@ == smart_label(days_diff as int, weekday as int, time_text@, month_day@, full_date@),
{
    if days_diff == 0 {
        concat2("Today @ ", time_text)
    } else if days_diff == 1 {
        concat2("Tomorrow @ ", time_text)
    } else if 2 <= days_diff && days_diff <= 6 {
        let name = if weekday == 0 {
            "Mon"
        } else if weekday == 1 {
            "Tue"
        } else if weekday == 2 {
            "Wed"
        } else if weekday == 3 {
            "Thu"
        } else if weekday == 4 {
            "Fri"
        } else if weekday == 5 {
            "Sat"
        } else {
            "Sun"
        };
        crate::text::concat3(name, " @ ", time_text)
    } else if 7 <= days_diff && days_diff <= 365 {
        owned(month_day)
    } else {
        owned(full_date)
    }
}

/// The lower-cased chrono formatting of an instant.
pub open spec fn lower_formatted(t: UtcTime, fmt: Seq<char>) -> Option<Seq<char>> {
    match formatted(t.secs, t.nanos, fmt) {
        Some(s) => Some(lowercase_of(s)),
        None => None,
    }
}

/// The label of an RFC 3339 estimate seen from `now`, given the machine's
/// UTC offsets at the estimate and at `now`: the estimate's text itself
/// when it is not RFC 3339 or cannot be placed or formatted.
pub open spec fn smart_eta(
    eta: Seq<char>,
    now: UtcTime,
    eta_offset: Option<i32>,
    now_offset: Option<i32>,
) -> Seq<char> {
    match rfc3339_instant(eta) {
        None => eta,
        Some(t) => match (eta_offset, now_offset) {
            (Some(o1), Some(o2)) => {
                let lt = t.secs + o1;
                let ln = now.secs + o2;
                if i64::MIN <= lt <= i64::MAX && i64::MIN <= ln <= i64::MAX {
                    let local = UtcTime { secs: lt as i64, nanos: t.nanos };
                    match (
                        lower_formatted(local, "%-I:%M%p"@),
                        lower_formatted(local, "%b %d @ %-I:%M%p"@),
                        lower_formatted(local, "%b %d, %Y @ %-I:%M%p"@),
                    ) {
                        (Some(time_text), Some(month_day), Some(full_date)) => smart_label(
                            epoch_day(lt) - epoch_day(ln),
                            (epoch_day(lt) + 3) % 7,
                            time_text,
                            month_day,
                            full_date,
                        ),
                        _ => eta,
                    }
                } else {
                    eta
                }
            },
            _ => eta,
        },
    }
}

/// Formats and lower-cases an instant.
fn lower_format(t: UtcTime, fmt: &str) -> (r: Option<String>)
    requires
        crate::time::known_format(fmt@),
    ensures
        match r {
            Some(s) => lower_formatted(t, fmt@) == Some(s@),
            None => lower_formatted(t, fmt@) is None,
        },
{
    match format_instant(t, fmt) {
        Some(s) => Some(to_lowercase(s.as_str())),
        None => None,
    }
}

/// The weekday (Monday 0) of a day counted from 1970-01-01.
fn weekday_of_day(d: i64) -> (w: i64)
    ensures
        w as int == (d as int + 3) % 7,
        0 <= w < 7,
{
    let m = d % 7;
    let m2 = if m < 0 { m + 7 } else { m };
    assert(m2 as int == (d as int) % 7);
    (m2 + 3) % 7
}

/// The label of an RFC 3339 estimate seen from `now`, in the local time
/// given by the UTC offsets (seconds east) at the estimate and at `now`:
/// "Today @ 3:04pm", "Tomorrow @ …", the weekday within the week,
/// "aug 15 @ 3:04pm" within the year, else with the year. A text that is
/// not RFC 3339, or that cannot be placed, is returned as it is.
pub fn format_eta_smart_in(eta_str: &str, now: UtcTime, eta_offset: Option<i32>, now_offset: Option<i32>) -> (r: String)
    ensures
        r@ == smart_eta(eta_str@, now, eta_offset, now_offset),
{
    let t = match parse_rfc3339(eta_str) {
        Some(t) => t,
        None => {
            assert(smart_eta(eta_str@, now, eta_offset, now_offset) == eta_str@);
            return owned(eta_str);
        },
    };
    let (off1, off2) = match (eta_offset, now_offset) {
        (Some(a), Some(b)) => (a, b),
        _ => {
            assert(smart_eta(eta_str@, now, eta_offset, now_offset) == eta_str@);
            return owned(eta_str);
        },
    };
    let lt = (t.secs as i128) + (off1 as i128);
    let ln = (now.secs as i128) + (off2 as i128);
    if lt < i64::MIN as i128 || lt > i64::MAX as i128 || ln < i64::MIN as i128 || ln > i64::MAX as i128 {
        assert(smart_eta(eta_str@, now, eta_offset, now_offset) == eta_str@);
        return owned(eta_str);
    }
    let local = UtcTime { secs: lt as i64, nanos: t.nanos };
    let time_text = lower_format(local, "%-I:%M%p");
    let month_day = lower_format(local, "%b %d @ %-I:%M%p");
    let full_date = lower_format(local, "%b %d, %Y @ %-I:%M%p");
    match (time_text, month_day, full_date) {
        (Some(a), Some(b), Some(c)) => {
            let dl = day_of(lt as i64);
            let dn = day_of(ln as i64);
            let w = weekday_of_day(dl);
            let r = eta_label(dl - dn, w, a.as_str(), b.as_str(), c.as_str());
            assert(r@ == smart_eta(eta_str@, now, eta_offset, now_offset));
            r
        },
        _ => {
            assert(smart_eta(eta_str@, now, eta_offset, now_offset) == eta_str@);
            owned(eta_str)
        },
    }
}

/// The label of an RFC 3339 estimate seen from `now`, in the machine's
/// local time (its UTC offsets at the estimate and at `now` are read).
pub fn format_eta_smart_at(eta_str: &str, now: UtcTime) -> (r: String)
    ensures
        exists|o1: Option<i32>, o2: Option<i32>| r@ == smart_eta(eta_str@, now, o1, o2),
        match rfc3339_instant(eta_str@) {
            Some(t) => rfc3339_of(t.secs, t.nanos) is Some && rfc3339_of(now.secs, now.nanos) is Some
                ==> exists|o1: i32, o2: i32| -86400 < o1 < 86400 && -86400 < o2 < 86400
                    && r@ == #[trigger] smart_eta(eta_str@, now, Some(o1), Some(o2)),
            None => true,
        },
{
    let eta_offset = match parse_rfc3339(eta_str) {
        Some(t) => local_offset_at(t),
        None => None,
    };
    let now_offset = local_offset_at(now);
    format_eta_smart_in(eta_str, now, eta_offset, now_offset)
}

/// The label of an RFC 3339 estimate seen from today (the clock is read).
pub fn format_eta_smart(eta_str: &str) -> (r: String)
    ensures
        exists|now: UtcTime, o1: Option<i32>, o2: Option<i32>| r@ == smart_eta(eta_str@, now, o1, o2),
        match rfc3339_instant(eta_str@) {
            Some(t) => rfc3339_of(t.secs, t.nanos) is Some ==> exists|now: UtcTime, o1: i32, o2: i32|
                rfc3339_of(now.secs, now.nanos) is Some && -86400 < o1 < 86400 && -86400 < o2 < 86400
                    && r@ == #[trigger] smart_eta(eta_str@, now, Some(o1), Some(o2)),
            None => true,
        },
{
    let now = utc_now();
    format_eta_smart_at(eta_str, now)
}

} // verus!
