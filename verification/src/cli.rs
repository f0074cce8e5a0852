//! The decisions behind the command-line commands: adding a parcel, the
//! rows of the list, recording an update, cycling the bar selection and
//! choosing the parcel whose tracking page to open. Reading and writing
//! files, printing and the network are left to the caller.

use vstd::prelude::*;
use crate::api::{error_message, TrackError};
use crate::bar::{bar_index, resolve_bar_index, select_parcel_for_bar, selected_tracking, selection_message, smart_label, weekday_name};
use crate::carriers::{for_carrier, FirstParty};
use crate::models::{
    carrier_name, detected_carrier, info_status_text, parcel_state, resolved_carrier_of,
    state_emoji, Carrier, Config, Parcel, TrackingInfo,
};
use crate::storage::{index_of_tracking, lemma_identified_in_range, tracking_index};
use crate::text::{
    concat2, concat3, decimal, lowercase_of, owned, parse_usize, parsed_usize, str_eq, to_lowercase,
    u128_decimal,
};
use crate::time::{
    day_of, epoch_day, format_instant, formatted, four_digit_year, local_offset_at, parse_rfc3339, rfc3339_instant,
    rfc3339_of, to_rfc3339, utc_now, UtcTime,
};

verus! {

// ---------------------------------------------------------------------------
// Adding a parcel
// ---------------------------------------------------------------------------

/// What adding a parcel came to.
#[derive(Debug)]
pub enum AddOutcome {
    /// A parcel with that tracking number is already tracked.
    AlreadyExists,
    /// The parcel was added: the text it is shown under and its carrier.
    Added { shown_as: String, carrier: Carrier },
}

/// Adds a parcel, unless one with the same tracking number is already
/// tracked. Its carrier is detected from the number and stored by its
/// lower-cased name.
pub fn add_parcel(parcels: &mut Vec<Parcel>, tracking: String, description: String) -> (r: AddOutcome)
    ensures
        tracking_index(old(parcels)@, tracking@) is Some ==> r is AlreadyExists && final(parcels)@
            == old(parcels)@,
        tracking_index(old(parcels)@, tracking@) is None ==> {
            &&& r matches AddOutcome::Added { shown_as, carrier }
            &&& carrier == detected_carrier(tracking@)
            &&& shown_as@ == (if description@.len() == 0 { tracking@ } else { description@ })
            &&& final(parcels)@.len() == old(parcels)@.len() + 1
            &&& final(parcels)@.drop_last() == old(parcels)@
            &&& final(parcels)@.last().tracking_number@ == tracking@
            &&& final(parcels)@.last().description@ == description@
            &&& final(parcels)@.last().carrier@ == lowercase_of(carrier_name(detected_carrier(tracking@)))
            &&& final(parcels)@.last().tracking_info is None
            &&& final(parcels)@.last().last_updated is None
            &&& exists|ms: nat| final(parcels)@.last().id@ == decimal(ms)
        },
{
    if index_of_tracking(parcels, tracking.as_str()).is_some() {
        return AddOutcome::AlreadyExists;
    }
    let carrier = Carrier::detect(tracking.as_str());
    let shown_as = if description.as_str().is_empty() {
        tracking.clone()
    } else {
        description.clone()
    };
    let name = to_lowercase(carrier.name());
    let ghost before = parcels@;
    parcels.push(Parcel::new(tracking, description, name));
    assert(parcels@.drop_last() =~= before);
    AddOutcome::Added { shown_as, carrier }
}

// ---------------------------------------------------------------------------
// The rows of the list
// ---------------------------------------------------------------------------

/// The minute of the hour of a timestamp.
pub open spec fn minute_of(secs: int) -> int {
    (secs % 3600) / 60
}

/// The compact label of an RFC 3339 estimate seen from `now`, given the
/// machine's UTC offsets: like the bar's label, but the time reads "3pm"
/// on the hour and "3:04pm" otherwise.
pub open spec fn compact_eta(
    eta: Seq<char>,
    now: UtcTime,
    eta_offset: Option<i32>,
    now_offset: Option<i32>,
) -> Seq<char> {
    match rfc3339_instant(eta) {
        None => eta,
        Some(t) => match (eta_offset, now_offset) {
            (Some(o1), Some(o2)) => {
                let lt = t.secs + o1;
                let ln = now.secs + o2;
                if i64::MIN <= lt <= i64::MAX && i64::MIN <= ln <= i64::MAX {
                    let local = UtcTime { secs: lt as i64, nanos: t.nanos };
                    let time_fmt = if minute_of(lt) == 0 { "%-I%P"@ } else { "%-I:%M%P"@ };
                    match (
                        formatted(local.secs, local.nanos, time_fmt),
                        crate::bar::lower_formatted(local, "%b %d @ %-I:%M%p"@),
                        crate::bar::lower_formatted(local, "%b %d, %Y @ %-I:%M%p"@),
                    ) {
                        (Some(time_text), Some(month_day), Some(full_date)) => smart_label(
                            epoch_day(lt) - epoch_day(ln),
                            (epoch_day(lt) + 3) % 7,
                            time_text,
                            month_day,
                            full_date,
                        ),
                        _ => eta,
                    }
                } else {
                    eta
                }
            },
            _ => eta,
        },
    }
}

/// The compact label of an RFC 3339 estimate seen from `now`, in the local
/// time given by the UTC offsets (seconds east) at the estimate and at
/// `now`. A text that is not RFC 3339, or that cannot be placed, is
/// returned as it is.
pub fn format_eta_compact_in(eta_str: &str, now: UtcTime, eta_offset: Option<i32>, now_offset: Option<i32>) -> (r: String)
    ensures
        r@ == compact_eta(eta_str@, now, eta_offset, now_offset),
{
    let t = match parse_rfc3339(eta_str) {
        Some(t) => t,
        None => {
            assert(compact_eta(eta_str@, now, eta_offset, now_offset) == eta_str@);
            return owned(eta_str);
        },
    };
    let (off1, off2) = match (eta_offset, now_offset) {
        (Some(a), Some(b)) => (a, b),
        _ => {
            assert(compact_eta(eta_str@, now, eta_offset, now_offset) == eta_str@);
            return owned(eta_str);
        },
    };
    let lt = (t.secs as i128) + (off1 as i128);
    let ln = (now.secs as i128) + (off2 as i128);
    if lt < i64::MIN as i128 || lt > i64::MAX as i128 || ln < i64::MIN as i128 || ln > i64::MAX as i128 {
        assert(compact_eta(eta_str@, now, eta_offset, now_offset) == eta_str@);
        return owned(eta_str);
    }
    let local = UtcTime { secs: lt as i64, nanos: t.nanos };
    let m = (lt as i64) % 3600;
    let m2 = if m < 0 { m + 3600 } else { m };
    assert(m2 as int == (lt as int) % 3600);
    let time_text = if m2 / 60 == 0 {
        format_instant(local, "%-I%P")
    } else {
        format_instant(local, "%-I:%M%P")
    };
    let month_day = match format_instant(local, "%b %d @ %-I:%M%p") {
        Some(s) => Some(to_lowercase(s.as_str())),
        None => None,
    };
    let full_date = match format_instant(local, "%b %d, %Y @ %-I:%M%p") {
        Some(s) => Some(to_lowercase(s.as_str())),
        None => None,
    };
    match (time_text, month_day, full_date) {
        (Some(a), Some(b), Some(c)) => {
            let dl = day_of(lt as i64);
            let dn = day_of(ln as i64);
            let w0 = dl % 7;
            let w1 = if w0 < 0 { w0 + 7 } else { w0 };
            let w = (w1 + 3) % 7;
            assert(w1 as int == (dl as int) % 7);
            let r = crate::bar::eta_label(dl - dn, w, a.as_str(), b.as_str(), c.as_str());
            assert(r@ == compact_eta(eta_str@, now, eta_offset, now_offset));
            r
        },
        _ => {
            assert(compact_eta(eta_str@, now, eta_offset, now_offset) == eta_str@);
            owned(eta_str)
        },
    }
}

/// The compact label of an RFC 3339 estimate seen from `now`, in the
/// machine's local time (its UTC offsets at the estimate and at `now` are
/// read).
pub fn format_eta_compact_at(eta_str: &str, now: UtcTime) -> (r: String)
    ensures
        exists|o1: Option<i32>, o2: Option<i32>| r@ == compact_eta(eta_str@, now, o1, o2),
        match rfc3339_instant(eta_str@) {
            Some(t) => rfc3339_of(t.secs, t.nanos) is Some && rfc3339_of(now.secs, now.nanos) is Some
                ==> exists|o1: i32, o2: i32| -86400 < o1 < 86400 && -86400 < o2 < 86400
                    && r@ == #[trigger] compact_eta(eta_str@, now, Some(o1), Some(o2)),
            None => true,
        },
{
    let eta_offset = match parse_rfc3339(eta_str) {
        Some(t) => local_offset_at(t),
        None => None,
    };
    let now_offset = local_offset_at(now);
    format_eta_compact_in(eta_str, now, eta_offset, now_offset)
}

/// The status column: the state's emoji and the status text, or
/// `Not updated` without tracking information.
pub open spec fn status_column(p: Parcel) -> Seq<char> {
    state_emoji(parcel_state(p)) + " "@ + match p.tracking_info {
        Some(info) => info_status_text(info),
        None => "Not updated"@,
    }
}

/// The carrier column: the detected carrier's name for `auto`, else the
/// stored setting.
pub open spec fn carrier_column(p: Parcel) -> Seq<char> {
    if p.carrier@ == "auto"@ {
        carrier_name(detected_carrier(p.tracking_number@))
    } else {
        p.carrier@
    }
}

/// The status column of the list.
pub fn status_column_text(p: &Parcel) -> (r: String)
    ensures
        r@ == status_column(*p),
{
    let text = match &p.tracking_info {
        Some(info) => info.status_text(),
        None => owned("Not updated"),
    };
    concat3(p.status_emoji(), " ", text.as_str())
}

/// The carrier column of the list.
pub fn carrier_column_text(p: &Parcel) -> (r: String)
    ensures
        r@ == carrier_column(*p),
{
    if str_eq(p.carrier.as_str(), "auto") {
        owned(Carrier::detect(p.tracking_number.as_str()).name())
    } else {
        p.carrier.clone()
    }
}

/// The estimate column fits the parcel: `-` without an estimate, else
/// the compact label of its RFC 3339 text seen from `now` under some UTC
/// offsets of the machine; in a year of four digits, seen from an instant
/// chrono holds, the offsets are present and less than a day.
pub open spec fn eta_column_fits(p: Parcel, now: UtcTime, text: Seq<char>) -> bool {
    match crate::jsonout::parcel_eta(p) {
        Some(t) => match rfc3339_of(t.secs, t.nanos) {
            Some(s) => {
                &&& exists|o1: Option<i32>, o2: Option<i32>|
                    #![trigger compact_eta(s, now, o1, o2)]
                    text == compact_eta(s, now, o1, o2)
                &&& four_digit_year(t) && rfc3339_of(now.secs, now.nanos) is Some ==> exists|o1: i32, o2: i32|
                    -86400 < o1 < 86400 && -86400 < o2 < 86400
                        && text == #[trigger] compact_eta(s, now, Some(o1), Some(o2))
            },
            None => text == "-"@,
        },
        None => text == "-"@,
    }
}

/// The estimate column of the list.
pub fn eta_column_text(p: &Parcel, now: UtcTime) -> (r: String)
    ensures
        eta_column_fits(*p, now, r@),
{
    let eta: Option<UtcTime> = match &p.tracking_info {
        Some(info) => info.estimated_delivery_date,
        None => None,
    };
    match eta {
        Some(t) => match to_rfc3339(t) {
            Some(s) => {
                let label = format_eta_compact_at(s.as_str(), now);
                proof {
                    let (o1, o2) = choose|o1: Option<i32>, o2: Option<i32>|
                        label@ == compact_eta(s@, now, o1, o2);
                    assert(rfc3339_of(t.secs, t.nanos) == Some(s@));
                    assert(label@ == compact_eta(s@, now, o1, o2));
                    assert(crate::jsonout::parcel_eta(*p) == Some(t));
                    let sx = rfc3339_of(t.secs, t.nanos)->0;
                    assert(sx == s@);
                    assert(exists|a: Option<i32>, b: Option<i32>| #![trigger compact_eta(sx, now, a, b)] label@ == compact_eta(sx, now, a, b));
                    assert(eta_column_fits(*p, now, label@));
                }
                label
            },
            None => {
                let r = owned("-");
                assert(eta_column_fits(*p, now, r@));
                r
            },
        },
        None => {
            let r = owned("-");
            assert(eta_column_fits(*p, now, r@));
            r
        },
    }
}

/// One row of the list: position, status, description, tracking number,
/// carrier and the compact label of the estimate (`-` without one).
pub fn list_row(index: usize, p: &Parcel, now: UtcTime) -> (r: Vec<String>)
    ensures
        r@.len() == 6,
        r@[0]@ == decimal(index as nat + 1),
        r@[1]@ == status_column(*p),
        r@[2]@ == p.description@,
        r@[3]@ == p.tracking_number@,
        r@[4]@ == carrier_column(*p),
        eta_column_fits(*p, now, r@[5]@),
{
    let position = u128_decimal(index as u128 + 1);
    vec![
        position,
        status_column_text(p),
        p.description.clone(),
        p.tracking_number.clone(),
        carrier_column_text(p),
        eta_column_text(p, now),
    ]
}

// ---------------------------------------------------------------------------
// Updating
// ---------------------------------------------------------------------------

/// The first-party provider that serves a parcel, if any (Amazon parcels
/// have one; every other parcel goes to the aggregator).
pub fn provider_for(p: &Parcel, config: &Config) -> (r: Option<FirstParty>)
    ensures
        r is Some <==> resolved_carrier_of(*p) == Carrier::Amazon,
{
    for_carrier(&p.resolved_carrier(), config)
}

/// Where a parcel's information came from after its first-party tracker
/// answered.
#[derive(Debug)]
pub enum FirstPartyOutcome {
    /// The tracker served it; `source` is the tracker's name.
    Served { info: TrackingInfo, source: &'static str },
    /// The tracker failed with this message; the aggregator is asked next.
    FallBack { reason: String },
}

/// What comes after asking a parcel's first-party tracker: its information
/// when it answered, else a fall back to the aggregator with the reason.
pub fn after_first_party(provider: &FirstParty, outcome: Result<TrackingInfo, String>) -> (r: FirstPartyOutcome)
    ensures
        match outcome {
            Ok(info) => r matches FirstPartyOutcome::Served { info: i, source } && i == info && source@
                == "Amazon"@,
            Err(m) => r matches FirstPartyOutcome::FallBack { reason } && reason == m,
        },
{
    match outcome {
        Ok(info) => FirstPartyOutcome::Served { info, source: provider.name() },
        Err(reason) => FirstPartyOutcome::FallBack { reason },
    }
}

/// Records the result of fetching a parcel's tracking information: on
/// success the information and the time of the update are stored; on
/// failure the parcel is unchanged and the error's message is returned.
pub fn record_update(p: &mut Parcel, result: Result<TrackingInfo, TrackError>, now: UtcTime) -> (r: Option<String>)
    ensures
        match result {
            Ok(info) => r is None && *final(p) == (Parcel {
                tracking_info: Some(info),
                last_updated: Some(now),
                ..*old(p)
            }),
            Err(e) => r matches Some(m) && m@ == error_message(e@) && *final(p) == *old(p),
        },
{
    match result {
        Ok(info) => {
            p.tracking_info = Some(info);
            p.last_updated = Some(now);
            None
        },
        Err(e) => Some(e.message()),
    }
}

// ---------------------------------------------------------------------------
// Cycling and opening
// ---------------------------------------------------------------------------

/// The parcel after the selected one, wrapping around: the first parcel
/// when nothing is selected or the selection is not in the list.
pub open spec fn cycled_index(ps: Seq<Parcel>, config: Config) -> Option<int> {
    if ps.len() == 0 {
        None
    } else {
        match config.waybar_selected {
            Some(sel) => {
                let current = match tracking_index(ps, sel.tracking@) {
                    Some(i) => i,
                    None => 0,
                };
                Some((current + 1) % (ps.len() as int))
            },
            None => Some(0),
        }
    }
}

/// The index of the parcel that cycling selects next.
pub fn next_cycle_index(parcels: &Vec<Parcel>, config: &Config) -> (r: Option<usize>)
    ensures
        match r {
            Some(i) => cycled_index(parcels@, *config) == Some(i as int) && i < parcels@.len(),
            None => cycled_index(parcels@, *config) is None,
        },
{
    if parcels.len() == 0 {
        return None;
    }
    match &config.waybar_selected {
        Some(sel) => {
            proof {
                lemma_identified_in_range(parcels@, sel.tracking@);
            }
            let current = match index_of_tracking(parcels, sel.tracking.as_str()) {
                Some(i) => i,
                None => 0,
            };
            Some((current + 1) % parcels.len())
        },
        None => Some(0),
    }
}

/// Selects the next parcel for the bar, wrapping around; nothing happens
/// for an empty list.
pub fn cycle_bar_selection(parcels: &Vec<Parcel>, config: &mut Config) -> (r: Option<String>)
    ensures
        match cycled_index(parcels@, *old(config)) {
            Some(i) => {
                &&& r matches Some(m) && m@ == selection_message(parcels@, parcels@[i].tracking_number@)
                &&& final(config).track17_api_key == old(config).track17_api_key
                &&& match selected_tracking(parcels@, parcels@[i].tracking_number@) {
                    Some(t) => final(config).waybar_selected matches Some(sel) && sel.tracking@ == t,
                    None => final(config).waybar_selected == old(config).waybar_selected,
                }
            },
            None => r is None && *final(config) == *old(config),
        },
{
    match next_cycle_index(parcels, config) {
        Some(i) => Some(select_parcel_for_bar(parcels, parcels[i].tracking_number.as_str(), config)),
        None => None,
    }
}

/// The parcel whose tracking page to open: by position when the
/// identifier reads as a number (position 0 counts as 1), else by
/// tracking number; without an identifier, the parcel that leads the bar.
pub open spec fn open_index(ps: Seq<Parcel>, identifier: Option<Seq<char>>, config: Config, now: UtcTime) -> Option<int> {
    match identifier {
        Some(id) => match parsed_usize(id) {
            Some(pos) => {
                let i = if pos == 0 { 0int } else { pos - 1 };
                if i < ps.len() {
                    Some(i)
                } else {
                    None
                }
            },
            None => tracking_index(ps, id),
        },
        None => bar_index(ps, config, now),
    }
}

/// The index of the parcel whose tracking page to open, at `now`.
pub fn open_target(parcels: &Vec<Parcel>, identifier: Option<&str>, config: &Config, now: UtcTime) -> (r: Option<usize>)
    ensures
        match r {
            Some(i) => open_index(
                parcels@,
                match identifier {
                    Some(s) => Some(s@),
                    None => None,
                },
                *config,
                now,
            ) == Some(i as int) && i < parcels@.len(),
            None => open_index(
                parcels@,
                match identifier {
                    Some(s) => Some(s@),
                    None => None,
                },
                *config,
                now,
            ) is None,
        },
{
    match identifier {
        Some(id) => {
            proof {
                lemma_identified_in_range(parcels@, id@);
            }
            match parse_usize(id) {
                Some(pos) => {
                    let i = pos.saturating_sub(1);
                    if i < parcels.len() {
                        Some(i)
                    } else {
                        None
                    }
                },
                None => index_of_tracking(parcels, id),
            }
        },
        None => resolve_bar_index(parcels, config, now),
    }
}

/// Whether a 17track key is configured, as the summary shows it.
pub fn key_status(config: &Config) -> (r: &'static str)
    ensures
        r@ == (if config.track17_api_key is Some { "set"@ } else { "—"@ }),
{
    if config.track17_api_key.is_some() {
        "set"
    } else {
        "—"
    }
}

/// Sets the 17track key when one is given; the configuration is
/// otherwise unchanged.
pub fn set_track17_key(config: &mut Config, key: Option<String>) -> (changed: bool)
    ensures
        changed == key is Some,
        final(config).waybar_selected == old(config).waybar_selected,
        key is Some ==> final(config).track17_api_key == key,
        key is None ==> final(config).track17_api_key == old(config).track17_api_key,
{
    if key.is_some() {
        config.track17_api_key = key;
        true
    } else {
        false
    }
}

} // verus!
