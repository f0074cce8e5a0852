//! Properties that hold across the library's operations: which parcel
//! leads the bar before and after a selection, how the newest-first order
//! of checkpoints is arranged, how row navigation wraps, how the simple
//! store adds and removes, and how positions read back.

use vstd::prelude::*;
use crate::bar::{
    arrives_sooner, bar_index, first_arriving, lower_formatted, selected_tracking, smart_eta, weekday_name,
};
use crate::json::{object_of, view_get, JsonView};
use crate::jsonout::{document_json, event_json, label_fits, labels_fit, parcel_eta, parcel_events, time_json};
use crate::dirstore::{first_with, lemma_first_with, lemma_without_tracking_len, without_tracking};
use crate::dirstore::Parcel as StoredParcel;
use crate::api::{api_detected, carrier_code, tracking_url};
use crate::models::{
    classify_status, detected_carrier, detection_text, parcel_delivered, parcel_state, state_name, status_line,
    Carrier, Config, Parcel, ParcelState,
};
use crate::order::{is_permutation, is_stable, lemma_newest_first, newest_first, sorted_events, EventTriple};
use crate::storage::{lemma_tracking_index, selection_expired, tracking_index};
use crate::text::{
    all_digits, ascii_alphanumerics, ascii_upper, ascii_upper_char, decimal, digit_char, digits_value, has_substring,
    is_ascii_lower, occurs_at,
    parsed_usize, upper_text, without_char,
};
use crate::time::{before, epoch_day, rfc3339_instant, UtcTime};
use crate::tui::{
    add_step, command_step, delete_step, event_step, next_row, previous_row, rename_step, App, Command,
    Effects, Event, InputMode, Key,
};

verus! {

// ---------------------------------------------------------------------------
// The bar
// ---------------------------------------------------------------------------

/// The first parcel to arrive is undelivered; no undelivered parcel is
/// expected strictly sooner; every undelivered parcel before it in the list
/// is expected strictly later; and there is none only when every parcel is
/// delivered.
pub proof fn law_first_arriving(ps: Seq<Parcel>, now: UtcTime)
    ensures
        match first_arriving(ps, now) {
            Some(i) => {
                &&& 0 <= i < ps.len()
                &&& !parcel_delivered(ps[i])
                &&& forall|j: int| 0 <= j < ps.len() && !parcel_delivered(#[trigger] ps[j])
                    ==> !arrives_sooner(ps[j], ps[i], now)
                &&& forall|j: int| 0 <= j < i && !parcel_delivered(#[trigger] ps[j])
                    ==> arrives_sooner(ps[i], ps[j], now)
            },
            None => forall|j: int| 0 <= j < ps.len() ==> parcel_delivered(#[trigger] ps[j]),
        },
    decreases ps.len(),
{
    if ps.len() > 0 {
        let d = ps.drop_last();
        let last = ps.len() - 1;
        law_first_arriving(d, now);
        assert forall|j: int| 0 <= j < d.len() implies #[trigger] d[j] == ps[j] by {}
        match first_arriving(d, now) {
            Some(b) => {
                if !parcel_delivered(ps[last]) && arrives_sooner(ps[last], ps[b], now) {
                    assert(first_arriving(ps, now) == Some(last));
                    assert forall|j: int| 0 <= j < ps.len() && !parcel_delivered(#[trigger] ps[j])
                        implies !arrives_sooner(ps[j], ps[last], now) by {
                        if j < last {
                            assert(d[j] == ps[j]);
                            assert(!arrives_sooner(d[j], d[b], now));
                        }
                    }
                    assert forall|j: int| 0 <= j < last && !parcel_delivered(#[trigger] ps[j])
                        implies arrives_sooner(ps[last], ps[j], now) by {
                        assert(d[j] == ps[j]);
                        assert(!arrives_sooner(d[j], d[b], now));
                    }
                } else {
                    assert(first_arriving(ps, now) == Some(b));
                    assert forall|j: int| 0 <= j < ps.len() && !parcel_delivered(#[trigger] ps[j])
                        implies !arrives_sooner(ps[j], ps[b], now) by {
                        if j < last {
                            assert(d[j] == ps[j]);
                        }
                    }
                    assert forall|j: int| 0 <= j < b && !parcel_delivered(#[trigger] ps[j])
                        implies arrives_sooner(ps[b], ps[j], now) by {
                        assert(d[j] == ps[j]);
                    }
                }
            },
            None => {
                assert forall|j: int| 0 <= j < last implies parcel_delivered(#[trigger] ps[j]) by {
                    assert(d[j] == ps[j]);
                }
                if !parcel_delivered(ps[last]) {
                    assert(first_arriving(ps, now) == Some(last));
                    assert forall|j: int| 0 <= j < ps.len() && !parcel_delivered(#[trigger] ps[j])
                        implies !arrives_sooner(ps[j], ps[last], now) by {
                        if j < last {
                            assert(parcel_delivered(d[j]));
                        }
                    }
                } else {
                    assert(first_arriving(ps, now) is None);
                }
            },
        }
    }
}

/// While a selection holds (it names a parcel and has not expired), the
/// selected parcel leads the bar.
pub proof fn law_selected_parcel_leads_bar(ps: Seq<Parcel>, identifier: Seq<char>, config: Config, now: UtcTime)
    requires
        selected_tracking(ps, identifier) is Some,
        config.waybar_selected matches Some(sel)
            && sel.tracking@ == selected_tracking(ps, identifier).unwrap()
            && !selection_expired(sel, ps, now),
    ensures
        bar_index(ps, config, now) matches Some(i)
            && 0 <= i < ps.len()
            && ps[i].tracking_number@ == selected_tracking(ps, identifier).unwrap(),
{
    let t = selected_tracking(ps, identifier).unwrap();
    lemma_tracking_index(ps, identifier);
    lemma_tracking_index(ps, t);
    match parsed_usize(identifier) {
        Some(pos) => {
            if 0 < pos && pos <= ps.len() {
                assert(ps[pos - 1].tracking_number@ == t);
            }
        },
        None => {},
    }
}

/// Once a delivered parcel's selection has expired, the bar falls back to
/// the first parcel to arrive, which is never a delivered one.
pub proof fn law_expired_selection_gives_way(ps: Seq<Parcel>, config: Config, now: UtcTime)
    requires
        config.waybar_selected matches Some(sel) && selection_expired(sel, ps, now),
    ensures
        bar_index(ps, config, now) == first_arriving(ps, now),
        bar_index(ps, config, now) matches Some(i) ==> !parcel_delivered(ps[i]),
{
    law_first_arriving(ps, now);
}

/// Without a selection the bar shows the first parcel to arrive.
pub proof fn law_unselected_bar_shows_first_arriving(ps: Seq<Parcel>, config: Config, now: UtcTime)
    requires
        config.waybar_selected is None,
    ensures
        bar_index(ps, config, now) == first_arriving(ps, now),
{
}

// ---------------------------------------------------------------------------
// Checkpoints newest first
// ---------------------------------------------------------------------------

/// Sorting checkpoints newest first rearranges them: the result is the
/// checkpoints taken in an order that visits each once, no checkpoint is
/// older than one after it, and checkpoints of the same date keep their
/// order.
pub proof fn law_events_newest_first(evs: Seq<EventTriple>)
    ensures
        sorted_events(evs).len() == evs.len(),
        is_permutation(newest_first(evs.map_values(|e: EventTriple| e.0)), evs.len() as int),
        forall|i: int| 0 <= i < evs.len() ==>
            #[trigger] sorted_events(evs)[i] == evs[newest_first(evs.map_values(|e: EventTriple| e.0))[i]],
        forall|i: int, j: int| 0 <= i < j < evs.len() ==>
            !before(#[trigger] sorted_events(evs)[i].0, #[trigger] sorted_events(evs)[j].0),
        is_stable(newest_first(evs.map_values(|e: EventTriple| e.0)), evs.map_values(|e: EventTriple| e.0)),
{
    let dates = evs.map_values(|e: EventTriple| e.0);
    lemma_newest_first(dates);
    let o = newest_first(dates);
    assert forall|i: int, j: int| 0 <= i < j < evs.len() implies
        !before(#[trigger] sorted_events(evs)[i].0, #[trigger] sorted_events(evs)[j].0) by {
        assert(dates[o[i]] == sorted_events(evs)[i].0);
        assert(dates[o[j]] == sorted_events(evs)[j].0);
    }
}

// ---------------------------------------------------------------------------
// The status document
// ---------------------------------------------------------------------------

proof fn lemma_object_get(entries: Seq<(Seq<char>, JsonView)>, k: int)
    requires
        0 <= k < entries.len(),
        forall|j: int| k < j < entries.len() ==> (#[trigger] entries[j]).0 != entries[k].0,
    ensures
        object_of(entries).contains_key(entries[k].0),
        object_of(entries)[entries[k].0] == entries[k].1,
    decreases entries.len(),
{
    if k < entries.len() - 1 {
        let d = entries.drop_last();
        assert forall|j: int| k < j < d.len() implies (#[trigger] d[j]).0 != d[k].0 by {
            assert(d[j] == entries[j]);
        }
        lemma_object_get(d, k);
        assert(entries.last() == entries[entries.len() - 1]);
    }
}

/// The document lists one item per parcel, in order: item `i` carries
/// parcel `i`'s tracking number and its events newest first; the document
/// carries the time it was made for.
pub proof fn law_document_items(ps: Seq<Parcel>, selected: Option<Seq<char>>, now: UtcTime, labels: Seq<JsonView>)
    requires
        labels.len() == ps.len(),
    ensures
        view_get(document_json(ps, selected, now, labels), "generatedAt"@) == Some(time_json(now)),
        view_get(document_json(ps, selected, now, labels), "parcels"@) matches Some(JsonView::Array(items))
            && items.len() == ps.len() && forall|i: int| 0 <= i < ps.len() ==> {
            &&& view_get(#[trigger] items[i], "trackingNumber"@) == Some(JsonView::Str(ps[i].tracking_number@))
            &&& view_get(items[i], "events"@) == Some(JsonView::Array(
                sorted_events(parcel_events(ps[i])).map_values(|e: EventTriple| event_json(e)),
            ))
        },
{
    reveal_strlit("version");
    reveal_strlit("generatedAt");
    reveal_strlit("selected");
    reveal_strlit("parcels");
    reveal_strlit("id");
    reveal_strlit("trackingNumber");
    reveal_strlit("carrier");
    reveal_strlit("description");
    reveal_strlit("state");
    reveal_strlit("statusText");
    reveal_strlit("location");
    reveal_strlit("eta");
    reveal_strlit("etaLabel");
    reveal_strlit("daysUntilDelivery");
    reveal_strlit("lastUpdated");
    reveal_strlit("trackingUrl");
    reveal_strlit("events");
    let doc = document_json(ps, selected, now, labels);
    let top = seq![
        ("version"@, JsonView::Int(1)),
        ("generatedAt"@, time_json(now)),
        ("selected"@, crate::jsonout::text_json(selected)),
        ("parcels"@, JsonView::Array(
            Seq::new(ps.len(), |i: int| crate::jsonout::item_json(ps[i], now, labels[i])),
        )),
    ];
    assert(doc == JsonView::Object(object_of(top)));
    assert(top[2].0[0] != top[1].0[0]);
    assert(top[3].0[0] != top[1].0[0]);
    lemma_object_get(top, 1);
    lemma_object_get(top, 3);
    let items = Seq::new(ps.len(), |i: int| crate::jsonout::item_json(ps[i], now, labels[i]));
    assert forall|i: int| 0 <= i < ps.len() implies {
        &&& view_get(#[trigger] items[i], "trackingNumber"@) == Some(JsonView::Str(ps[i].tracking_number@))
        &&& view_get(items[i], "events"@) == Some(JsonView::Array(
            sorted_events(parcel_events(ps[i])).map_values(|e: EventTriple| event_json(e)),
        ))
    } by {
        lemma_item_fields(ps[i], now, labels[i]);
    }
}

proof fn lemma_item_fields(p: Parcel, now: UtcTime, label: JsonView)
    ensures
        view_get(crate::jsonout::item_json(p, now, label), "trackingNumber"@) == Some(JsonView::Str(p.tracking_number@)),
        view_get(crate::jsonout::item_json(p, now, label), "events"@) == Some(JsonView::Array(
            sorted_events(parcel_events(p)).map_values(|e: EventTriple| event_json(e)),
        )),
{
    reveal_strlit("id");
    reveal_strlit("trackingNumber");
    reveal_strlit("carrier");
    reveal_strlit("description");
    reveal_strlit("state");
    reveal_strlit("statusText");
    reveal_strlit("location");
    reveal_strlit("eta");
    reveal_strlit("etaLabel");
    reveal_strlit("daysUntilDelivery");
    reveal_strlit("lastUpdated");
    reveal_strlit("trackingUrl");
    reveal_strlit("events");
    let item = crate::jsonout::item_json(p, now, label);
    let entries = match item {
        JsonView::Object(_) => {
            let carrier = crate::models::resolved_carrier_of(p);
            seq![
                ("id"@, JsonView::Str(p.id@)),
                ("trackingNumber"@, JsonView::Str(p.tracking_number@)),
                ("carrier"@, JsonView::Str(crate::models::carrier_name(carrier))),
                ("description"@, JsonView::Str(p.description@)),
                ("state"@, JsonView::Str(crate::models::state_name(crate::models::parcel_state(p)))),
                ("statusText"@, match p.tracking_info {
                    Some(info) => JsonView::Str(crate::models::info_status_text(info)),
                    None => JsonView::Null,
                }),
                ("location"@, match p.tracking_info {
                    Some(info) => crate::jsonout::text_json(crate::api::opt_text(info.current_location)),
                    None => JsonView::Null,
                }),
                ("eta"@, crate::jsonout::opt_time_json(parcel_eta(p))),
                ("etaLabel"@, label),
                ("daysUntilDelivery"@, match crate::models::days_until_at(p, now) {
                    Some(d) => JsonView::Int(d),
                    None => JsonView::Null,
                }),
                ("lastUpdated"@, crate::jsonout::opt_time_json(p.last_updated)),
                ("trackingUrl"@, crate::jsonout::text_json(crate::api::tracking_url(carrier, p.tracking_number@))),
                ("events"@, JsonView::Array(
                    sorted_events(parcel_events(p)).map_values(|e: EventTriple| event_json(e)),
                )),
            ]
        },
        _ => seq![],
    };
    assert(item == JsonView::Object(object_of(entries)));
    assert forall|j: int| 1 < j < entries.len() implies (#[trigger] entries[j]).0 != entries[1].0 by {
        if j == 11 {
            assert(entries[j].0[8] != entries[1].0[8]);
        } else {
            assert(entries[j].0[0] != entries[1].0[0]);
        }
    }
    lemma_object_get(entries, 1);
    lemma_object_get(entries, 12);
}

/// Two documents for the same parcels, selection and time are equal when
/// no parcel has an estimated delivery: every field but an estimate's
/// label is fixed by those inputs.
pub proof fn law_document_is_pure(
    ps: Seq<Parcel>,
    selected: Option<Seq<char>>,
    now: UtcTime,
    labels1: Seq<JsonView>,
    labels2: Seq<JsonView>,
)
    requires
        labels_fit(ps, now, labels1),
        labels_fit(ps, now, labels2),
        forall|i: int| 0 <= i < ps.len() ==> parcel_eta(#[trigger] ps[i]) is None,
    ensures
        document_json(ps, selected, now, labels1) == document_json(ps, selected, now, labels2),
{
    assert forall|i: int| 0 <= i < ps.len() implies labels1[i] == labels2[i] by {
        assert(label_fits(ps[i], now, labels1[i]));
        assert(label_fits(ps[i], now, labels2[i]));
    }
    assert(labels1 =~= labels2);
}

// ---------------------------------------------------------------------------
// Delivery labels
// ---------------------------------------------------------------------------

/// The bar's label of an estimate that reads as RFC 3339 and can be placed
/// in local time: "Today @ t", "Tomorrow @ t", the weekday within the
/// week, the month and day within the year, else the full date, by how many
/// local days it lies ahead of `now`.
pub proof fn law_smart_eta_days(eta: Seq<char>, now: UtcTime, t: UtcTime, o1: i32, o2: i32)
    requires
        rfc3339_instant(eta) == Some(t),
        i64::MIN <= t.secs + o1 <= i64::MAX,
        i64::MIN <= now.secs + o2 <= i64::MAX,
        lower_formatted(UtcTime { secs: (t.secs + o1) as i64, nanos: t.nanos }, "%-I:%M%p"@) is Some,
        lower_formatted(UtcTime { secs: (t.secs + o1) as i64, nanos: t.nanos }, "%b %d @ %-I:%M%p"@) is Some,
        lower_formatted(UtcTime { secs: (t.secs + o1) as i64, nanos: t.nanos }, "%b %d, %Y @ %-I:%M%p"@) is Some,
    ensures
        ({
            let local = UtcTime { secs: (t.secs + o1) as i64, nanos: t.nanos };
            let d = epoch_day(t.secs + o1) - epoch_day(now.secs + o2);
            let time = lower_formatted(local, "%-I:%M%p"@).unwrap();
            let label = smart_eta(eta, now, Some(o1), Some(o2));
            &&& d == 0 ==> label == "Today @ "@ + time
            &&& d == 1 ==> label == "Tomorrow @ "@ + time
            &&& 2 <= d <= 6 ==> label == weekday_name((epoch_day(t.secs + o1) + 3) % 7) + " @ "@ + time
            &&& 7 <= d <= 365 ==> label == lower_formatted(local, "%b %d @ %-I:%M%p"@).unwrap()
            &&& (d < 0 || d > 365) ==> label == lower_formatted(local, "%b %d, %Y @ %-I:%M%p"@).unwrap()
        }),
{
}

// ---------------------------------------------------------------------------
// Carrier detection
// ---------------------------------------------------------------------------

/// Every character is ASCII and no lower-case letter.
spec fn upper_ascii(s: Seq<char>) -> bool {
    forall|i: int| 0 <= i < s.len() ==> '\0' <= #[trigger] s[i] <= '\u{7f}' && !is_ascii_lower(s[i])
}

/// No character is `c`.
spec fn free_of(s: Seq<char>, c: char) -> bool {
    forall|i: int| 0 <= i < s.len() ==> #[trigger] s[i] != c
}

proof fn lemma_ascii_upper(s: Seq<char>)
    requires
        vstd::utf8::is_ascii_chars(s),
    ensures
        upper_ascii(ascii_upper(s)),
{
    assert forall|i: int| 0 <= i < ascii_upper(s).len() implies '\0' <= #[trigger] ascii_upper(s)[i] <= '\u{7f}'
        && !is_ascii_lower(ascii_upper(s)[i]) by {
        assert(ascii_upper(s)[i] == ascii_upper_char(s[i]));
    }
}

proof fn lemma_upper_fixed(s: Seq<char>)
    requires
        upper_ascii(s),
    ensures
        ascii_upper(s) == s,
{
    assert(ascii_upper(s) =~= s);
}

proof fn lemma_without(s: Seq<char>, c: char, d: char)
    ensures
        free_of(without_char(s, c), c),
        upper_ascii(s) ==> upper_ascii(without_char(s, c)),
        free_of(s, d) ==> free_of(without_char(s, c), d),
        free_of(s, c) ==> without_char(s, c) == s,
    decreases s.len(),
{
    if s.len() > 0 {
        let t = s.drop_last();
        lemma_without(t, c, d);
        assert(upper_ascii(s) ==> upper_ascii(t)) by {
            if upper_ascii(s) {
                assert forall|i: int| 0 <= i < t.len() implies '\0' <= #[trigger] t[i] <= '\u{7f}' && !is_ascii_lower(t[i]) by {
                    assert(t[i] == s[i]);
                }
            }
        }
        assert(free_of(s, d) ==> free_of(t, d)) by {
            if free_of(s, d) {
                assert forall|i: int| 0 <= i < t.len() implies #[trigger] t[i] != d by {
                    assert(t[i] == s[i]);
                }
            }
        }
        assert(free_of(s, c) ==> free_of(t, c)) by {
            if free_of(s, c) {
                assert forall|i: int| 0 <= i < t.len() implies #[trigger] t[i] != c by {
                    assert(t[i] == s[i]);
                }
            }
        }
        assert(s.last() == s[s.len() - 1]);
        if free_of(s, c) {
            assert(t.push(s.last()) =~= s);
        }
    }
}

/// Normalizing an ASCII number once more changes nothing: upper-cased,
/// without spaces and hyphens, it reads the same.
proof fn lemma_detection_text_fixed(s: Seq<char>)
    requires
        vstd::utf8::is_ascii_chars(s),
    ensures
        detection_text(detection_text(s)) == detection_text(s),
{
    let u = ascii_upper(s);
    lemma_ascii_upper(s);
    lemma_without(u, ' ', '-');
    let a = without_char(u, ' ');
    lemma_without(a, '-', ' ');
    let d = without_char(a, '-');
    assert(d == detection_text(s));
    assert(vstd::utf8::is_ascii_chars(d));
    lemma_upper_fixed(d);
    assert(upper_text(d) == d);
    lemma_without(d, ' ', '-');
    lemma_without(d, '-', ' ');
}

/// Case, spaces and hyphens do not matter to carrier detection: an ASCII
/// tracking number is detected as its upper-cased form without spaces and
/// hyphens is.
pub proof fn law_detection_ignores_case_and_separators(tracking: Seq<char>)
    requires
        vstd::utf8::is_ascii_chars(tracking),
    ensures
        detected_carrier(tracking) == detected_carrier(detection_text(tracking)),
{
    lemma_detection_text_fixed(tracking);
}

/// Case and spaces do not matter to the aggregator's detection, and it
/// never names the unknown carrier: an ASCII tracking number is detected as
/// its upper-cased form without spaces is.
pub proof fn law_api_detection_ignores_case_and_spaces(tracking: Seq<char>)
    requires
        vstd::utf8::is_ascii_chars(tracking),
    ensures
        api_detected(tracking) == api_detected(without_char(upper_text(tracking), ' ')),
        api_detected(tracking) != Some(Carrier::Unknown),
{
    let u = ascii_upper(tracking);
    lemma_ascii_upper(tracking);
    lemma_without(u, ' ', ' ');
    let a = without_char(u, ' ');
    assert(vstd::utf8::is_ascii_chars(a));
    lemma_upper_fixed(a);
    lemma_without(a, ' ', ' ');
}

/// The short English names of the weekdays, Monday first.
pub open spec fn day_names() -> Seq<Seq<char>> {
    seq!["Mon"@, "Tue"@, "Wed"@, "Thu"@, "Fri"@, "Sat"@, "Sun"@]
}

/// Weekday `k` (Monday 0) is named by the `k`-th of Mon, Tue, Wed, Thu,
/// Fri, Sat, Sun; and a delivery two to six days ahead is labelled with its
/// weekday's name, " @ " and the time.
pub proof fn law_weekday_labels(days_diff: int, k: int, time_text: Seq<char>, month_day: Seq<char>, full_date: Seq<char>)
    requires
        0 <= k < 7,
    ensures
        weekday_name(k) == day_names()[k],
        2 <= days_diff <= 6 ==> crate::bar::smart_label(days_diff, k, time_text, month_day, full_date)
            == day_names()[k] + " @ "@ + time_text,
{
}

/// An estimate two to six local days after the local today is labelled
/// with the name of its local date's weekday, counted from 1970-01-01 (a
/// Thursday), then " @ " and its local time of day.
pub proof fn law_weekday_of_estimate(eta: Seq<char>, t: UtcTime, now: UtcTime, o1: i32, o2: i32, time_text: Seq<char>)
    requires
        rfc3339_instant(eta) == Some(t),
        i64::MIN <= t.secs + o1 <= i64::MAX,
        i64::MIN <= now.secs + o2 <= i64::MAX,
        lower_formatted(UtcTime { secs: (t.secs + o1) as i64, nanos: t.nanos }, "%-I:%M%p"@) == Some(time_text),
        lower_formatted(UtcTime { secs: (t.secs + o1) as i64, nanos: t.nanos }, "%b %d @ %-I:%M%p"@) is Some,
        lower_formatted(UtcTime { secs: (t.secs + o1) as i64, nanos: t.nanos }, "%b %d, %Y @ %-I:%M%p"@) is Some,
        2 <= epoch_day(t.secs + o1) - epoch_day(now.secs + o2) <= 6,
    ensures
        smart_eta(eta, now, Some(o1), Some(o2)) == day_names()[(epoch_day(t.secs + o1) - epoch_day(0) + 3) % 7]
            + " @ "@ + time_text,
{
    assert(epoch_day(0) == 0);
}

/// The address of each carrier's public tracking page: the carrier's own
/// site, ending in the tracking number; no page for an unknown carrier.
pub proof fn law_tracking_pages(n: Seq<char>)
    ensures
        tracking_url(Carrier::UPS, n) == Some("https://www.ups.com/track?tracknum="@ + n),
        tracking_url(Carrier::FedEx, n) == Some("https://www.fedex.com/fedextrack/?trknbr="@ + n),
        tracking_url(Carrier::USPS, n) == Some("https://tools.usps.com/go/TrackConfirmAction?tLabels="@ + n),
        tracking_url(Carrier::DHL, n) == Some("https://www.dhl.com/en/express/tracking.html?AWB="@ + n),
        tracking_url(Carrier::CanadaPost, n) == Some(
            "https://www.canadapost-postescanada.ca/track-reperage/en#/search?searchFor="@ + n,
        ),
        tracking_url(Carrier::OnTrac, n) == Some("https://www.ontrac.com/tracking.asp?tracking_number="@ + n),
        tracking_url(Carrier::Amazon, n) == Some("https://track.amazon.com/tracking/"@ + n),
        tracking_url(Carrier::Unknown, n) is None,
{
}

/// The aggregator's carrier codes: UPS 100002, FedEx 100003, DHL 100004,
/// Canada Post 100007, OnTrac 100008, USPS 100009; Amazon and an unknown
/// carrier have none (0). No two carriers share a code.
pub proof fn law_carrier_codes(a: Carrier, b: Carrier)
    ensures
        carrier_code(Carrier::UPS) == 100002,
        carrier_code(Carrier::FedEx) == 100003,
        carrier_code(Carrier::DHL) == 100004,
        carrier_code(Carrier::CanadaPost) == 100007,
        carrier_code(Carrier::OnTrac) == 100008,
        carrier_code(Carrier::USPS) == 100009,
        carrier_code(Carrier::Amazon) == 0,
        carrier_code(Carrier::Unknown) == 0,
        carrier_code(a) != 0 && carrier_code(a) == carrier_code(b) ==> a == b,
{
}

// ---------------------------------------------------------------------------
// Row navigation
// ---------------------------------------------------------------------------

/// Moving down then up, or up then down, comes back to the same row, and
/// both moves stay within the list.
pub proof fn law_row_moves_undo(i: usize, len: usize)
    requires
        i < len,
    ensures
        next_row(Some(i), len) < len,
        previous_row(Some(i), len) < len,
        next_row(Some(previous_row(Some(i), len)), len) == i,
        previous_row(Some(next_row(Some(i), len)), len) == i,
{
}

/// The highlighted row lies within the list, and there is none only when
/// the list is empty.
pub open spec fn row_in_list(a: App) -> bool {
    match a.selected {
        Some(i) => i < a.parcels@.len(),
        None => a.parcels@.len() == 0,
    }
}

/// Every key or mouse event on a non-empty list keeps the highlighted row
/// within the list.
pub proof fn law_events_keep_row_in_list(a: App, b: App, ev: Event, fx: Effects)
    requires
        row_in_list(a),
        a.parcels@.len() > 0,
        event_step(a, b, ev, fx),
    ensures
        row_in_list(b),
{
    match ev {
        Event::Key(key) => match a.input_mode {
            Some(mode) => if key == Key::Enter {
                match mode {
                    InputMode::Add => assert(add_step(a, b, fx)),
                    InputMode::Rename => assert(rename_step(a, b, fx)),
                }
            },
            None => if key == Key::Char('d') && !a.show_details {
                assert(delete_step(a, b, fx));
                assert(a.parcels.len() == a.parcels@.len());
            },
        },
        _ => {},
    }
}

/// Every message of the background update keeps the highlighted row
/// within the list.
pub proof fn law_updates_keep_row_in_list(a: App, b: App, cmd: Command, fx: Effects)
    requires
        row_in_list(a),
        command_step(a, b, cmd, fx),
    ensures
        row_in_list(b),
{
}

// ---------------------------------------------------------------------------
// The simple store
// ---------------------------------------------------------------------------

/// A parcel just added can be added again only after it is removed: its
/// tracking number is then found.
pub proof fn law_added_parcel_is_found(ps: Seq<StoredParcel>, p: StoredParcel)
    ensures
        first_with(ps.push(p), p.tracking@) is Some,
{
    lemma_first_with(ps.push(p), p.tracking@);
    assert(ps.push(p)[ps.len() as int] == p);
}

/// Removing a newly added parcel by its tracking number gives back the
/// list as it was before the addition.
pub proof fn law_remove_undoes_add(ps: Seq<StoredParcel>, p: StoredParcel)
    requires
        first_with(ps, p.tracking@) is None,
    ensures
        without_tracking(ps.push(p), p.tracking@) == ps,
{
    lemma_first_with(ps, p.tracking@);
    lemma_none_kept(ps, p.tracking@);
    assert(ps.push(p).drop_last() =~= ps);
}

proof fn lemma_none_kept(ps: Seq<StoredParcel>, t: Seq<char>)
    requires
        forall|k: int| 0 <= k < ps.len() ==> (#[trigger] ps[k]).tracking@ != t,
    ensures
        without_tracking(ps, t) == ps,
    decreases ps.len(),
{
    if ps.len() > 0 {
        let d = ps.drop_last();
        assert forall|k: int| 0 <= k < d.len() implies (#[trigger] d[k]).tracking@ != t by {
            assert(d[k] == ps[k]);
        }
        lemma_none_kept(d, t);
        assert(ps.last() == ps[ps.len() - 1]);
        assert(d.push(ps.last()) =~= ps);
    }
    lemma_without_tracking_len(ps, t);
}

// ---------------------------------------------------------------------------
// States
// ---------------------------------------------------------------------------

/// A status that mentions "undelivered" never reads as delivered.
pub proof fn law_undelivered_is_not_delivered(status: Seq<char>)
    requires
        has_substring(status, "undelivered"@),
    ensures
        classify_status(status) != ParcelState::Delivered,
{
}

/// The words a status line is read by.
pub open spec fn reads_delivered(s: Seq<char>) -> bool {
    has_substring(s, "delivered"@) && !has_substring(s, "undelivered"@)
}

pub open spec fn reads_out_for_delivery(s: Seq<char>) -> bool {
    has_substring(s, "out for delivery"@) || has_substring(s, "out_for_delivery"@)
        || has_substring(ascii_alphanumerics(s), "outfordelivery"@)
}

pub open spec fn reads_in_transit(s: Seq<char>) -> bool {
    has_substring(s, "in transit"@) || has_substring(s, "in_transit"@) || has_substring(
        ascii_alphanumerics(s),
        "intransit"@,
    )
}

pub open spec fn reads_pre_transit(s: Seq<char>) -> bool {
    has_substring(s, "info"@) || has_substring(s, "pre"@)
}

pub open spec fn reads_exception(s: Seq<char>) -> bool {
    has_substring(s, "exception"@) || has_substring(s, "fail"@) || has_substring(s, "undelivered"@)
}

/// How a lower-cased status line reads, the earlier words taking
/// precedence: "delivered" but not "undelivered" is delivered; then "out
/// for delivery" (with underscores, or run together) is out for delivery;
/// then "in transit" likewise is in transit; then "info" or "pre" is before
/// transit; then "exception", "fail" or "undelivered" is an exception;
/// anything else is unknown.
pub proof fn law_status_words(s: Seq<char>)
    ensures
        reads_delivered(s) ==> classify_status(s) == ParcelState::Delivered,
        !reads_delivered(s) && reads_out_for_delivery(s) ==> classify_status(s) == ParcelState::OutForDelivery,
        !reads_delivered(s) && !reads_out_for_delivery(s) && reads_in_transit(s) ==> classify_status(s)
            == ParcelState::InTransit,
        !reads_delivered(s) && !reads_out_for_delivery(s) && !reads_in_transit(s) && reads_pre_transit(s)
            ==> classify_status(s) == ParcelState::PreTransit,
        !reads_delivered(s) && !reads_out_for_delivery(s) && !reads_in_transit(s) && !reads_pre_transit(s)
            && reads_exception(s) ==> classify_status(s) == ParcelState::Exception,
        !reads_delivered(s) && !reads_out_for_delivery(s) && !reads_in_transit(s) && !reads_pre_transit(s)
            && !reads_exception(s) ==> classify_status(s) == ParcelState::Unknown,
{
}

/// A status line that says "exception" (or "fail", or "undelivered") and
/// none of the words of delivery, of transit or of the time before it
/// reads as an exception, whatever else it says.
pub proof fn law_exception_words(s: Seq<char>)
    requires
        has_substring(s, "exception"@) || has_substring(s, "fail"@) || has_substring(
            s,
            "undelivered"@,
        ),
        !has_substring(s, "delivered"@) || has_substring(s, "undelivered"@),
        !has_substring(s, "out for delivery"@),
        !has_substring(s, "out_for_delivery"@),
        !has_substring(ascii_alphanumerics(s), "outfordelivery"@),
        !has_substring(s, "in transit"@),
        !has_substring(s, "in_transit"@),
        !has_substring(ascii_alphanumerics(s), "intransit"@),
        !has_substring(s, "info"@),
        !has_substring(s, "pre"@),
    ensures
        classify_status(s) == ParcelState::Exception,
        state_name(classify_status(s)) == "exception"@,
{
    law_status_words(s);
}

/// The names of the six states, and their emoji, are fixed.
pub proof fn law_state_names_and_emoji()
    ensures
        state_name(ParcelState::Delivered) == "delivered"@,
        state_name(ParcelState::OutForDelivery) == "out-for-delivery"@,
        state_name(ParcelState::InTransit) == "in-transit"@,
        state_name(ParcelState::PreTransit) == "pre-transit"@,
        state_name(ParcelState::Exception) == "exception"@,
        state_name(ParcelState::Unknown) == "unknown"@,
        crate::models::state_emoji(ParcelState::Delivered) == "✅"@,
        crate::models::state_emoji(ParcelState::OutForDelivery) == "🚚"@,
        crate::models::state_emoji(ParcelState::InTransit) == "📦"@,
        crate::models::state_emoji(ParcelState::PreTransit) == "📝"@,
        crate::models::state_emoji(ParcelState::Exception) == "⚠️"@,
        crate::models::state_emoji(ParcelState::Unknown) == "📍"@,
{
}

/// Keeping only letters and digits never lengthens a text.
proof fn lemma_alphanumerics_len(s: Seq<char>)
    ensures
        ascii_alphanumerics(s).len() <= s.len(),
    decreases s.len(),
{
    if s.len() > 0 {
        lemma_alphanumerics_len(s.drop_last());
    }
}

/// A text of `n` characters holds no longer text.
proof fn lemma_too_long(hay: Seq<char>, needle: Seq<char>)
    requires
        needle.len() > hay.len(),
    ensures
        !has_substring(hay, needle),
{
}

/// A needle whose first character the text never holds does not occur in it.
proof fn lemma_first_char_absent(hay: Seq<char>, needle: Seq<char>)
    requires
        needle.len() > 0,
        forall|i: int| 0 <= i < hay.len() ==> #[trigger] hay[i] != needle[0],
    ensures
        !has_substring(hay, needle),
{
    assert forall|i: int| !occurs_at(hay, needle, i) by {
        if occurs_at(hay, needle, i) {
            assert(hay.subrange(i, i + needle.len())[0] == needle[0]);
        }
    }
}

/// A parcel's state name is one of six; without tracking information the
/// parcel reads as unknown; it reads as delivered only when its status
/// line mentions "delivered" and not "undelivered".
pub proof fn law_parcel_states(p: Parcel)
    ensures
        ({
            let n = state_name(parcel_state(p));
            ||| n == "delivered"@
            ||| n == "out-for-delivery"@
            ||| n == "in-transit"@
            ||| n == "pre-transit"@
            ||| n == "exception"@
            ||| n == "unknown"@
        }),
        p.tracking_info is None ==> parcel_state(p) == ParcelState::Unknown && state_name(parcel_state(p))
            == "unknown"@,
        parcel_state(p) == ParcelState::Delivered ==> has_substring(status_line(p), "delivered"@)
            && !has_substring(status_line(p), "undelivered"@),
{
    if p.tracking_info is None {
        let u = "unknown"@;
        reveal_strlit("unknown");
        reveal_strlit("delivered");
        reveal_strlit("out for delivery");
        reveal_strlit("out_for_delivery");
        reveal_strlit("outfordelivery");
        reveal_strlit("in transit");
        reveal_strlit("in_transit");
        reveal_strlit("intransit");
        reveal_strlit("info");
        reveal_strlit("pre");
        reveal_strlit("exception");
        reveal_strlit("fail");
        reveal_strlit("undelivered");
        assert(status_line(p) == u);
        lemma_alphanumerics_len(u);
        lemma_too_long(u, "delivered"@);
        lemma_too_long(u, "out for delivery"@);
        lemma_too_long(u, "out_for_delivery"@);
        lemma_too_long(ascii_alphanumerics(u), "outfordelivery"@);
        lemma_too_long(u, "in transit"@);
        lemma_too_long(u, "in_transit"@);
        lemma_too_long(ascii_alphanumerics(u), "intransit"@);
        lemma_first_char_absent(u, "info"@);
        lemma_first_char_absent(u, "pre"@);
        lemma_too_long(u, "exception"@);
        lemma_first_char_absent(u, "fail"@);
        lemma_too_long(u, "undelivered"@);
    }
}

// ---------------------------------------------------------------------------
// Positions
// ---------------------------------------------------------------------------

proof fn lemma_decimal_digits(n: nat)
    ensures
        all_digits(decimal(n)),
        digits_value(decimal(n)) == n,
        decimal(n)[0] != '+',
    decreases n,
{
    assert(digit_char(n % 10) as int == n % 10 + 48);
    if n < 10 {
        assert(decimal(n) =~= seq![digit_char(n)]);
        assert(seq![digit_char(n)].drop_last() =~= Seq::<char>::empty());
        assert(digits_value(Seq::<char>::empty()) == 0);
        assert(digits_value(decimal(n)) == digits_value(decimal(n).drop_last()) * 10
            + ((decimal(n).last() as int) - 48) as nat);
    } else {
        lemma_decimal_digits(n / 10);
        let s = decimal(n / 10);
        assert(decimal(n) == s.push(digit_char(n % 10)));
        assert(s.push(digit_char(n % 10)).drop_last() =~= s);
        assert(decimal(n).last() == digit_char(n % 10));
        assert(digits_value(decimal(n)) == digits_value(s) * 10 + ((digit_char(n % 10) as int) - 48) as nat);
        assert(n == (n / 10) * 10 + n % 10);
        assert forall|i: int| 0 <= i < decimal(n).len() implies crate::text::is_ascii_digit(#[trigger] decimal(n)[i]) by {
            if i < s.len() {
                assert(decimal(n)[i] == s[i]);
            }
        }
    }
}

/// A position written out in decimal reads back as the same position.
pub proof fn law_position_reads_back(n: usize)
    ensures
        parsed_usize(decimal(n as nat)) == Some(n),
{
    lemma_decimal_digits(n as nat);
}

} // verus!
