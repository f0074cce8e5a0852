//! The machine-readable status document (`status --json`). Its shape is a
//! stable contract for the shell plugin that reads it: bump `version` on
//! breaking changes.

use vstd::prelude::*;
use crate::api::{get_tracking_url, opt_text, tracking_url};
use crate::bar::{format_eta_smart_at, resolve_bar_index, smart_eta};
use crate::json::{self, json_view, object_of, entries_view, views_of, pretty_json, JsonView};
use crate::models::{
    carrier_name, days_until_at, event_views, info_status_text, parcel_state, resolved_carrier_of,
    state_name, Config, Parcel, TrackingEvent,
};
use crate::order::{sort_newest_first, sorted_events, EventTriple};
use crate::text::owned;
use crate::time::{four_digit_year, rfc3339_of, to_rfc3339, utc_now, UtcTime};

verus! {

/// An optional text as a string or `null`.
pub open spec fn text_json(o: Option<Seq<char>>) -> JsonView {
    match o {
        Some(s) => JsonView::Str(s),
        None => JsonView::Null,
    }
}

/// An instant as an RFC 3339 string (`null` when chrono cannot hold it).
pub open spec fn time_json(t: UtcTime) -> JsonView {
    text_json(rfc3339_of(t.secs, t.nanos))
}

/// An optional instant as an RFC 3339 string or `null`.
pub open spec fn opt_time_json(o: Option<UtcTime>) -> JsonView {
    match o {
        Some(t) => time_json(t),
        None => JsonView::Null,
    }
}

/// One event of the document.
pub open spec fn event_json(e: EventTriple) -> JsonView {
    JsonView::Object(
        object_of(
            seq![("time"@, time_json(e.0)), ("description"@, JsonView::Str(e.1)), ("location"@, JsonView::Str(e.2))],
        ),
    )
}

/// A parcel's events (none without tracking information).
pub open spec fn parcel_events(p: Parcel) -> Seq<EventTriple> {
    match p.tracking_info {
        Some(info) => event_views(info.events@),
        None => seq![],
    }
}

/// A parcel's estimated delivery.
pub open spec fn parcel_eta(p: Parcel) -> Option<UtcTime> {
    match p.tracking_info {
        Some(info) => info.estimated_delivery_date,
        None => None,
    }
}

/// A label fits a parcel: `null` without an estimate, else the smart
/// label of the estimate's RFC 3339 text seen from `now` under some UTC
/// offsets of the machine (in a year of four digits, seen from an instant
/// chrono holds, offsets of less than a day).
pub open spec fn label_fits(p: Parcel, now: UtcTime, label: JsonView) -> bool {
    match parcel_eta(p) {
        None => label == JsonView::Null,
        Some(t) => match rfc3339_of(t.secs, t.nanos) {
            Some(s) => {
                &&& exists|o1: Option<i32>, o2: Option<i32>|
                    label == JsonView::Str(smart_eta(s, now, o1, o2))
                &&& four_digit_year(t) && rfc3339_of(now.secs, now.nanos) is Some ==> exists|o1: i32, o2: i32|
                    -86400 < o1 < 86400 && -86400 < o2 < 86400
                        && label == JsonView::Str(#[trigger] smart_eta(s, now, Some(o1), Some(o2)))
            },
            None => label == JsonView::Null,
        },
    }
}

/// One parcel of the document, with its estimate's label.
pub open spec fn item_json(p: Parcel, now: UtcTime, label: JsonView) -> JsonView {
    let carrier = resolved_carrier_of(p);
    JsonView::Object(
        object_of(
            seq![
                ("id"@, JsonView::Str(p.id@)),
                ("trackingNumber"@, JsonView::Str(p.tracking_number@)),
                ("carrier"@, JsonView::Str(carrier_name(carrier))),
                ("description"@, JsonView::Str(p.description@)),
                ("state"@, JsonView::Str(state_name(parcel_state(p)))),
                ("statusText"@, match p.tracking_info {
                    Some(info) => JsonView::Str(info_status_text(info)),
                    None => JsonView::Null,
                }),
                ("location"@, match p.tracking_info {
                    Some(info) => text_json(opt_text(info.current_location)),
                    None => JsonView::Null,
                }),
                ("eta"@, opt_time_json(parcel_eta(p))),
                ("etaLabel"@, label),
                ("daysUntilDelivery"@, match days_until_at(p, now) {
                    Some(d) => JsonView::Int(d),
                    None => JsonView::Null,
                }),
                ("lastUpdated"@, opt_time_json(p.last_updated)),
                ("trackingUrl"@, text_json(tracking_url(carrier, p.tracking_number@))),
                ("events"@, JsonView::Array(
                    sorted_events(parcel_events(p)).map_values(|e: EventTriple| event_json(e)),
                )),
            ],
        ),
    )
}

/// The whole document, given each parcel's label.
pub open spec fn document_json(
    ps: Seq<Parcel>,
    selected: Option<Seq<char>>,
    now: UtcTime,
    labels: Seq<JsonView>,
) -> JsonView {
    JsonView::Object(
        object_of(
            seq![
                ("version"@, JsonView::Int(1)),
                ("generatedAt"@, time_json(now)),
                ("selected"@, text_json(selected)),
                ("parcels"@, JsonView::Array(
                    Seq::new(ps.len(), |i: int| item_json(ps[i], now, labels[i])),
                )),
            ],
        ),
    )
}

/// Each parcel has a label that fits it.
pub open spec fn labels_fit(ps: Seq<Parcel>, now: UtcTime, labels: Seq<JsonView>) -> bool {
    &&& labels.len() == ps.len()
    &&& forall|i: int| 0 <= i < ps.len() ==> label_fits(ps[i], now, #[trigger] labels[i])
}

/// The document led by the parcel that leads the bar at `now`.
pub open spec fn status_document(ps: Seq<Parcel>, config: Config, now: UtcTime, labels: Seq<JsonView>) -> JsonView {
    document_json(
        ps,
        match crate::bar::bar_index(ps, config, now) {
            Some(i) => Some(ps[i].tracking_number@),
            None => None,
        },
        now,
        labels,
    )
}

/// An optional text as a JSON string or `null`.
fn text_value(o: Option<String>) -> (r: serde_json::Value)
    ensures
        json_view(r) == text_json(opt_text(o)),
{
    match o {
        Some(s) => json::string(s),
        None => json::null(),
    }
}

/// An instant as a JSON RFC 3339 string or `null`.
fn time_value(t: UtcTime) -> (r: serde_json::Value)
    ensures
        json_view(r) == time_json(t),
{
    text_value(to_rfc3339(t))
}

/// One event of the document.
fn event_value(e: &TrackingEvent) -> (r: serde_json::Value)
    ensures
        json_view(r) == event_json(crate::models::event_view(*e)),
{
    let entries = vec![
        (owned("time"), time_value(e.date)),
        (owned("description"), json::string(e.description.clone())),
        (owned("location"), json::string(e.location.clone())),
    ];
    assert(entries_view(entries@) =~= seq![
        ("time"@, time_json(e.date)),
        ("description"@, JsonView::Str(e.description@)),
        ("location"@, JsonView::Str(e.location@)),
    ]);
    json::object(entries)
}

/// A parcel's events, newest first.
fn events_value(p: &Parcel) -> (r: serde_json::Value)
    ensures
        json_view(r) == JsonView::Array(
            sorted_events(parcel_events(*p)).map_values(|e: EventTriple| event_json(e)),
        ),
{
    let empty: Vec<TrackingEvent> = Vec::new();
    let events = match &p.tracking_info {
        Some(info) => sort_newest_first(&info.events),
        None => sort_newest_first(&empty),
    };
    assert(event_views(empty@) =~= seq![]);
    let ghost target = sorted_events(parcel_events(*p)).map_values(|e: EventTriple| event_json(e));
    let mut items: Vec<serde_json::Value> = Vec::new();
    let mut i: usize = 0;
    while i < events.len()
        invariant
            i <= events.len(),
            event_views(events@) == sorted_events(parcel_events(*p)),
            target == sorted_events(parcel_events(*p)).map_values(|e: EventTriple| event_json(e)),
            views_of(items@) =~= target.subrange(0, i as int),
        decreases events.len() - i,
    {
        let v = event_value(&events[i]);
        assert(event_views(events@)[i as int] == crate::models::event_view(events@[i as int]));
        let ghost old_items = items@;
        items.push(v);
        assert(items@ =~= old_items.push(v));
        assert(views_of(items@) =~= views_of(old_items).push(json_view(v)));
        i = i + 1;
    }
    assert(target.subrange(0, events@.len() as int) =~= target);
    json::array(items)
}

/// One parcel of the document, and its label.
fn item_value(p: &Parcel, now: UtcTime) -> (r: (serde_json::Value, Ghost<JsonView>))
    ensures
        label_fits(*p, now, r.1@),
        json_view(r.0) == item_json(*p, now, r.1@),
{
    let carrier = p.resolved_carrier();
    let status_text = match &p.tracking_info {
        Some(info) => json::string(info.status_text()),
        None => json::null(),
    };
    let location = match &p.tracking_info {
        Some(info) => match &info.current_location {
            Some(l) => json::string(l.clone()),
            None => json::null(),
        },
        None => json::null(),
    };
    let eta: Option<UtcTime> = match &p.tracking_info {
        Some(info) => info.estimated_delivery_date,
        None => None,
    };
    let (eta_value, label_value) = match eta {
        Some(t) => match to_rfc3339(t) {
            Some(text) => {
                let label = format_eta_smart_at(text.as_str(), now);
                (json::string(text), json::string(label))
            },
            None => (json::null(), json::null()),
        },
        None => (json::null(), json::null()),
    };
    let days = match p.days_until_delivery_at(now) {
        Some(d) => json::integer(d),
        None => json::null(),
    };
    let last_updated = match p.last_updated {
        Some(t) => time_value(t),
        None => json::null(),
    };
    let url = text_value(get_tracking_url(&carrier, p.tracking_number.as_str()));
    let events = events_value(p);
    let ghost label = json_view(label_value);
    assert(json_view(status_text) == match p.tracking_info {
        Some(info) => JsonView::Str(info_status_text(info)),
        None => JsonView::Null,
    });
    assert(json_view(location) == match p.tracking_info {
        Some(info) => text_json(opt_text(info.current_location)),
        None => JsonView::Null,
    });
    assert(json_view(eta_value) == opt_time_json(parcel_eta(*p)));
    assert(json_view(days) == match days_until_at(*p, now) {
        Some(d) => JsonView::Int(d),
        None => JsonView::Null,
    });
    assert(json_view(last_updated) == opt_time_json(p.last_updated));
    assert(json_view(url) == text_json(tracking_url(carrier, p.tracking_number@)));
    assert(label_fits(*p, now, label));
    let ghost expected = seq![
        ("id"@, JsonView::Str(p.id@)),
        ("trackingNumber"@, JsonView::Str(p.tracking_number@)),
        ("carrier"@, JsonView::Str(carrier_name(carrier))),
        ("description"@, JsonView::Str(p.description@)),
        ("state"@, JsonView::Str(state_name(parcel_state(*p)))),
        ("statusText"@, json_view(status_text)),
        ("location"@, json_view(location)),
        ("eta"@, json_view(eta_value)),
        ("etaLabel"@, label),
        ("daysUntilDelivery"@, json_view(days)),
        ("lastUpdated"@, json_view(last_updated)),
        ("trackingUrl"@, json_view(url)),
        ("events"@, json_view(events)),
    ];
    let entries = vec![
        (owned("id"), json::string(p.id.clone())),
        (owned("trackingNumber"), json::string(p.tracking_number.clone())),
        (owned("carrier"), json::string(owned(carrier.name()))),
        (owned("description"), json::string(p.description.clone())),
        (owned("state"), json::string(owned(p.status_state()))),
        (owned("statusText"), status_text),
        (owned("location"), location),
        (owned("eta"), eta_value),
        (owned("etaLabel"), label_value),
        (owned("daysUntilDelivery"), days),
        (owned("lastUpdated"), last_updated),
        (owned("trackingUrl"), url),
        (owned("events"), events),
    ];
    assert(entries_view(entries@) =~= expected);
    assert(expected =~= seq![
        ("id"@, JsonView::Str(p.id@)),
        ("trackingNumber"@, JsonView::Str(p.tracking_number@)),
        ("carrier"@, JsonView::Str(carrier_name(resolved_carrier_of(*p)))),
        ("description"@, JsonView::Str(p.description@)),
        ("state"@, JsonView::Str(state_name(parcel_state(*p)))),
        ("statusText"@, match p.tracking_info {
            Some(info) => JsonView::Str(info_status_text(info)),
            None => JsonView::Null,
        }),
        ("location"@, match p.tracking_info {
            Some(info) => text_json(opt_text(info.current_location)),
            None => JsonView::Null,
        }),
        ("eta"@, opt_time_json(parcel_eta(*p))),
        ("etaLabel"@, label),
        ("daysUntilDelivery"@, match days_until_at(*p, now) {
            Some(d) => JsonView::Int(d),
            None => JsonView::Null,
        }),
        ("lastUpdated"@, opt_time_json(p.last_updated)),
        ("trackingUrl"@, text_json(tracking_url(resolved_carrier_of(*p), p.tracking_number@))),
        ("events"@, JsonView::Array(
            sorted_events(parcel_events(*p)).map_values(|e: EventTriple| event_json(e)),
        )),
    ]);
    let r = json::object(entries);
    assert(json_view(r) == item_json(*p, now, label));
    (r, Ghost(label))
}

/// Builds the status document: `version`, `generatedAt` (`now`),
/// `selected` (the tracking number the bar leads with) and one entry per
/// parcel with its state, status, location, estimate and its label, days
/// until delivery counted from `now`, last update, tracking page and
/// events newest first.
pub fn build_json(parcels: &Vec<Parcel>, selected: Option<&str>, now: UtcTime) -> (r: serde_json::Value)
    ensures
        exists|labels: Seq<JsonView>|
            #[trigger] labels_fit(parcels@, now, labels) && json_view(r) == document_json(
                parcels@,
                match selected {
                    Some(s) => Some(s@),
                    None => None,
                },
                now,
                labels,
            ),
{
    let mut items: Vec<serde_json::Value> = Vec::new();
    let ghost mut labels: Seq<JsonView> = seq![];
    let mut i: usize = 0;
    while i < parcels.len()
        invariant
            i <= parcels.len(),
            labels.len() == i,
            items@.len() == i,
            forall|k: int| 0 <= k < i ==> label_fits(parcels@[k], now, #[trigger] labels[k]),
            forall|k: int| 0 <= k < i ==> #[trigger] json_view(items@[k]) == item_json(parcels@[k], now, labels[k]),
        decreases parcels.len() - i,
    {
        let (v, label) = item_value(&parcels[i], now);
        items.push(v);
        proof {
            labels = labels.push(label@);
        }
        i = i + 1;
    }
    let parcels_value = json::array(items);
    assert(views_of(items@) =~= Seq::new(parcels@.len(), |k: int| item_json(parcels@[k], now, labels[k])));
    let selected_value = match selected {
        Some(s) => json::string(owned(s)),
        None => json::null(),
    };
    let entries = vec![
        (owned("version"), json::integer(1)),
        (owned("generatedAt"), time_value(now)),
        (owned("selected"), selected_value),
        (owned("parcels"), parcels_value),
    ];
    let ghost sel = match selected {
        Some(s) => Some(s@),
        None => None,
    };
    assert(entries_view(entries@) =~= seq![
        ("version"@, JsonView::Int(1)),
        ("generatedAt"@, time_json(now)),
        ("selected"@, text_json(sel)),
        ("parcels"@, JsonView::Array(Seq::new(parcels@.len(), |k: int| item_json(parcels@[k], now, labels[k])))),
    ]);
    let r = json::object(entries);
    assert(json_view(r) == document_json(parcels@, sel, now, labels));
    assert(labels_fit(parcels@, now, labels));
    r
}

/// Why the status document could not be written out.
#[derive(Debug)]
pub struct OutputError {
    pub message: String,
}

/// The status document as pretty-printed JSON, led by the parcel that
/// leads the bar; the clock is read once for both.
pub fn get_json_output(parcels: &Vec<Parcel>, config: &Config) -> (r: Result<String, OutputError>)
    ensures
        r matches Ok(text) && exists|now: UtcTime, labels: Seq<JsonView>|
            labels_fit(parcels@, now, labels) && text@ == pretty_json(
                #[trigger] status_document(parcels@, *config, now, labels),
            ),
{
    let now = utc_now();
    let selected: Option<String> = match resolve_bar_index(parcels, config, now) {
        Some(i) => Some(parcels[i].tracking_number.clone()),
        None => None,
    };
    let doc = match &selected {
        Some(s) => build_json(parcels, Some(s.as_str()), now),
        None => build_json(parcels, None, now),
    };
    let ghost sel = match crate::bar::bar_index(parcels@, *config, now) {
        Some(i) => Some(parcels@[i].tracking_number@),
        None => None,
    };
    let ghost labels = choose|labels: Seq<JsonView>|
        labels_fit(parcels@, now, labels) && json_view(doc) == document_json(parcels@, sel, now, labels);
    match json::to_pretty_text(&doc) {
        Ok(text) => {
            assert(labels_fit(parcels@, now, labels) && text@ == pretty_json(
                status_document(parcels@, *config, now, labels),
            ));
            Ok(text)
        },
        Err(e) => Err(OutputError { message: json::json_error_text(&e) }),
    }
}

} // verus!
