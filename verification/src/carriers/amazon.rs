//! Amazon Logistics (TBA…). Amazon's recipient-facing tracker serves its
//! data from an unauthenticated JSON endpoint. Its sub-documents
//! (`progressTracker`, `eventHistory`) arrive as JSON-encoded strings
//! inside the outer document and are decoded before reading.

use vstd::prelude::*;
use crate::api::{get_in, opt_text, raw_view, str_in, text_or, text_or_default, ErrorView, TrackError};
use crate::carriers::{carrier_datetime, join_location, joined, parse_carrier_datetime, part_texts, present_parts};
use crate::json::{
    self, json_view, opt_array, opt_get, opt_str, opt_view, parsed_json, plain_token, pointer_path,
    view_array, view_get, view_str, views_of, JsonView,
};
use crate::models::{event_view, event_views, TrackingEvent, TrackingInfo};
use crate::order::{sort_newest_first, sorted_events, EventTriple};
use crate::text::{
    char_to_uppercase, char_uppercase_of, concat3, has_substring, lowercase_of, owned,
    replace_char, replace_char_spec, str_contains, str_eq, to_lowercase, to_uppercase, uppercase_of,
};
use crate::time::UtcTime;

verus! {

/// The tracker's address.
pub const API_BASE: &'static str = "https://track.amazon.com";

/// The Amazon Logistics provider.
pub struct Amazon;

impl Amazon {
    /// The tracker endpoint for a tracking number.
    pub fn tracker_url(&self, tracking_number: &str) -> (r: String)
        ensures
            r@ == "https://track.amazon.com"@ + "/api/tracker/"@ + tracking_number@,
    {
        concat3(API_BASE, "/api/tracker/", tracking_number)
    }
}

/// A sub-document that may be inline JSON or a JSON-encoded string: a
/// string member is decoded (nothing when it is not JSON), a null member
/// is nothing, any other member is itself.
pub open spec fn nested_view(j: JsonView, key: Seq<char>) -> Option<JsonView> {
    match view_get(j, key) {
        Some(m) => match m {
            JsonView::Str(s) => parsed_json(s),
            JsonView::Null => None,
            _ => Some(m),
        },
        None => None,
    }
}

/// Fetches a sub-document that may be inline JSON or a JSON-encoded string.
pub fn nested(v: &serde_json::Value, key: &str) -> (r: Option<serde_json::Value>)
    ensures
        raw_view(r) == nested_view(json_view(*v), key@),
{
    match json::get(v, key) {
        Some(m) => {
            match json::as_str(m) {
                Some(s) => match json::parse_json(s) {
                    Ok(d) => Some(d),
                    Err(_) => None,
                },
                None => {
                    if json::is_null(m) {
                        None
                    } else {
                        Some(json::clone_value(m))
                    }
                },
            }
        },
        None => None,
    }
}

/// A status or event code made readable: underscores become spaces, the
/// text is lower-cased and its first character upper-cased
/// ("OUT_FOR_DELIVERY" → "Out for delivery").
pub open spec fn humanized(code: Seq<char>) -> Seq<char> {
    let s = lowercase_of(replace_char_spec(code, '_', ' '));
    if s.len() == 0 {
        s
    } else {
        char_uppercase_of(s[0]) + s.drop_first()
    }
}

/// Makes a status or event code readable ("OUT_FOR_DELIVERY" → "Out for delivery").
pub fn humanize(code: &str) -> (r: String)
    ensures
        r@ == humanized(code@),
{
    let spaced = replace_char(code, '_', ' ');
    let s = to_lowercase(spaced.as_str());
    let n = s.as_str().unicode_len();
    if n == 0 {
        return s;
    }
    let first = s.as_str().get_char(0);
    let rest = s.as_str().substring_char(1, n);
    let mut r = char_to_uppercase(first);
    r.append(rest);
    assert(s@.subrange(1, n as int) =~= s@.drop_first());
    r
}

/// The shared status vocabulary for an Amazon status or event code.
pub open spec fn mapped_status(code: Seq<char>) -> Seq<char> {
    let c = uppercase_of(code);
    if has_substring(c, "DELIVERED"@) && !has_substring(c, "UNDELIVER"@) {
        "Delivered"@
    } else if has_substring(c, "OUT_FOR_DELIVERY"@) {
        "OutForDelivery"@
    } else if c == "CREATED"@ || c == "MANIFESTED"@ || c == "ORDER_RECEIVED"@ || c
        == "SHIPPING_LABEL_CREATED"@ {
        "InfoReceived"@
    } else if c == "UNDELIVERABLE"@ || c == "DELIVERY_ATTEMPTED"@ || c == "REJECTED"@ || c
        == "LOST"@ || c == "DAMAGED"@ || c == "RETURNED"@ || c == "RETURNING"@ {
        "Exception"@
    } else {
        "InTransit"@
    }
}

/// Maps Amazon status and event codes onto the shared status vocabulary.
pub fn map_status(code: &str) -> (r: String)
    ensures
        r@ == mapped_status(code@),
{
    let upper = to_uppercase(code);
    let c = upper.as_str();
    if str_contains(c, "DELIVERED") && !str_contains(c, "UNDELIVER") {
        return owned("Delivered");
    }
    if str_contains(c, "OUT_FOR_DELIVERY") {
        return owned("OutForDelivery");
    }
    if str_eq(c, "CREATED") || str_eq(c, "MANIFESTED") || str_eq(c, "ORDER_RECEIVED") || str_eq(
        c,
        "SHIPPING_LABEL_CREATED",
    ) {
        return owned("InfoReceived");
    }
    if str_eq(c, "UNDELIVERABLE") || str_eq(c, "DELIVERY_ATTEMPTED") || str_eq(c, "REJECTED")
        || str_eq(c, "LOST") || str_eq(c, "DAMAGED") || str_eq(c, "RETURNED") || str_eq(
        c,
        "RETURNING",
    ) {
        return owned("Exception");
    }
    owned("InTransit")
}


/// The location of a history event: city, state and country, present
/// parts joined with `, `.
pub open spec fn event_location(ev: JsonView) -> Seq<char> {
    let loc = view_get(ev, "location"@);
    joined(
        present_parts(
            seq![
                opt_str(opt_get(loc, "city"@)),
                opt_str(opt_get(loc, "stateProvince"@)),
                opt_str(opt_get(loc, "countryCode"@)),
            ],
        ),
        ", "@,
    )
}

/// A history entry as an event; nothing when it has no readable time.
pub open spec fn event_of(ev: JsonView) -> Option<EventTriple> {
    match opt_str(view_get(ev, "eventTime"@)) {
        Some(t) => match carrier_datetime(t) {
            Some(d) => Some(
                (d, humanized(text_or(opt_str(view_get(ev, "eventCode"@)), ""@)), event_location(ev)),
            ),
            None => None,
        },
        None => None,
    }
}

/// The events of a history, in the history's order, entries without a
/// readable time left out.
pub open spec fn events_of(items: Seq<JsonView>) -> Seq<EventTriple>
    decreases items.len(),
{
    if items.len() == 0 {
        seq![]
    } else {
        match event_of(items.last()) {
            Some(e) => events_of(items.drop_last()).push(e),
            None => events_of(items.drop_last()),
        }
    }
}

/// The entries of the (decoded) event history.
pub open spec fn history_items(j: JsonView) -> Seq<JsonView> {
    match opt_array(opt_get(nested_view(j, "eventHistory"@), "eventHistory"@)) {
        Some(a) => a,
        None => seq![],
    }
}

/// How the tracker's reply reads.
pub enum AmazonView {
    Failed(ErrorView),
    Parsed {
        code: Seq<char>,
        text: Seq<char>,
        location: Option<Seq<char>>,
        eta: Option<UtcTime>,
        events: Seq<EventTriple>,
        raw: JsonView,
    },
}

/// The message of the first reported error: its `errorMessage` when that
/// member exists, else its `errorCode`, as text.
pub open spec fn first_error_message(err: JsonView) -> Seq<char> {
    let m = match view_get(err, "errorMessage"@) {
        Some(x) => Some(x),
        None => view_get(err, "errorCode"@),
    };
    text_or(opt_str(m), "tracking error"@)
}

/// How the tracker's reply reads: the progress tracker must be there and
/// report no error; the status is the summary's, else the newest event's.
pub open spec fn amazon_view(j: JsonView) -> AmazonView {
    match nested_view(j, "progressTracker"@) {
        None => AmazonView::Failed(ErrorView::NoProgressTracker),
        Some(p) => {
            let errs: Seq<JsonView> = match opt_array(view_get(p, "errors"@)) {
                Some(es) => es,
                None => seq![],
            };
            if errs.len() > 0 {
                AmazonView::Failed(ErrorView::Amazon(first_error_message(errs[0])))
            } else {
                let summary = text_or(opt_str(opt_get(view_get(p, "summary"@), "status"@)), ""@);
                let eta = match opt_str(view_get(p, "expectedDeliveryDate"@)) {
                    Some(s) => carrier_datetime(s),
                    None => None,
                };
                let evs = sorted_events(events_of(history_items(j)));
                let location = if evs.len() > 0 && evs[0].2.len() > 0 {
                    Some(evs[0].2)
                } else {
                    None
                };
                let effective = if summary.len() == 0 {
                    if evs.len() > 0 {
                        evs[0].1
                    } else {
                        ""@
                    }
                } else {
                    summary
                };
                AmazonView::Parsed {
                    code: mapped_status(replace_char_spec(effective, ' ', '_')),
                    text: if effective.len() == 0 {
                        "In transit"@
                    } else {
                        humanized(effective)
                    },
                    location,
                    eta,
                    events: evs,
                    raw: j,
                }
            }
        },
    }
}

/// A history entry as an event; nothing when it has no readable time.
fn read_event(ev: &serde_json::Value) -> (r: Option<TrackingEvent>)
    ensures
        match r {
            Some(e) => event_of(json_view(*ev)) == Some(event_view(e)),
            None => event_of(json_view(*ev)) is None,
        },
{
    let time = match json::get(ev, "eventTime") {
        Some(t) => json::as_str(t),
        None => None,
    };
    let date = match time {
        Some(t) => parse_carrier_datetime(t),
        None => None,
    };
    match date {
        Some(d) => {
            let code = str_in(json::get(ev, "eventCode"));
            let code_text = text_or_default(code, "");
            let loc = json::get(ev, "location");
            let city = str_in(get_in(loc, "city"));
            let state = str_in(get_in(loc, "stateProvince"));
            let country = str_in(get_in(loc, "countryCode"));
            let parts: [Option<&str>; 3] = [city, state, country];
            let location = join_location(&parts);
            assert(part_texts(parts@) =~= seq![
                opt_str(opt_get(view_get(json_view(*ev), "location"@), "city"@)),
                opt_str(opt_get(view_get(json_view(*ev), "location"@), "stateProvince"@)),
                opt_str(opt_get(view_get(json_view(*ev), "location"@), "countryCode"@)),
            ]);
            Some(TrackingEvent { date: d, description: humanize(code_text.as_str()), location })
        },
        None => None,
    }
}

/// The events of the history entries, in order, unreadable ones left out.
fn read_events(items: &Vec<serde_json::Value>) -> (r: Vec<TrackingEvent>)
    ensures
        event_views(r@) == events_of(views_of(items@)),
{
    let ghost views = views_of(items@);
    let mut r: Vec<TrackingEvent> = Vec::new();
    let mut i: usize = 0;
    while i < items.len()
        invariant
            i <= items.len(),
            views == views_of(items@),
            event_views(r@) == events_of(views.subrange(0, i as int)),
        decreases items.len() - i,
    {
        assert(views.subrange(0, i + 1).drop_last() =~= views.subrange(0, i as int));
        assert(views.subrange(0, i + 1).last() == json_view(items@[i as int]));
        match read_event(&items[i]) {
            Some(e) => {
                r.push(e);
            },
            None => {},
        }
        i = i + 1;
        assert(event_views(r@) =~= events_of(views.subrange(0, i as int)));
    }
    assert(views.subrange(0, items@.len() as int) =~= views);
    r
}

/// What reading a parsed reply gives: `r` agrees with the reply's reading.
pub open spec fn amazon_result(view: AmazonView, r: Result<TrackingInfo, TrackError>) -> bool {
    match view {
        AmazonView::Failed(e) => r matches Err(err) && err@ == e,
        AmazonView::Parsed { code, text, location, eta, events, raw } => r matches Ok(info)
            && info.status_code@ == code && opt_text(info.status_text) == Some(text) && opt_text(
            info.current_location,
        ) == location && info.estimated_delivery_date == eta && crate::models::event_views(
            info.events@,
        ) == events && raw_view(info.raw_data) == Some(raw),
    }
}

/// Reads the text of the tracker's reply: an error when it is not JSON
/// ("Amazon tracker: invalid JSON"), else as `parse_response` reads it.
pub fn amazon_reply(text: &str) -> (r: Result<TrackingInfo, TrackError>)
    ensures
        match parsed_json(text@) {
            Some(j) => amazon_result(amazon_view(j), r),
            None => r matches Err(e) && e@ == ErrorView::InvalidJson("Amazon tracker: invalid JSON"@),
        },
{
    match json::parse_json(text) {
        Ok(v) => parse_response(&v),
        Err(_) => Err(TrackError::InvalidJson(owned("Amazon tracker: invalid JSON"))),
    }
}

/// Reads the tracker's reply: a decoded progress tracker with no reported
/// error, the summary status (else the newest event's), the expected
/// delivery date and the event history, newest first.
pub fn parse_response(v: &serde_json::Value) -> (r: Result<TrackingInfo, TrackError>)
    ensures
        match amazon_view(json_view(*v)) {
            AmazonView::Failed(e) => r matches Err(err) && err@ == e,
            AmazonView::Parsed { code, text, location, eta, events, raw } => r matches Ok(info)
                && info.status_code@ == code && opt_text(info.status_text) == Some(text) && opt_text(
                info.current_location,
            ) == location && info.estimated_delivery_date == eta && crate::models::event_views(
                info.events@,
            ) == events && raw_view(info.raw_data) == Some(raw),
        },
{
    let progress = match nested(v, "progressTracker") {
        Some(p) => p,
        None => {
            return Err(TrackError::NoProgressTracker);
        },
    };
    let errors = match json::get(&progress, "errors") {
        Some(e) => json::as_array(e),
        None => None,
    };
    if let Some(es) = errors {
        if es.len() > 0 {
            let err = &es[0];
            let m = match json::get(err, "errorMessage") {
                Some(x) => Some(x),
                None => json::get(err, "errorCode"),
            };
            return Err(TrackError::Amazon(text_or_default(str_in(m), "tracking error")));
        }
    }
    let summary_ref = json::pointer(&progress, "/summary/status");
    proof {
        reveal_strlit("/summary/status");
        reveal_strlit("summary");
        reveal_strlit("status");
        assert("/summary/status"@ =~= pointer_path("summary"@, "status"@));
        assert(plain_token("summary"@)) by {
            assert(!('0' <= "summary"@[0] <= '9'));
        }
        assert(plain_token("status"@)) by {
            assert(!('0' <= "status"@[0] <= '9'));
        }
    }
    let summary = text_or_default(str_in(summary_ref), "");
    let eta = match json::get(&progress, "expectedDeliveryDate") {
        Some(d) => match json::as_str(d) {
            Some(s) => parse_carrier_datetime(s),
            None => None,
        },
        None => None,
    };
    let history = nested(v, "eventHistory");
    let items = match &history {
        Some(h) => match json::get(h, "eventHistory") {
            Some(e) => json::as_array(e),
            None => None,
        },
        None => None,
    };
    let raw_events = match items {
        Some(a) => read_events(a),
        None => Vec::new(),
    };
    let events = sort_newest_first(&raw_events);
    assert(event_views(events@).len() == events@.len());
    assert(events@.len() > 0 ==> event_views(events@)[0] == event_view(events@[0]));
    assert(summary@ == text_or(
        opt_str(opt_get(view_get(json_view(progress), "summary"@), "status"@)),
        ""@,
    ));
    let current_location = if events.len() > 0 && !events[0].location.as_str().is_empty() {
        Some(events[0].location.clone())
    } else {
        None
    };
    let effective = if summary.as_str().is_empty() {
        if events.len() > 0 {
            events[0].description.clone()
        } else {
            owned("")
        }
    } else {
        summary
    };
    let underscored = replace_char(effective.as_str(), ' ', '_');
    let status_code = map_status(underscored.as_str());
    let status_text = if effective.as_str().is_empty() {
        owned("In transit")
    } else {
        humanize(effective.as_str())
    };
    Ok(TrackingInfo {
        status_code,
        status_text: Some(status_text),
        current_location,
        estimated_delivery_date: eta,
        events,
        raw_data: Some(json::clone_value(v)),
    })
}

} // verus!
