//! The 17track aggregator: carrier codes, tracking-page links, the
//! requests sent to it and the reading of its replies. Sending the
//! requests is left to the caller; everything decided here is verified.

use vstd::prelude::*;
use crate::json::{
    self, json_view, opt_array, opt_get, opt_str, opt_view, parsed_json, view_array, view_get, view_i64,
    view_str, views_of, JsonView,
};
use crate::models::{
    detected_carrier, first_matching, named_carrier, carrier_from_setting,
    carrier_of_first_match, Carrier, Parcel, TrackingEvent, TrackingInfo,
};
use crate::pattern::{match_each, matches_of, upper_alphanumeric_outcome};
use crate::text::{
    all_ascii_digits, all_upper_alphanumeric, digits_between, is_ascii_digit, is_ascii_upper,
    lemma_upper_alphanumeric_normal,
    concat2, i64_decimal, owned, remove_char, signed_decimal, to_uppercase, upper_text, without_char};
use crate::time::{at_time_of_day, day_at, naive_date_days, parse_naive_date, parse_rfc3339, rfc3339_instant, UtcTime};

verus! {

// ---------------------------------------------------------------------------
// Errors
// ---------------------------------------------------------------------------

/// Why tracking information could not be had.
#[derive(Debug)]
pub enum TrackError {
    /// The aggregator reported an error (`API error: ...`).
    Api(String),
    /// The aggregator answered with a non-zero code (`API error <code>: ...`).
    ApiStatus(i32, String),
    /// The aggregator rejected the number (`Rejected by 17track: ...`).
    Rejected(String),
    /// No carrier could be detected for the number.
    UnknownCarrier(String),
    /// The reply was not JSON; the text is the parser's message.
    InvalidJson(String),
    /// The Amazon tracker's reply had no progress tracker.
    NoProgressTracker,
    /// The Amazon tracker reported an error (`Amazon: ...`).
    Amazon(String),
}

/// A tracking error as mathematical values.
pub enum ErrorView {
    Api(Seq<char>),
    ApiStatus(i32, Seq<char>),
    Rejected(Seq<char>),
    UnknownCarrier(Seq<char>),
    InvalidJson(Seq<char>),
    NoProgressTracker,
    Amazon(Seq<char>),
}

impl View for TrackError {
    type V = ErrorView;

    open spec fn view(&self) -> ErrorView {
        match self {
            TrackError::Api(m) => ErrorView::Api(m@),
            TrackError::ApiStatus(c, m) => ErrorView::ApiStatus(*c, m@),
            TrackError::Rejected(m) => ErrorView::Rejected(m@),
            TrackError::UnknownCarrier(n) => ErrorView::UnknownCarrier(n@),
            TrackError::InvalidJson(m) => ErrorView::InvalidJson(m@),
            TrackError::NoProgressTracker => ErrorView::NoProgressTracker,
            TrackError::Amazon(m) => ErrorView::Amazon(m@),
        }
    }
}

/// The message of an error, as it is shown to the user.
pub open spec fn error_message(e: ErrorView) -> Seq<char> {
    match e {
        ErrorView::Api(m) => "API error: "@ + m,
        ErrorView::ApiStatus(c, m) => "API error "@ + signed_decimal(c as int) + ": "@ + m,
        ErrorView::Rejected(m) => "Rejected by 17track: "@ + m,
        ErrorView::UnknownCarrier(n) => "Could not detect carrier for "@ + n,
        ErrorView::InvalidJson(m) => m,
        ErrorView::NoProgressTracker => "Amazon tracker: no progressTracker in response"@,
        ErrorView::Amazon(m) => "Amazon: "@ + m,
    }
}

impl TrackError {
    /// The message of the error, as it is shown to the user.
    pub fn message(&self) -> (r: String)
        ensures
            r@ == error_message(self@),
    {
        match self {
            TrackError::Api(m) => concat2("API error: ", m.as_str()),
            TrackError::ApiStatus(c, m) => {
                let code = i64_decimal(*c as i64);
                let mut r = owned("API error ");
                r.append(code.as_str());
                r.append(": ");
                r.append(m.as_str());
                r
            },
            TrackError::Rejected(m) => concat2("Rejected by 17track: ", m.as_str()),
            TrackError::UnknownCarrier(n) => concat2("Could not detect carrier for ", n.as_str()),
            TrackError::InvalidJson(m) => m.clone(),
            TrackError::NoProgressTracker => owned("Amazon tracker: no progressTracker in response"),
            TrackError::Amazon(m) => concat2("Amazon: ", m.as_str()),
        }
    }
}

// ---------------------------------------------------------------------------
// Carriers on the aggregator
// ---------------------------------------------------------------------------

/// The patterns of the aggregator's own detection, in the order tried.
pub open spec fn api_patterns() -> Seq<Seq<char>> {
    seq![
        "^1Z[A-Z0-9]{16}$"@,
        "^\\d{12}$|^\\d{15}$"@,
        "^\\d{20,22}$|^9400\\d{16,}$"@,
        "^\\d{10}$|^JJD\\d{12,}$"@,
        "^[A-Z]{2}\\d{9}CA$"@,
        "^C\\d{14}$|^D\\d{14}$"@,
    ]
}

/// The carrier each pattern of `api_patterns` stands for.
pub open spec fn api_carriers() -> Seq<Carrier> {
    seq![Carrier::UPS, Carrier::FedEx, Carrier::USPS, Carrier::DHL, Carrier::CanadaPost, Carrier::OnTrac]
}

/// What `detect_carrier` finds for a tracking number: the carrier of the
/// first pattern matching the upper-cased number without spaces.
pub open spec fn api_detected(tracking: Seq<char>) -> Option<Carrier> {
    let c = first_matching(
        api_carriers(),
        matches_of(api_patterns(), without_char(upper_text(tracking), ' ')),
    );
    if c == Carrier::Unknown {
        None
    } else {
        Some(c)
    }
}

/// Which carrier the aggregator's patterns pick on a number of ASCII digits
/// and capitals alone, given what each pattern gives on it.
proof fn lemma_detected_plain_number(t: Seq<char>, pats: Seq<Seq<char>>, matched: Seq<bool>)
    requires
        all_upper_alphanumeric(t),
        pats == api_patterns(),
        matched.len() == 6,
        forall|i: int|
            0 <= i < 6 && upper_alphanumeric_outcome(pats[i], t) is Some ==> upper_alphanumeric_outcome(
                pats[i],
                t,
            ) == Some(#[trigger] matched[i]),
    ensures
        ({
            let c = first_matching(api_carriers(), matched);
            let n = t.len();
            &&& all_ascii_digits(t) && n == 10 ==> c == Carrier::DHL
            &&& all_ascii_digits(t) && (n == 12 || n == 15) ==> c == Carrier::FedEx
            &&& all_ascii_digits(t) && 20 <= n <= 22 ==> c == Carrier::USPS
            &&& n == 18 && t[0] == '1' && t[1] == 'Z' ==> c == Carrier::UPS
            &&& n >= 15 && t.subrange(0, 3) == "JJD"@ && digits_between(t, 3, n as int) ==> c
                == Carrier::DHL
            &&& n == 13 && is_ascii_upper(t[0]) && is_ascii_upper(t[1]) && digits_between(t, 2, 11)
                && t[11] == 'C' && t[12] == 'A' ==> c == Carrier::CanadaPost
            &&& n == 15 && (t[0] == 'C' || t[0] == 'D') && digits_between(t, 1, 15) ==> c
                == Carrier::OnTrac
        }),
{
    reveal_strlit("^1Z[A-Z0-9]{16}$");
    reveal_strlit("^\\d{12}$|^\\d{15}$");
    reveal_strlit("^\\d{20,22}$|^9400\\d{16,}$");
    reveal_strlit("^\\d{10}$|^JJD\\d{12,}$");
    reveal_strlit("^[A-Z]{2}\\d{9}CA$");
    reveal_strlit("^C\\d{14}$|^D\\d{14}$");
    reveal_strlit("JJD");
    assert("^1Z[A-Z0-9]{16}$"@.len() == 16);
    assert("^\\d{12}$|^\\d{15}$"@.len() == 17);
    assert("^\\d{20,22}$|^9400\\d{16,}$"@.len() == 25);
    assert("^\\d{10}$|^JJD\\d{12,}$"@.len() == 21);
    assert("^[A-Z]{2}\\d{9}CA$"@.len() == 17);
    assert("^[A-Z]{2}\\d{9}CA$"@[1] != "^\\d{12}$|^\\d{15}$"@[1]);
    assert("^C\\d{14}$|^D\\d{14}$"@.len() == 19);
    let n = t.len();
    let o0 = upper_alphanumeric_outcome(pats[0], t);
    let o1 = upper_alphanumeric_outcome(pats[1], t);
    let o2 = upper_alphanumeric_outcome(pats[2], t);
    let o3 = upper_alphanumeric_outcome(pats[3], t);
    let o4 = upper_alphanumeric_outcome(pats[4], t);
    let o5 = upper_alphanumeric_outcome(pats[5], t);
    assert(o0 is Some && o0 == Some(matched[0]));
    assert(o1 is Some && o1 == Some(matched[1]));
    assert(o2 is Some && o2 == Some(matched[2]));
    assert(o3 is Some && o3 == Some(matched[3]));
    assert(o4 is Some && o4 == Some(matched[4]));
    assert(o5 is Some && o5 == Some(matched[5]));
    reveal_with_fuel(first_matching, 7);
    if n > 0 && !is_ascii_digit(t[0]) {
        assert(!digits_between(t, 0, n as int));
    }
    if n > 1 && !is_ascii_digit(t[1]) {
        assert(!digits_between(t, 0, n as int));
    }
    if n > 11 && !is_ascii_digit(t[11]) {
        assert(!digits_between(t, 0, n as int));
    }
    if all_ascii_digits(t) {
        assert(digits_between(t, 0, n as int));
        if n > 0 {
            assert(is_ascii_digit(t[0]));
        }
        if n >= 3 {
            assert(t.subrange(0, 3)[0] == t[0]);
        }
    }
    if n >= 3 && t.subrange(0, 3) == "JJD"@ {
        assert(t[0] == t.subrange(0, 3)[0]);
    }
}

/// Detects the carrier of a tracking number: it is upper-cased, spaces
/// are left out, and the first of `api_patterns` that matches decides.
pub fn detect_carrier(tracking_number: &str) -> (r: Option<Carrier>)
    ensures
        r == api_detected(tracking_number@),
        all_ascii_digits(tracking_number@) && tracking_number@.len() == 10 ==> r == Some(Carrier::DHL),
        all_ascii_digits(tracking_number@) && (tracking_number@.len() == 12 || tracking_number@.len()
            == 15) ==> r == Some(Carrier::FedEx),
        all_ascii_digits(tracking_number@) && 20 <= tracking_number@.len() <= 22 ==> r == Some(
            Carrier::USPS,
        ),
        all_upper_alphanumeric(tracking_number@) && tracking_number@.len() == 18 && tracking_number@[0]
            == '1' && tracking_number@[1] == 'Z' ==> r == Some(Carrier::UPS),
        all_upper_alphanumeric(tracking_number@) && tracking_number@.len() >= 15
            && tracking_number@.subrange(0, 3) == "JJD"@ && digits_between(
            tracking_number@,
            3,
            tracking_number@.len() as int,
        ) ==> r == Some(Carrier::DHL),
        all_upper_alphanumeric(tracking_number@) && tracking_number@.len() == 13 && is_ascii_upper(
            tracking_number@[0],
        ) && is_ascii_upper(tracking_number@[1]) && digits_between(tracking_number@, 2, 11)
            && tracking_number@[11] == 'C' && tracking_number@[12] == 'A' ==> r == Some(
            Carrier::CanadaPost,
        ),
        all_upper_alphanumeric(tracking_number@) && tracking_number@.len() == 15 && (tracking_number@[0]
            == 'C' || tracking_number@[0] == 'D') && digits_between(tracking_number@, 1, 15) ==> r
            == Some(Carrier::OnTrac),
{
    let upper = to_uppercase(tracking_number);
    let normalized = remove_char(upper.as_str(), ' ');
    let patterns: Vec<&str> = vec![
        "^1Z[A-Z0-9]{16}$",
        "^\\d{12}$|^\\d{15}$",
        "^\\d{20,22}$|^9400\\d{16,}$",
        "^\\d{10}$|^JJD\\d{12,}$",
        "^[A-Z]{2}\\d{9}CA$",
        "^C\\d{14}$|^D\\d{14}$",
    ];
    let carriers: Vec<Carrier> = vec![
        Carrier::UPS,
        Carrier::FedEx,
        Carrier::USPS,
        Carrier::DHL,
        Carrier::CanadaPost,
        Carrier::OnTrac,
    ];
    assert(patterns@.map_values(|p: &str| p@) =~= api_patterns());
    assert(carriers@ =~= api_carriers());
    let matched = match_each(&patterns, normalized.as_str());
    let c = carrier_of_first_match(&carriers, &matched);
    proof {
        let t = tracking_number@;
        if all_ascii_digits(t) {
            assert(all_upper_alphanumeric(t));
        }
        if all_upper_alphanumeric(t) {
            lemma_upper_alphanumeric_normal(t);
            assert(normalized@ == t);
            lemma_detected_plain_number(t, patterns@.map_values(|p: &str| p@), matched@);
        }
    }
    match c {
        Carrier::Unknown => None,
        _ => Some(c),
    }
}

/// The aggregator's code for a carrier (0 where it has none).
pub open spec fn carrier_code(c: Carrier) -> i32 {
    match c {
        Carrier::UPS => 100002,
        Carrier::FedEx => 100003,
        Carrier::USPS => 100009,
        Carrier::DHL => 100004,
        Carrier::CanadaPost => 100007,
        Carrier::OnTrac => 100008,
        Carrier::Amazon => 0,
        Carrier::Unknown => 0,
    }
}

/// The aggregator's code for a carrier.
pub fn get_carrier_code(carrier: &Carrier) -> (r: i32)
    ensures
        r == carrier_code(*carrier),
{
    match carrier {
        Carrier::UPS => 100002,
        Carrier::FedEx => 100003,
        Carrier::USPS => 100009,
        Carrier::DHL => 100004,
        Carrier::CanadaPost => 100007,
        Carrier::OnTrac => 100008,
        Carrier::Amazon => 0,
        Carrier::Unknown => 0,
    }
}

/// The start of a carrier's public tracking page, before the number.
pub open spec fn tracking_url_prefix(c: Carrier) -> Option<Seq<char>> {
    match c {
        Carrier::UPS => Some("https://www.ups.com/track?tracknum="@),
        Carrier::FedEx => Some("https://www.fedex.com/fedextrack/?trknbr="@),
        Carrier::USPS => Some("https://tools.usps.com/go/TrackConfirmAction?tLabels="@),
        Carrier::DHL => Some("https://www.dhl.com/en/express/tracking.html?AWB="@),
        Carrier::CanadaPost => Some(
            "https://www.canadapost-postescanada.ca/track-reperage/en#/search?searchFor="@,
        ),
        Carrier::OnTrac => Some("https://www.ontrac.com/tracking.asp?tracking_number="@),
        Carrier::Amazon => Some("https://track.amazon.com/tracking/"@),
        Carrier::Unknown => None,
    }
}

/// The public tracking page of a parcel, when its carrier has one.
pub open spec fn tracking_url(c: Carrier, tracking: Seq<char>) -> Option<Seq<char>> {
    match tracking_url_prefix(c) {
        Some(p) => Some(p + tracking),
        None => None,
    }
}

/// The carrier's public tracking page for a number; none for an unknown carrier.
pub fn get_tracking_url(carrier: &Carrier, tracking_number: &str) -> (r: Option<String>)
    ensures
        match r {
            Some(u) => tracking_url(*carrier, tracking_number@) == Some(u@),
            None => tracking_url(*carrier, tracking_number@) is None,
        },
{
    let prefix: &str = match carrier {
        Carrier::UPS => "https://www.ups.com/track?tracknum=",
        Carrier::FedEx => "https://www.fedex.com/fedextrack/?trknbr=",
        Carrier::USPS => "https://tools.usps.com/go/TrackConfirmAction?tLabels=",
        Carrier::DHL => "https://www.dhl.com/en/express/tracking.html?AWB=",
        Carrier::CanadaPost => "https://www.canadapost-postescanada.ca/track-reperage/en#/search?searchFor=",
        Carrier::OnTrac => "https://www.ontrac.com/tracking.asp?tracking_number=",
        Carrier::Amazon => "https://track.amazon.com/tracking/",
        Carrier::Unknown => {
            return None;
        },
    };
    Some(concat2(prefix, tracking_number))
}


// ---------------------------------------------------------------------------
// Looking into replies
// ---------------------------------------------------------------------------

/// The member `key` of an optional value.
pub fn get_in<'a>(v: Option<&'a serde_json::Value>, key: &str) -> (r: Option<&'a serde_json::Value>)
    ensures
        opt_view(r) == opt_get(opt_view(v), key@),
{
    match v {
        Some(x) => json::get(x, key),
        None => None,
    }
}

/// The text of an optional string value.
pub fn str_in<'a>(v: Option<&'a serde_json::Value>) -> (r: Option<&'a str>)
    ensures
        match r {
            Some(s) => opt_str(opt_view(v)) == Some(s@),
            None => opt_str(opt_view(v)) is None,
        },
{
    match v {
        Some(x) => json::as_str(x),
        None => None,
    }
}

/// The elements of an optional array value.
pub fn array_in<'a>(v: Option<&'a serde_json::Value>) -> (r: Option<&'a Vec<serde_json::Value>>)
    ensures
        match r {
            Some(a) => opt_array(opt_view(v)) == Some(views_of(a@)),
            None => opt_array(opt_view(v)) is None,
        },
{
    match v {
        Some(x) => json::as_array(x),
        None => None,
    }
}

/// The text of an optional string, or `default`.
pub open spec fn text_or(t: Option<Seq<char>>, default: Seq<char>) -> Seq<char> {
    match t {
        Some(s) => s,
        None => default,
    }
}

/// An owned copy of an optional text, or of `default`.
pub fn text_or_default(t: Option<&str>, default: &str) -> (r: String)
    ensures
        r@ == text_or(
            match t {
                Some(s) => Some(s@),
                None => None,
            },
            default@,
        ),
{
    match t {
        Some(s) => owned(s),
        None => owned(default),
    }
}

// ---------------------------------------------------------------------------
// Registration
// ---------------------------------------------------------------------------

/// A number to register or query, with the aggregator's carrier code.
#[derive(Debug)]
pub struct RegisterEntry {
    pub number: String,
    pub carrier: i32,
}

/// The carrier a request names for a parcel: its setting when that names
/// a carrier, else the detected one.
pub open spec fn request_carrier(p: Parcel) -> Carrier {
    match named_carrier(p.carrier@) {
        Some(c) => c,
        None => detected_carrier(p.tracking_number@),
    }
}

/// The numbers to register, in order: every parcel whose carrier is known.
pub open spec fn register_entries_of(ps: Seq<Parcel>) -> Seq<(Seq<char>, i32)>
    decreases ps.len(),
{
    if ps.len() == 0 {
        seq![]
    } else {
        let rest = register_entries_of(ps.drop_last());
        let p = ps.last();
        if request_carrier(p) == Carrier::Unknown {
            rest
        } else {
            rest.push((p.tracking_number@, carrier_code(request_carrier(p))))
        }
    }
}

/// The entries as pairs of mathematical values.
pub open spec fn entries_of(es: Seq<RegisterEntry>) -> Seq<(Seq<char>, i32)> {
    es.map_values(|e: RegisterEntry| (e.number@, e.carrier))
}

/// The carrier named in a request for the parcel.
pub fn parcel_request_carrier(p: &Parcel) -> (r: Carrier)
    ensures
        r == request_carrier(*p),
{
    match carrier_from_setting(p.carrier.as_str()) {
        Some(c) => c,
        None => Carrier::detect(p.tracking_number.as_str()),
    }
}

/// The numbers to register with the aggregator: every parcel whose carrier
/// is known, with that carrier's code.
pub fn register_entries(parcels: &Vec<Parcel>) -> (r: Vec<RegisterEntry>)
    ensures
        entries_of(r@) == register_entries_of(parcels@),
{
    let mut r: Vec<RegisterEntry> = Vec::new();
    let mut i: usize = 0;
    while i < parcels.len()
        invariant
            i <= parcels.len(),
            entries_of(r@) == register_entries_of(parcels@.subrange(0, i as int)),
        decreases parcels.len() - i,
    {
        assert(parcels@.subrange(0, i + 1).drop_last() =~= parcels@.subrange(0, i as int));
        let p = &parcels[i];
        let c = parcel_request_carrier(p);
        if c != Carrier::Unknown {
            r.push(RegisterEntry { number: p.tracking_number.clone(), carrier: get_carrier_code(&c) });
        }
        i = i + 1;
        assert(entries_of(r@) =~= register_entries_of(parcels@.subrange(0, i as int)));
    }
    assert(parcels@.subrange(0, parcels@.len() as int) =~= parcels@);
    r
}

/// What to register: nothing when no number can be registered, else the
/// entries of `register_entries`.
pub fn registration_request(parcels: &Vec<Parcel>) -> (r: Option<Vec<RegisterEntry>>)
    ensures
        match r {
            Some(es) => register_entries_of(parcels@).len() > 0 && entries_of(es@) == register_entries_of(
                parcels@,
            ),
            None => register_entries_of(parcels@).len() == 0,
        },
{
    let es = register_entries(parcels);
    if es.len() == 0 {
        None
    } else {
        Some(es)
    }
}

/// The error message of a registration reply, when it reports one: a
/// non-zero `code` (a missing one counts as 0), with its `message`.
pub open spec fn register_failure(j: JsonView) -> Option<Seq<char>> {
    let code: i32 = match view_get(j, "code"@) {
        Some(c) => match view_i64(c) {
            Some(n) => n as i32,
            None => 0,
        },
        None => 0,
    };
    if code != 0 {
        Some(text_or(opt_str(view_get(j, "message"@)), "Registration failed"@))
    } else {
        None
    }
}

/// Reads a parsed registration reply.
pub fn check_register_reply(v: &serde_json::Value) -> (r: Result<(), TrackError>)
    ensures
        match register_failure(json_view(*v)) {
            Some(m) => r matches Err(e) && e@ == ErrorView::Api(m),
            None => r is Ok,
        },
{
    let code: i32 = match json::get(v, "code") {
        Some(c) => match json::as_i64(c) {
            Some(n) => #[verifier::truncate] (n as i32),
            None => 0,
        },
        None => 0,
    };
    if code != 0 {
        let message = str_in(json::get(v, "message"));
        Err(TrackError::Api(text_or_default(message, "Registration failed")))
    } else {
        Ok(())
    }
}

/// Reads the text of a registration reply.
pub fn register_reply(text: &str) -> (r: Result<(), TrackError>)
    ensures
        match parsed_json(text@) {
            Some(j) => match register_failure(j) {
                Some(m) => r matches Err(e) && e@ == ErrorView::Api(m),
                None => r is Ok,
            },
            None => r matches Err(e) && e@ is InvalidJson,
        },
{
    match json::parse_json(text) {
        Ok(v) => check_register_reply(&v),
        Err(e) => Err(TrackError::InvalidJson(json::json_error_text(&e))),
    }
}


// ---------------------------------------------------------------------------
// Tracking
// ---------------------------------------------------------------------------

/// An optional string as an optional text.
pub open spec fn opt_text(o: Option<String>) -> Option<Seq<char>> {
    match o {
        Some(s) => Some(s@),
        None => None,
    }
}

/// An optional document as an optional tree.
pub open spec fn raw_view(o: Option<serde_json::Value>) -> Option<JsonView> {
    match o {
        Some(v) => Some(json_view(v)),
        None => None,
    }
}

/// `info` holds exactly these fields and no events.
pub open spec fn info_is(
    info: TrackingInfo,
    status: Seq<char>,
    text: Option<Seq<char>>,
    location: Option<Seq<char>>,
    eta: Option<UtcTime>,
    raw: Option<JsonView>,
) -> bool {
    &&& info.status_code@ == status
    &&& opt_text(info.status_text) == text
    &&& opt_text(info.current_location) == location
    &&& info.estimated_delivery_date == eta
    &&& info.events@.len() == 0
    &&& raw_view(info.raw_data) == raw
}

/// Pending tracking information with the given text.
pub fn pending_info(text: &str) -> (info: TrackingInfo)
    ensures
        info_is(info, "pending"@, Some(text@), None, None, None),
{
    TrackingInfo {
        status_code: owned("pending"),
        status_text: Some(owned(text)),
        current_location: None,
        estimated_delivery_date: None,
        events: Vec::new(),
        raw_data: None,
    }
}

/// What fetching a parcel from the aggregator starts with.
#[derive(Debug)]
pub enum TrackingQuery {
    /// Nothing is asked: this is the parcel's information.
    Answered(TrackingInfo),
    /// This number is asked for, with its carrier's code.
    Ask(RegisterEntry),
}

/// What to ask the aggregator for a parcel: without a key nothing is asked
/// and the parcel reads as pending ("Pending (no API key)"); an error when
/// no carrier is known; else the number with its carrier's code.
pub fn tracking_request(api_key: &str, parcel: &Parcel) -> (r: Result<TrackingQuery, TrackError>)
    ensures
        api_key@.len() == 0 ==> (r matches Ok(TrackingQuery::Answered(info)) && info_is(
            info,
            "pending"@,
            Some("Pending (no API key)"@),
            None,
            None,
            None,
        )),
        api_key@.len() > 0 && request_carrier(*parcel) == Carrier::Unknown ==> (r matches Err(e)
            && e@ == ErrorView::UnknownCarrier(parcel.tracking_number@)),
        api_key@.len() > 0 && request_carrier(*parcel) != Carrier::Unknown ==> (r matches Ok(
            TrackingQuery::Ask(q),
        ) && q.number@ == parcel.tracking_number@ && q.carrier == carrier_code(
            request_carrier(*parcel),
        )),
{
    if api_key.is_empty() {
        return Ok(TrackingQuery::Answered(pending_info("Pending (no API key)")));
    }
    let c = parcel_request_carrier(parcel);
    if c == Carrier::Unknown {
        return Err(TrackError::UnknownCarrier(parcel.tracking_number.clone()));
    }
    Ok(TrackingQuery::Ask(RegisterEntry { number: parcel.tracking_number.clone(), carrier: get_carrier_code(&c) }))
}

/// How a tracking reply reads.
pub enum ReplyView {
    Failed(ErrorView),
    Pending,
    Found {
        status: Seq<char>,
        location: Option<Seq<char>>,
        eta: Option<UtcTime>,
        raw: JsonView,
    },
}

/// A rejected entry names this number.
pub open spec fn names_number(item: JsonView, number: Seq<char>) -> bool {
    opt_str(view_get(item, "number"@)) == Some(number)
}

/// The first rejected entry that names the number.
pub open spec fn first_rejected(items: Seq<JsonView>, number: Seq<char>) -> Option<JsonView>
    decreases items.len(),
{
    if items.len() == 0 {
        None
    } else if names_number(items[0], number) {
        Some(items[0])
    } else {
        first_rejected(items.drop_first(), number)
    }
}

/// Why a rejected entry was rejected: the error's `message`, or the error
/// itself when it is a string, else a fixed text.
pub open spec fn rejection_reason(item: JsonView) -> Seq<char> {
    match view_get(item, "error"@) {
        Some(e) => match opt_str(view_get(e, "message"@)) {
            Some(m) => m,
            None => text_or(view_str(e), "number rejected by 17track"@),
        },
        None => "number rejected by 17track"@,
    }
}

/// The reply's code: its integer `code` truncated to 32 bits, -1 when missing.
pub open spec fn reply_code(j: JsonView) -> i32 {
    match view_get(j, "code"@) {
        Some(c) => match view_i64(c) {
            Some(n) => n as i32,
            None => -1i32,
        },
        None => -1i32,
    }
}

/// The status of a track: the latest status, else the tracking status,
/// else `transit`.
pub open spec fn track_status(ti: JsonView) -> Seq<char> {
    match opt_str(opt_get(view_get(ti, "latest_status"@), "status"@)) {
        Some(s) => s,
        None => text_or(opt_str(opt_get(view_get(ti, "tracking"@), "status"@)), "transit"@),
    }
}

/// The estimated-delivery text of a track: the end of the estimated
/// delivery window, else the estimated date.
pub open spec fn track_eta_text(ti: JsonView) -> Option<Seq<char>> {
    match opt_str(
        opt_get(opt_get(view_get(ti, "time_metrics"@), "estimated_delivery_date"@), "to"@),
    ) {
        Some(s) => Some(s),
        None => opt_str(opt_get(view_get(ti, "time_details"@), "date_estimated"@)),
    }
}

/// An estimated-delivery text as an instant: RFC 3339, else a bare date
/// taken at midnight UTC.
pub open spec fn reply_eta(s: Seq<char>) -> Option<UtcTime> {
    match rfc3339_instant(s) {
        Some(t) => Some(t),
        None => match naive_date_days(s, "%Y-%m-%d"@) {
            Some(d) => Some(day_at(d as int, 0, 0, 0)),
            None => None,
        },
    }
}

/// How a tracking reply reads for a number.
pub open spec fn reply_view(number: Seq<char>, j: JsonView) -> ReplyView {
    let data = view_get(j, "data"@);
    let errors: Seq<JsonView> = match opt_array(opt_get(data, "errors"@)) {
        Some(es) => es,
        None => seq![],
    };
    let rejected: Option<JsonView> = match opt_array(opt_get(data, "rejected"@)) {
        Some(rs) => first_rejected(rs, number),
        None => None,
    };
    let track: Option<JsonView> = match opt_array(opt_get(data, "accepted"@)) {
        Some(acc) => if acc.len() > 0 {
            view_get(acc[0], "track_info"@)
        } else {
            None
        },
        None => None,
    };
    if errors.len() > 0 {
        ReplyView::Failed(
            ErrorView::Api(text_or(opt_str(view_get(errors[0], "message"@)), "API error"@)),
        )
    } else if rejected is Some {
        ReplyView::Failed(ErrorView::Rejected(rejection_reason(rejected->0)))
    } else if reply_code(j) == 0 {
        match track {
            Some(ti) => ReplyView::Found {
                status: track_status(ti),
                location: opt_str(opt_get(view_get(ti, "latest_event"@), "location"@)),
                eta: match track_eta_text(ti) {
                    Some(s) => reply_eta(s),
                    None => None,
                },
                raw: ti,
            },
            None => ReplyView::Pending,
        }
    } else {
        ReplyView::Failed(
            ErrorView::ApiStatus(
                reply_code(j),
                text_or(opt_str(view_get(j, "message"@)), "Unknown API error"@),
            ),
        )
    }
}

/// The result of a reply that reads as `rv`.
pub open spec fn reply_result(rv: ReplyView, r: Result<TrackingInfo, TrackError>) -> bool {
    match rv {
        ReplyView::Failed(e) => r matches Err(err) && err@ == e,
        ReplyView::Pending => r matches Ok(info) && info_is(
            info,
            "pending"@,
            Some("No tracking info available"@),
            None,
            None,
            None,
        ),
        ReplyView::Found { status, location, eta, raw } => r matches Ok(info) && info_is(
            info,
            status,
            Some(status),
            location,
            eta,
            Some(raw),
        ),
    }
}

/// The first rejected entry that names the number.
fn find_rejected<'a>(items: &'a Vec<serde_json::Value>, number: &str) -> (r: Option<&'a serde_json::Value>)
    ensures
        opt_view(r) == first_rejected(views_of(items@), number@),
{
    let ghost views = views_of(items@);
    let mut i: usize = 0;
    assert(views.skip(0) =~= views);
    while i < items.len()
        invariant
            i <= items.len(),
            views == views_of(items@),
            first_rejected(views, number@) == first_rejected(views.skip(i as int), number@),
        decreases items.len() - i,
    {
        assert(views.skip(i as int).drop_first() =~= views.skip(i + 1));
        let item = &items[i];
        let n = str_in(json::get(item, "number"));
        let hit = match n {
            Some(t) => crate::text::str_eq(t, number),
            None => false,
        };
        if hit {
            return Some(item);
        }
        i = i + 1;
    }
    None
}

/// Reads an estimated-delivery text: RFC 3339, else a bare date at midnight UTC.
pub fn parse_reply_eta(s: &str) -> (r: Option<UtcTime>)
    ensures
        r == reply_eta(s@),
{
    match parse_rfc3339(s) {
        Some(t) => Some(t),
        None => match parse_naive_date(s, "%Y-%m-%d") {
            Some(d) => Some(at_time_of_day(d, 0, 0, 0)),
            None => None,
        },
    }
}

/// Reads a parsed tracking reply for a number: errors first, then a
/// rejection of the number, then the first accepted track.
pub fn interpret_tracking_reply(number: &str, v: &serde_json::Value) -> (r: Result<TrackingInfo, TrackError>)
    ensures
        reply_result(reply_view(number@, json_view(*v)), r),
{
    let data = json::get(v, "data");
    let errors = array_in(get_in(data, "errors"));
    if let Some(es) = errors {
        if es.len() > 0 {
            let m = str_in(json::get(&es[0], "message"));
            return Err(TrackError::Api(text_or_default(m, "API error")));
        }
    }
    let rejected = array_in(get_in(data, "rejected"));
    if let Some(rs) = rejected {
        if let Some(item) = find_rejected(rs, number) {
            let err = json::get(item, "error");
            let reason = match err {
                Some(e) => match str_in(json::get(e, "message")) {
                    Some(m) => owned(m),
                    None => text_or_default(json::as_str(e), "number rejected by 17track"),
                },
                None => owned("number rejected by 17track"),
            };
            return Err(TrackError::Rejected(reason));
        }
    }
    let code: i32 = match json::get(v, "code") {
        Some(c) => match json::as_i64(c) {
            Some(n) => #[verifier::truncate] (n as i32),
            None => -1,
        },
        None => -1,
    };
    if code == 0 {
        let accepted = array_in(get_in(data, "accepted"));
        if let Some(acc) = accepted {
            if acc.len() > 0 {
                if let Some(ti) = json::get(&acc[0], "track_info") {
                    let status_ref = match str_in(get_in(json::get(ti, "latest_status"), "status")) {
                        Some(s) => s,
                        None => match str_in(get_in(json::get(ti, "tracking"), "status")) {
                            Some(s) => s,
                            None => "transit",
                        },
                    };
                    let status = owned(status_ref);
                    let eta_text = match str_in(
                        get_in(get_in(json::get(ti, "time_metrics"), "estimated_delivery_date"), "to"),
                    ) {
                        Some(s) => Some(s),
                        None => str_in(get_in(json::get(ti, "time_details"), "date_estimated")),
                    };
                    let eta = match eta_text {
                        Some(s) => parse_reply_eta(s),
                        None => None,
                    };
                    let location = match str_in(get_in(json::get(ti, "latest_event"), "location")) {
                        Some(l) => Some(owned(l)),
                        None => None,
                    };
                    return Ok(TrackingInfo {
                        status_code: status.clone(),
                        status_text: Some(status),
                        current_location: location,
                        estimated_delivery_date: eta,
                        events: Vec::new(),
                        raw_data: Some(json::clone_value(ti)),
                    });
                }
            }
        }
        Ok(pending_info("No tracking info available"))
    } else {
        let message = str_in(json::get(v, "message"));
        Err(TrackError::ApiStatus(code, text_or_default(message, "Unknown API error")))
    }
}

/// Reads the text of a tracking reply for a number.
pub fn tracking_reply(number: &str, text: &str) -> (r: Result<TrackingInfo, TrackError>)
    ensures
        match parsed_json(text@) {
            Some(j) => reply_result(reply_view(number@, j), r),
            None => r matches Err(e) && e@ is InvalidJson,
        },
{
    match json::parse_json(text) {
        Ok(v) => interpret_tracking_reply(number, &v),
        Err(e) => Err(TrackError::InvalidJson(json::json_error_text(&e))),
    }
}

} // verus!
