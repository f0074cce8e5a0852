//! The data model: carriers, tracking information, parcels, the
//! configuration, and the shapes of the aggregator's replies.

use vstd::prelude::*;
use crate::pattern::{match_each, matches_of};
use crate::text::{
    ascii_alphanumerics, concat2, has_substring, keep_ascii_alphanumerics, lowercase_of, owned,
    remove_char, str_contains, str_eq, to_lowercase, to_uppercase, u128_decimal, upper_text,
    without_char, decimal,
};
use crate::time::{day_of, epoch_day, utc_now, UtcTime};

verus! {

// ---------------------------------------------------------------------------
// Carriers
// ---------------------------------------------------------------------------

/// A shipping carrier.
#[derive(Clone, Copy, PartialEq, Eq, Hash, Debug, Structural)]
pub enum Carrier {
    UPS,
    FedEx,
    DHL,
    USPS,
    CanadaPost,
    OnTrac,
    Amazon,
    Unknown,
}

/// The display name of a carrier.
pub open spec fn carrier_name(c: Carrier) -> Seq<char> {
    match c {
        Carrier::UPS => "UPS"@,
        Carrier::FedEx => "FedEx"@,
        Carrier::DHL => "DHL"@,
        Carrier::USPS => "USPS"@,
        Carrier::CanadaPost => "Canada Post"@,
        Carrier::OnTrac => "OnTrac"@,
        Carrier::Amazon => "Amazon"@,
        Carrier::Unknown => "Unknown"@,
    }
}

/// The text that detection looks at: upper-cased, with spaces and hyphens left out.
pub open spec fn detection_text(tracking: Seq<char>) -> Seq<char> {
    without_char(without_char(upper_text(tracking), ' '), '-')
}

/// The tracking-number patterns, in the order they are tried.
pub open spec fn detect_patterns() -> Seq<Seq<char>> {
    seq![
        "^TBA\\d{10,15}$"@,
        "^1Z[A-Z0-9]{16}$"@,
        "^\\d{12}$"@,
        "^\\d{15}$"@,
        "^\\d{20}$"@,
        "^\\d{22}$"@,
        "^\\d{34}$"@,
        "^\\d{10}$"@,
        "^(JJ|JD|JM)\\d{15,}"@,
        "^\\d{20,22}$"@,
        "^[A-Z]{2}\\d{9}CA$"@,
        "^[A-Z]{2}\\d{9}[A-Z]{2}$"@,
        "^(94|93|92|95|96)\\d{20}$"@,
        "^\\d{16}$"@,
        "^[CD]\\d{14}$"@,
        "^\\d{7,8}$"@,
    ]
}

/// The carrier that each pattern of `detect_patterns` stands for.
pub open spec fn detect_carriers() -> Seq<Carrier> {
    seq![
        Carrier::Amazon,
        Carrier::UPS,
        Carrier::FedEx,
        Carrier::FedEx,
        Carrier::FedEx,
        Carrier::FedEx,
        Carrier::FedEx,
        Carrier::DHL,
        Carrier::DHL,
        Carrier::USPS,
        Carrier::CanadaPost,
        Carrier::USPS,
        Carrier::USPS,
        Carrier::CanadaPost,
        Carrier::OnTrac,
        Carrier::OnTrac,
    ]
}

/// The carrier of the first matching pattern; `Unknown` when none matches.
pub open spec fn first_matching(carriers: Seq<Carrier>, matched: Seq<bool>) -> Carrier
    decreases carriers.len(),
{
    if carriers.len() == 0 || matched.len() == 0 {
        Carrier::Unknown
    } else if matched[0] {
        carriers[0]
    } else {
        first_matching(carriers.drop_first(), matched.drop_first())
    }
}

/// The carrier that `Carrier::detect` finds for a tracking number.
pub open spec fn detected_carrier(tracking: Seq<char>) -> Carrier {
    first_matching(detect_carriers(), matches_of(detect_patterns(), detection_text(tracking)))
}

/// The carrier of the first entry of `matched` that holds, `Unknown` when
/// none does (entries past the shorter of the two are not looked at).
pub fn carrier_of_first_match(carriers: &Vec<Carrier>, matched: &Vec<bool>) -> (r: Carrier)
    ensures
        r == first_matching(carriers@, matched@),
{
    let mut i: usize = 0;
    assert(carriers@.skip(0) =~= carriers@);
    assert(matched@.skip(0) =~= matched@);
    while i < carriers.len() && i < matched.len()
        invariant
            i <= carriers.len(),
            i <= matched.len(),
            first_matching(carriers@, matched@) == first_matching(
                carriers@.skip(i as int),
                matched@.skip(i as int),
            ),
        decreases carriers.len() - i,
    {
        assert(carriers@.skip(i as int).drop_first() =~= carriers@.skip(i + 1));
        assert(matched@.skip(i as int).drop_first() =~= matched@.skip(i + 1));
        if matched[i] {
            return carriers[i];
        }
        i = i + 1;
    }
    Carrier::Unknown
}

impl Carrier {
    /// The display name of the carrier.
    pub fn name(&self) -> (r: &'static str)
        ensures
            r@ == carrier_name(*self),
    {
        match self {
            Carrier::UPS => "UPS",
            Carrier::FedEx => "FedEx",
            Carrier::DHL => "DHL",
            Carrier::USPS => "USPS",
            Carrier::CanadaPost => "Canada Post",
            Carrier::OnTrac => "OnTrac",
            Carrier::Amazon => "Amazon",
            Carrier::Unknown => "Unknown",
        }
    }

    /// Detects the carrier from the shape of a tracking number: the number
    /// is upper-cased, spaces and hyphens are left out, and the carrier of
    /// the first pattern of `detect_patterns` that matches is the result.
    pub fn detect(tracking: &str) -> (r: Carrier)
        ensures
            r == detected_carrier(tracking@),
    {
        let upper = to_uppercase(tracking);
        let no_spaces = remove_char(upper.as_str(), ' ');
        let text = remove_char(no_spaces.as_str(), '-');
        let patterns: Vec<&str> = vec![
            "^TBA\\d{10,15}$",
            "^1Z[A-Z0-9]{16}$",
            "^\\d{12}$",
            "^\\d{15}$",
            "^\\d{20}$",
            "^\\d{22}$",
            "^\\d{34}$",
            "^\\d{10}$",
            "^(JJ|JD|JM)\\d{15,}",
            "^\\d{20,22}$",
            "^[A-Z]{2}\\d{9}CA$",
            "^[A-Z]{2}\\d{9}[A-Z]{2}$",
            "^(94|93|92|95|96)\\d{20}$",
            "^\\d{16}$",
            "^[CD]\\d{14}$",
            "^\\d{7,8}$",
        ];
        let carriers: Vec<Carrier> = vec![
            Carrier::Amazon,
            Carrier::UPS,
            Carrier::FedEx,
            Carrier::FedEx,
            Carrier::FedEx,
            Carrier::FedEx,
            Carrier::FedEx,
            Carrier::DHL,
            Carrier::DHL,
            Carrier::USPS,
            Carrier::CanadaPost,
            Carrier::USPS,
            Carrier::USPS,
            Carrier::CanadaPost,
            Carrier::OnTrac,
            Carrier::OnTrac,
        ];
        assert(patterns@.map_values(|p: &str| p@) =~= detect_patterns());
        assert(carriers@ =~= detect_carriers());
        let matched = match_each(&patterns, text.as_str());
        carrier_of_first_match(&carriers, &matched)
    }
}

// ---------------------------------------------------------------------------
// Tracking information
// ---------------------------------------------------------------------------

/// One checkpoint in a parcel's history.
#[derive(Clone, Debug)]
pub struct TrackingEvent {
    pub date: UtcTime,
    pub description: String,
    pub location: String,
}

/// An event as mathematical values: its date, description and location.
pub open spec fn event_view(e: TrackingEvent) -> (UtcTime, Seq<char>, Seq<char>) {
    (e.date, e.description@, e.location@)
}

/// Events as mathematical values.
pub open spec fn event_views(es: Seq<TrackingEvent>) -> Seq<(UtcTime, Seq<char>, Seq<char>)> {
    es.map_values(|e: TrackingEvent| event_view(e))
}

impl TrackingEvent {
    /// A copy of the event.
    pub fn duplicate(&self) -> (r: TrackingEvent)
        ensures
            event_view(r) == event_view(*self),
    {
        TrackingEvent {
            date: self.date,
            description: self.description.clone(),
            location: self.location.clone(),
        }
    }
}

/// What a tracking provider reports about a parcel.
#[derive(Clone, Debug)]
pub struct TrackingInfo {
    pub status_code: String,
    pub status_text: Option<String>,
    pub current_location: Option<String>,
    pub estimated_delivery_date: Option<UtcTime>,
    pub events: Vec<TrackingEvent>,
    pub raw_data: Option<serde_json::Value>,
}

/// The status text shown for tracking information: the reported text,
/// else the status code, else `Unknown`.
pub open spec fn info_status_text(info: TrackingInfo) -> Seq<char> {
    match info.status_text {
        Some(t) => t@,
        None => if info.status_code@.len() == 0 {
            "Unknown"@
        } else {
            info.status_code@
        },
    }
}

/// The status code or the status text mentions delivery (case-insensitively).
pub open spec fn info_delivered(info: TrackingInfo) -> bool {
    ||| has_substring(lowercase_of(info.status_code@), "delivered"@)
    ||| (info.status_text matches Some(t) && has_substring(lowercase_of(t@), "delivered"@))
}

impl TrackingInfo {
    /// The status text: the reported one, else the status code, else `Unknown`.
    pub fn status_text(&self) -> (r: String)
        ensures
            r@ == info_status_text(*self),
    {
        match &self.status_text {
            Some(t) => t.clone(),
            None => if self.status_code.as_str().is_empty() {
                owned("Unknown")
            } else {
                self.status_code.clone()
            },
        }
    }

    /// Whether the status code or text mentions delivery.
    pub fn is_delivered(&self) -> (r: bool)
        ensures
            r == info_delivered(*self),
    {
        let code = to_lowercase(self.status_code.as_str());
        if str_contains(code.as_str(), "delivered") {
            return true;
        }
        match &self.status_text {
            Some(t) => {
                let lower = to_lowercase(t.as_str());
                str_contains(lower.as_str(), "delivered")
            },
            None => false,
        }
    }
}

// ---------------------------------------------------------------------------
// Parcel states
// ---------------------------------------------------------------------------

/// The canonical machine-readable state of a parcel.
#[derive(Clone, Copy, PartialEq, Eq, Debug, Structural)]
pub enum ParcelState {
    Delivered,
    OutForDelivery,
    InTransit,
    PreTransit,
    Exception,
    Unknown,
}

/// The state that a lower-cased status line reads as.
pub open spec fn classify_status(status: Seq<char>) -> ParcelState {
    let compact = ascii_alphanumerics(status);
    if has_substring(status, "delivered"@) && !has_substring(status, "undelivered"@) {
        ParcelState::Delivered
    } else if has_substring(status, "out for delivery"@) || has_substring(
        status,
        "out_for_delivery"@,
    ) || has_substring(compact, "outfordelivery"@) {
        ParcelState::OutForDelivery
    } else if has_substring(status, "in transit"@) || has_substring(status, "in_transit"@)
        || has_substring(compact, "intransit"@) {
        ParcelState::InTransit
    } else if has_substring(status, "info"@) || has_substring(status, "pre"@) {
        ParcelState::PreTransit
    } else if has_substring(status, "exception"@) || has_substring(status, "fail"@)
        || has_substring(status, "undelivered"@) {
        ParcelState::Exception
    } else {
        ParcelState::Unknown
    }
}

/// The stable name of a state.
pub open spec fn state_name(s: ParcelState) -> Seq<char> {
    match s {
        ParcelState::Delivered => "delivered"@,
        ParcelState::OutForDelivery => "out-for-delivery"@,
        ParcelState::InTransit => "in-transit"@,
        ParcelState::PreTransit => "pre-transit"@,
        ParcelState::Exception => "exception"@,
        ParcelState::Unknown => "unknown"@,
    }
}

/// The emoji shown for a state.
pub open spec fn state_emoji(s: ParcelState) -> Seq<char> {
    match s {
        ParcelState::Delivered => "✅"@,
        ParcelState::OutForDelivery => "🚚"@,
        ParcelState::InTransit => "📦"@,
        ParcelState::PreTransit => "📝"@,
        ParcelState::Exception => "⚠️"@,
        ParcelState::Unknown => "📍"@,
    }
}

impl ParcelState {
    /// Reads a lower-cased status line as a state.
    pub fn classify(status: &str) -> (r: ParcelState)
        ensures
            r == classify_status(status@),
    {
        let compact = keep_ascii_alphanumerics(status);
        if str_contains(status, "delivered") && !str_contains(status, "undelivered") {
            ParcelState::Delivered
        } else if str_contains(status, "out for delivery") || str_contains(
            status,
            "out_for_delivery",
        ) || str_contains(compact.as_str(), "outfordelivery") {
            ParcelState::OutForDelivery
        } else if str_contains(status, "in transit") || str_contains(status, "in_transit")
            || str_contains(compact.as_str(), "intransit") {
            ParcelState::InTransit
        } else if str_contains(status, "info") || str_contains(status, "pre") {
            ParcelState::PreTransit
        } else if str_contains(status, "exception") || str_contains(status, "fail")
            || str_contains(status, "undelivered") {
            ParcelState::Exception
        } else {
            ParcelState::Unknown
        }
    }

    /// The stable name of the state.
    pub fn as_str(&self) -> (r: &'static str)
        ensures
            r@ == state_name(*self),
    {
        match self {
            ParcelState::Delivered => "delivered",
            ParcelState::OutForDelivery => "out-for-delivery",
            ParcelState::InTransit => "in-transit",
            ParcelState::PreTransit => "pre-transit",
            ParcelState::Exception => "exception",
            ParcelState::Unknown => "unknown",
        }
    }

    /// The emoji of the state.
    pub fn emoji(&self) -> (r: &'static str)
        ensures
            r@ == state_emoji(*self),
    {
        match self {
            ParcelState::Delivered => "✅",
            ParcelState::OutForDelivery => "🚚",
            ParcelState::InTransit => "📦",
            ParcelState::PreTransit => "📝",
            ParcelState::Exception => "⚠️",
            ParcelState::Unknown => "📍",
        }
    }
}

// ---------------------------------------------------------------------------
// Parcels
// ---------------------------------------------------------------------------

/// A tracked parcel.
#[derive(Clone, Debug)]
pub struct Parcel {
    pub id: String,
    pub tracking_number: String,
    pub carrier: String,
    pub description: String,
    pub tracking_info: Option<TrackingInfo>,
    pub last_updated: Option<UtcTime>,
}

/// The name a parcel is shown under.
pub open spec fn display_name_of(p: Parcel) -> Seq<char> {
    if p.description@.len() == 0 {
        p.tracking_number@
    } else {
        p.description@ + " ("@ + p.tracking_number@ + ")"@
    }
}

/// Whether the parcel's tracking information reads as delivered.
pub open spec fn parcel_delivered(p: Parcel) -> bool {
    match p.tracking_info {
        Some(info) => info_delivered(info),
        None => false,
    }
}

/// The lower-cased status line that a parcel's state is read from.
pub open spec fn status_line(p: Parcel) -> Seq<char> {
    match p.tracking_info {
        Some(info) => lowercase_of(info.status_code@ + " "@ + info_status_text(info)),
        None => "unknown"@,
    }
}

/// The state of a parcel.
pub open spec fn parcel_state(p: Parcel) -> ParcelState {
    classify_status(status_line(p))
}

/// The carrier that an explicit carrier setting names, if it names one.
pub open spec fn named_carrier(setting: Seq<char>) -> Option<Carrier> {
    if setting == "ups"@ {
        Some(Carrier::UPS)
    } else if setting == "fedex"@ {
        Some(Carrier::FedEx)
    } else if setting == "usps"@ {
        Some(Carrier::USPS)
    } else if setting == "dhl"@ {
        Some(Carrier::DHL)
    } else if setting == "canada_post"@ || setting == "canadapost"@ {
        Some(Carrier::CanadaPost)
    } else if setting == "ontrac"@ {
        Some(Carrier::OnTrac)
    } else {
        None
    }
}

/// A parcel's carrier: its (lower-cased) setting when that names a
/// carrier, else the carrier detected from its tracking number.
pub open spec fn resolved_carrier_of(p: Parcel) -> Carrier {
    match named_carrier(lowercase_of(p.carrier@)) {
        Some(c) => c,
        None => detected_carrier(p.tracking_number@),
    }
}

/// Days from the day of `now` to the day of the parcel's estimated
/// delivery, both taken in UTC.
pub open spec fn days_until_at(p: Parcel, now: UtcTime) -> Option<int> {
    match p.tracking_info {
        Some(info) => match info.estimated_delivery_date {
            Some(eta) => Some(epoch_day(eta.secs as int) - epoch_day(now.secs as int)),
            None => None,
        },
        None => None,
    }
}

/// The carrier that an explicit carrier setting names.
pub fn carrier_from_setting(setting: &str) -> (r: Option<Carrier>)
    ensures
        r == named_carrier(setting@),
{
    if str_eq(setting, "ups") {
        Some(Carrier::UPS)
    } else if str_eq(setting, "fedex") {
        Some(Carrier::FedEx)
    } else if str_eq(setting, "usps") {
        Some(Carrier::USPS)
    } else if str_eq(setting, "dhl") {
        Some(Carrier::DHL)
    } else if str_eq(setting, "canada_post") || str_eq(setting, "canadapost") {
        Some(Carrier::CanadaPost)
    } else if str_eq(setting, "ontrac") {
        Some(Carrier::OnTrac)
    } else {
        None
    }
}

/// The milliseconds since 1970 of an instant (0 before 1970).
pub open spec fn millis_of(t: UtcTime) -> nat {
    if t.secs >= 0 {
        (t.secs * 1000 + t.nanos / 1000000) as nat
    } else {
        0
    }
}

/// The milliseconds since 1970 of an instant (0 before 1970).
fn millis(t: UtcTime) -> (r: u128)
    ensures
        r == millis_of(t),
{
    if t.secs >= 0 {
        (t.secs as u128) * 1000 + (t.nanos / 1000000) as u128
    } else {
        0
    }
}

impl Parcel {
    /// A new, untracked parcel whose id is the current time in
    /// milliseconds since 1970, in decimal.
    pub fn new(tracking_number: String, description: String, carrier: String) -> (p: Parcel)
        ensures
            exists|ms: nat| p.id@ == decimal(ms),
            p.tracking_number@ == tracking_number@,
            p.description@ == description@,
            p.carrier@ == carrier@,
            p.tracking_info is None,
            p.last_updated is None,
    {
        let id = u128_decimal(millis(utc_now()));
        Parcel::with_id(id, tracking_number, description, carrier)
    }

    /// A new, untracked parcel with the given id.
    pub fn with_id(id: String, tracking_number: String, description: String, carrier: String) -> (p: Parcel)
        ensures
            p.id@ == id@,
            p.tracking_number@ == tracking_number@,
            p.description@ == description@,
            p.carrier@ == carrier@,
            p.tracking_info is None,
            p.last_updated is None,
    {
        Parcel {
            id,
            tracking_number,
            description,
            carrier,
            tracking_info: None,
            last_updated: None,
        }
    }

    /// The description followed by the tracking number in brackets, or the
    /// tracking number alone when there is no description.
    pub fn display_name(&self) -> (r: String)
        ensures
            r@ == display_name_of(*self),
    {
        if self.description.as_str().is_empty() {
            self.tracking_number.clone()
        } else {
            let mut r = owned(self.description.as_str());
            r.append(" (");
            r.append(self.tracking_number.as_str());
            r.append(")");
            r
        }
    }

    /// Whether the parcel's tracking information reads as delivered.
    pub fn is_delivered(&self) -> (r: bool)
        ensures
            r == parcel_delivered(*self),
    {
        match &self.tracking_info {
            Some(info) => info.is_delivered(),
            None => false,
        }
    }

    /// The status text, or `Not tracked` when there is no tracking information.
    pub fn status_summary(&self) -> (r: String)
        ensures
            r@ == match self.tracking_info {
                Some(info) => info_status_text(info),
                None => "Not tracked"@,
            },
    {
        match &self.tracking_info {
            Some(info) => info.status_text(),
            None => owned("Not tracked"),
        }
    }

    /// The lower-cased status line the state is read from.
    pub fn status_line(&self) -> (r: String)
        ensures
            r@ == status_line(*self),
    {
        match &self.tracking_info {
            Some(info) => {
                let text = info.status_text();
                let mut line = owned(info.status_code.as_str());
                line.append(" ");
                line.append(text.as_str());
                to_lowercase(line.as_str())
            },
            None => owned("unknown"),
        }
    }

    /// The parcel's state.
    pub fn state(&self) -> (r: ParcelState)
        ensures
            r == parcel_state(*self),
    {
        let line = self.status_line();
        ParcelState::classify(line.as_str())
    }

    /// Canonical machine-readable state: `delivered`, `out-for-delivery`,
    /// `in-transit`, `pre-transit`, `exception` or `unknown`.
    pub fn status_state(&self) -> (r: &'static str)
        ensures
            r@ == state_name(parcel_state(*self)),
    {
        self.state().as_str()
    }

    /// The emoji of the parcel's state.
    pub fn status_emoji(&self) -> (r: &'static str)
        ensures
            r@ == state_emoji(parcel_state(*self)),
    {
        self.state().emoji()
    }

    /// The carrier, honoring an explicit setting and falling back to
    /// detection from the tracking number.
    pub fn resolved_carrier(&self) -> (r: Carrier)
        ensures
            r == resolved_carrier_of(*self),
    {
        let setting = to_lowercase(self.carrier.as_str());
        match carrier_from_setting(setting.as_str()) {
            Some(c) => c,
            None => Carrier::detect(self.tracking_number.as_str()),
        }
    }

    /// Days from the day of `now` to the day of the estimated delivery (UTC).
    pub fn days_until_delivery_at(&self, now: UtcTime) -> (r: Option<i64>)
        ensures
            match r {
                Some(d) => days_until_at(*self, now) == Some(d as int),
                None => days_until_at(*self, now) is None,
            },
    {
        match &self.tracking_info {
            Some(info) => match info.estimated_delivery_date {
                Some(eta) => Some(day_of(eta.secs) - day_of(now.secs)),
                None => None,
            },
            None => None,
        }
    }

    /// Days from today (UTC, read from the clock) to the day of the
    /// estimated delivery.
    pub fn days_until_delivery(&self) -> (r: Option<i64>)
        ensures
            match r {
                Some(d) => exists|now: UtcTime| days_until_at(*self, now) == Some(d as int),
                None => forall|now: UtcTime| days_until_at(*self, now) is None,
            },
    {
        let now = utc_now();
        self.days_until_delivery_at(now)
    }
}

// ---------------------------------------------------------------------------
// Configuration
// ---------------------------------------------------------------------------

/// The parcel that leads the bar display, and when it was chosen.
#[derive(Clone, Debug)]
pub struct WaybarSelection {
    pub tracking: String,
    pub timestamp: String,
}

/// The saved configuration.
#[derive(Clone, Debug)]
pub struct Config {
    pub track17_api_key: Option<String>,
    pub waybar_selected: Option<WaybarSelection>,
}

impl Config {
    /// The empty configuration: no key, no selection.
    pub fn empty() -> (c: Config)
        ensures
            c.track17_api_key is None,
            c.waybar_selected is None,
    {
        Config { track17_api_key: None, waybar_selected: None }
    }
}

/// Why a stored selection time could not be read.
#[derive(Clone, Copy, PartialEq, Eq, Debug, Structural)]
pub enum TimestampError {
    /// An integer that is no valid UNIX time ("Invalid timestamp").
    Invalid,
    /// Neither a string nor a non-negative integer ("Expected string or
    /// integer timestamp").
    Unexpected,
}

/// How a stored selection time reads: a string as it is; a UNIX time in
/// seconds (as older files hold it) as its RFC 3339 text.
pub open spec fn stored_timestamp(j: crate::json::JsonView) -> Result<Seq<char>, TimestampError> {
    match crate::json::view_str(j) {
        Some(s) => Ok(s),
        None => match crate::json::view_u64(j) {
            Some(ts) => match crate::time::rfc3339_of(ts as i64, 0) {
                Some(t) => Ok(t),
                None => Err(TimestampError::Invalid),
            },
            None => Err(TimestampError::Unexpected),
        },
    }
}

/// Reads a stored selection time: a string as it is, a UNIX time in
/// seconds as its RFC 3339 text.
pub fn selection_timestamp(v: &serde_json::Value) -> (r: Result<String, TimestampError>)
    ensures
        match stored_timestamp(crate::json::json_view(*v)) {
            Ok(t) => r matches Ok(s) && s@ == t,
            Err(e) => r == Err::<String, TimestampError>(e),
        },
{
    if let Some(s) = crate::json::as_str(v) {
        return Ok(owned(s));
    }
    match crate::json::as_u64(v) {
        Some(ts) => {
            let secs: i64 = #[verifier::truncate] (ts as i64);
            match crate::time::to_rfc3339(UtcTime { secs, nanos: 0 }) {
                Some(t) => Ok(t),
                None => Err(TimestampError::Invalid),
            }
        },
        None => Err(TimestampError::Unexpected),
    }
}

/// Parcels saved together with the time they were saved.
pub struct Cache {
    pub parcels: Vec<Parcel>,
    pub last_cache_time: Option<UtcTime>,
}


// ---------------------------------------------------------------------------
// The aggregator's reply shapes
// ---------------------------------------------------------------------------

/// A reply of the aggregator: its code and its data.
pub struct Track17Response<T> {
    pub code: i32,
    pub data: T,
}

/// The numbers a reply accepted and rejected.
pub struct Track17Data {
    pub accepted: Vec<Track17Item>,
    pub rejected: Vec<Track17Rejected>,
}

/// An accepted number with its track.
pub struct Track17Item {
    pub number: String,
    pub carrier: Option<i32>,
    pub track_info: Track17TrackInfo,
}

/// A rejected number and why.
pub struct Track17Rejected {
    pub number: String,
    pub error: Option<String>,
}

/// A track: status, latest event, shipping details and times.
pub struct Track17TrackInfo {
    pub tracking: Option<Track17Tracking>,
    pub latest_status: Option<Track17LatestStatus>,
    pub latest_event: Option<Track17Event>,
    pub shipping_info: Track17ShippingInfo,
    pub time_details: Track17TimeDetails,
}

/// The tracking status of a track.
pub struct Track17Tracking {
    pub status: Option<String>,
}

/// The latest status of a track.
pub struct Track17LatestStatus {
    pub status: Option<String>,
    pub sub_status: Option<String>,
}

/// An event of a track.
pub struct Track17Event {
    pub description: Option<String>,
    pub location: Option<String>,
    pub time: Option<String>,
}

/// Shipping details of a track.
#[derive(Default)]
pub struct Track17ShippingInfo {
    pub shipping_date: Option<String>,
    pub weight: Option<String>,
    pub service: Option<String>,
    pub shipper_address: Option<Track17Address>,
    pub recipient_address: Option<Track17Address>,
}

/// An address.
#[derive(Default)]
pub struct Track17Address {
    pub city: Option<String>,
    pub state: Option<String>,
    pub country: Option<String>,
}

/// Delivery times of a track.
#[derive(Default)]
pub struct Track17TimeDetails {
    pub date_delivered: Option<String>,
    pub date_estimated: Option<String>,
}

/// A reply's data that may also carry errors.
pub struct Track17DataFlexible {
    pub accepted: Vec<Track17Item>,
    pub rejected: Vec<Track17Rejected>,
    pub errors: Vec<Track17Error>,
}

/// An error in a reply.
pub struct Track17Error {
    pub code: i32,
    pub message: String,
}

/// The accepted and rejected entries of a reply, in a simpler shape.
pub struct ApiResponse {
    pub accepted: Vec<TrackInfoAccepted>,
    pub rejected: Vec<TrackInfoRejected>,
}

/// An accepted entry in the simpler shape.
pub struct TrackInfoAccepted {
    pub number: String,
    pub carrier: i32,
    pub track_info: TrackInfo,
}

/// A rejected entry in the simpler shape.
pub struct TrackInfoRejected {
    pub number: String,
    pub error: Option<String>,
}

/// A track in the simpler shape.
pub struct TrackInfo {
    pub tracking: Option<TrackDetail>,
}

/// The details of a track in the simpler shape.
pub struct TrackDetail {
    pub track_status: Option<String>,
    pub track_status_name: Option<String>,
    pub estimated_delivery_date: Option<String>,
    pub carrier_status: Option<String>,
    pub carrier_status_code: Option<String>,
    pub track_z0: Option<TrackLocation>,
    pub track_z1: Option<TrackLocation>,
    pub track_z2: Option<TrackLocation>,
    pub track_z3: Option<TrackLocation>,
    pub track_z4: Option<TrackLocation>,
    pub track_z5: Option<TrackLocation>,
    pub track_z6: Option<TrackLocation>,
    pub track_z7: Option<TrackLocation>,
    pub track_z8: Option<TrackLocation>,
    pub track_z9: Option<TrackLocation>,
}

/// A place and time in a track.
pub struct TrackLocation {
    pub z: Option<String>,
    pub t: Option<String>,
}

} // verus!
