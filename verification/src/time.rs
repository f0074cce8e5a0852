//! Instants in time. An instant is held as a UNIX timestamp (seconds and
//! the sub-second nanoseconds); parsing and formatting go through chrono
//! behind small trusted wrappers, and day arithmetic is done here.

use vstd::prelude::*;

verus! {

/// A point in time in UTC: whole seconds since 1970-01-01T00:00:00Z and
/// the nanoseconds past that second.
#[derive(Clone, Copy, PartialEq, Eq, Debug, Structural)]
pub struct UtcTime {
    pub secs: i64,
    pub nanos: u32,
}

/// `a` is strictly earlier than `b`.
pub open spec fn before(a: UtcTime, b: UtcTime) -> bool {
    a.secs < b.secs || (a.secs == b.secs && a.nanos < b.nanos)
}

/// The day (counted from 1970-01-01 as day 0) that a UNIX timestamp falls on.
pub open spec fn epoch_day(secs: int) -> int {
    secs / 86400
}

/// The instant at `h:m:s` UTC on the day `days` counted from 1970-01-01.
pub open spec fn day_at(days: int, h: int, m: int, s: int) -> UtcTime {
    UtcTime { secs: (days * 86400 + h * 3600 + m * 60 + s) as i64, nanos: 0 }
}

/// What `DateTime::parse_from_rfc3339` reads from a text, as an instant.
pub uninterp spec fn rfc3339_instant(s: Seq<char>) -> Option<UtcTime>;

/// What `NaiveDateTime::parse_from_str` reads from a text with a format,
/// taken as UTC.
pub uninterp spec fn naive_datetime_instant(s: Seq<char>, fmt: Seq<char>) -> Option<UtcTime>;

/// What `NaiveDate::parse_from_str` reads from a text with a format, as
/// days counted from 1970-01-01.
pub uninterp spec fn naive_date_days(s: Seq<char>, fmt: Seq<char>) -> Option<i32>;

/// What `DateTime::<Utc>::to_rfc3339` writes for an instant that chrono can hold.
pub uninterp spec fn rfc3339_of(secs: i64, nanos: u32) -> Option<Seq<char>>;

/// What chrono's `format` writes for the naive date-time of an instant.
pub uninterp spec fn formatted(secs: i64, nanos: u32, fmt: Seq<char>) -> Option<Seq<char>>;

/// The formats that the library hands to chrono's `format`.
pub open spec fn known_format(fmt: Seq<char>) -> bool {
    ||| fmt == "%-I:%M%p"@
    ||| fmt == "%-I%P"@
    ||| fmt == "%-I:%M%P"@
    ||| fmt == "%b %d @ %-I:%M%p"@
    ||| fmt == "%b %d, %Y @ %-I:%M%p"@
    ||| fmt == "%Y-%m-%d"@
    ||| fmt == "%Y-%m-%d %H:%M"@
}

/// Calls `DateTime::parse_from_rfc3339` and takes the instant it denotes
/// (its timestamp and sub-second nanoseconds).
#[verifier::external_body]
pub(crate) fn parse_rfc3339(s: &str) -> (r: Option<UtcTime>)
    ensures
        r == rfc3339_instant(s@),
{
    match chrono::DateTime::parse_from_rfc3339(s) {
        Ok(dt) => Some(UtcTime { secs: dt.timestamp(), nanos: dt.timestamp_subsec_nanos() }),
        Err(_) => None,
    }
}

/// Calls `NaiveDateTime::parse_from_str` and takes the result as UTC.
#[verifier::external_body]
pub(crate) fn parse_naive_datetime(s: &str, fmt: &str) -> (r: Option<UtcTime>)
    ensures
        r == naive_datetime_instant(s@, fmt@),
{
    match chrono::NaiveDateTime::parse_from_str(s, fmt) {
        Ok(n) => {
            let dt = n.and_utc();
            Some(UtcTime { secs: dt.timestamp(), nanos: dt.timestamp_subsec_nanos() })
        },
        Err(_) => None,
    }
}

/// Calls `NaiveDate::parse_from_str` and takes the date as days counted
/// from 1970-01-01 (`to_epoch_days`).
#[verifier::external_body]
pub(crate) fn parse_naive_date(s: &str, fmt: &str) -> (r: Option<i32>)
    ensures
        r == naive_date_days(s@, fmt@),
{
    match chrono::NaiveDate::parse_from_str(s, fmt) {
        Ok(d) => Some(d.to_epoch_days()),
        Err(_) => None,
    }
}

/// The instant lies in a year from 0 to 9999 (UTC), which RFC 3339 writes
/// with four digits.
pub open spec fn four_digit_year(t: UtcTime) -> bool {
    -62167219200 <= t.secs <= 253402300799
}

/// Calls `DateTime::to_rfc3339` on the instant, when chrono can hold it
/// (`DateTime::from_timestamp`). In a year of four digits the text reads
/// back as the same instant: it is written with the year's four digits,
/// the seconds (a leap second as `60`), every nonzero digit of the
/// fraction and the offset `+00:00`, which `parse_from_rfc3339` reads.
#[verifier::external_body]
pub(crate) fn to_rfc3339(t: UtcTime) -> (r: Option<String>)
    ensures
        match r {
            Some(s) => rfc3339_of(t.secs, t.nanos) == Some(s@),
            None => rfc3339_of(t.secs, t.nanos) is None,
        },
        four_digit_year(t) ==> (r matches Some(s) ==> rfc3339_instant(s@) == Some(t)),
{
    match chrono::DateTime::from_timestamp(t.secs, t.nanos) {
        Some(dt) => Some(dt.to_rfc3339()),
        None => None,
    }
}

/// Calls chrono's `format` on the naive (UTC) date-time of the instant.
#[verifier::external_body]
pub(crate) fn format_instant(t: UtcTime, fmt: &str) -> (r: Option<String>)
    requires
        known_format(fmt@),
    ensures
        match r {
            Some(s) => formatted(t.secs, t.nanos, fmt@) == Some(s@),
            None => formatted(t.secs, t.nanos, fmt@) is None,
        },
        r is Some <==> rfc3339_of(t.secs, t.nanos) is Some,
{
    match chrono::DateTime::from_timestamp(t.secs, t.nanos) {
        Some(dt) => Some(dt.naive_utc().format(fmt).to_string()),
        None => None,
    }
}

/// Calls `Utc::now`. Which instant it reads is not stated; it is one that
/// chrono holds (its own timestamp and nanoseconds, which
/// `DateTime::from_timestamp` takes back).
#[verifier::external_body]
pub(crate) fn utc_now() -> (r: UtcTime)
    ensures
        rfc3339_of(r.secs, r.nanos) is Some,
{
    let dt = chrono::Utc::now();
    UtcTime { secs: dt.timestamp(), nanos: dt.timestamp_subsec_nanos() }
}

/// Calls `with_timezone(&Local)` and reads the offset of the machine's time
/// zone at that instant, in seconds east of UTC: there is one exactly for
/// an instant chrono holds (`DateTime::from_timestamp`), and it is a
/// `FixedOffset`, so less than a day either way. Its value depends on the
/// machine and is not stated.
#[verifier::external_body]
pub(crate) fn local_offset_at(t: UtcTime) -> (r: Option<i32>)
    ensures
        r is Some <==> rfc3339_of(t.secs, t.nanos) is Some,
        r matches Some(o) ==> -86400 < o < 86400,
{
    match chrono::DateTime::from_timestamp(t.secs, t.nanos) {
        Some(dt) => Some(dt.with_timezone(&chrono::Local).offset().local_minus_utc()),
        None => None,
    }
}

/// The day (counted from 1970-01-01 as day 0) that a timestamp falls on.
pub fn day_of(secs: i64) -> (d: i64)
    ensures
        d as int == epoch_day(secs as int),
{
    if secs >= 0 {
        secs / 86400
    } else {
        let m: i64 = -(secs + 1);
        let q = m / 86400;
        assert((secs as int) / 86400 == -(m as int / 86400) - 1) by (nonlinear_arith)
            requires
                m == -(secs + 1),
                m >= 0,
        {
            let a = m as int / 86400;
            let r = m as int % 86400;
            assert(m == a * 86400 + r);
            assert(secs == -(a * 86400) - r - 1);
            assert(secs == (-a - 1) * 86400 + (86400 - r - 1));
        }
        -q - 1
    }
}

/// The instant at `h:m:s` UTC on the day `days` counted from 1970-01-01,
/// as `NaiveDate::and_hms_opt(h, m, s)` followed by `and_utc` gives it.
pub fn at_time_of_day(days: i32, h: u32, m: u32, s: u32) -> (t: UtcTime)
    requires
        h < 24,
        m < 60,
        s < 60,
    ensures
        t == day_at(days as int, h as int, m as int, s as int),
{
    let secs: i64 = (days as i64) * 86400 + (h as i64) * 3600 + (m as i64) * 60 + (s as i64);
    UtcTime { secs, nanos: 0 }
}

/// Whether `a` is strictly earlier than `b`.
pub fn is_before(a: UtcTime, b: UtcTime) -> (r: bool)
    ensures
        r == before(a, b),
{
    a.secs < b.secs || (a.secs == b.secs && a.nanos < b.nanos)
}

} // verus!
