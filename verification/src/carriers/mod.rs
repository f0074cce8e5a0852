//! Tracking providers beyond the aggregator. Amazon Logistics (TBA…)
//! parcels are served first-party by a public recipient-facing endpoint,
//! with no credentials. A provider's tracking information uses the same
//! status vocabulary as the aggregator ("InTransit", "OutForDelivery",
//! "Delivered", "InfoReceived", "Exception"), which is what the parcel
//! state is read from.

pub mod amazon;

use vstd::prelude::*;
use crate::models::{Carrier, Config};
use crate::text::push_char;
use crate::time::{
    at_time_of_day, day_at, naive_date_days, naive_datetime_instant, parse_naive_date,
    parse_naive_datetime, parse_rfc3339, rfc3339_instant, UtcTime,
};

verus! {

/// A first-party tracking provider.
pub enum FirstParty {
    Amazon(amazon::Amazon),
}

impl FirstParty {
    /// The provider's name.
    pub fn name(&self) -> (r: &'static str)
        ensures
            r@ == "Amazon"@,
    {
        match self {
            FirstParty::Amazon(_) => "Amazon",
        }
    }
}

/// The first-party provider for a carrier, if one exists: Amazon's own
/// tracker for Amazon parcels, none for any other carrier.
pub fn for_carrier(carrier: &Carrier, _config: &Config) -> (r: Option<FirstParty>)
    ensures
        r is Some <==> *carrier == Carrier::Amazon,
{
    match carrier {
        Carrier::Amazon => Some(FirstParty::Amazon(amazon::Amazon)),
        _ => None,
    }
}

/// The instant that a carrier's date text denotes: RFC 3339 with an
/// offset, else a naive `YYYY-MM-DDTHH:MM:SS` taken as UTC, else a bare
/// date taken at 23:59 UTC.
pub open spec fn carrier_datetime(s: Seq<char>) -> Option<UtcTime> {
    match rfc3339_instant(s) {
        Some(t) => Some(t),
        None => match naive_datetime_instant(s, "%Y-%m-%dT%H:%M:%S"@) {
            Some(t) => Some(t),
            None => match naive_date_days(s, "%Y-%m-%d"@) {
                Some(d) => Some(day_at(d as int, 23, 59, 0)),
                None => None,
            },
        },
    }
}

/// Reads a carrier's date text: RFC 3339, else a naive date-time as UTC,
/// else a bare date at 23:59 UTC (estimates are used at day granularity).
pub fn parse_carrier_datetime(s: &str) -> (r: Option<UtcTime>)
    ensures
        r == carrier_datetime(s@),
{
    if let Some(t) = parse_rfc3339(s) {
        return Some(t);
    }
    if let Some(t) = parse_naive_datetime(s, "%Y-%m-%dT%H:%M:%S") {
        return Some(t);
    }
    if let Some(d) = parse_naive_date(s, "%Y-%m-%d") {
        return Some(at_time_of_day(d, 23, 59, 0));
    }
    None
}

/// The present, non-empty parts, in order.
pub open spec fn present_parts(parts: Seq<Option<Seq<char>>>) -> Seq<Seq<char>>
    decreases parts.len(),
{
    if parts.len() == 0 {
        seq![]
    } else {
        let rest = present_parts(parts.drop_last());
        match parts.last() {
            Some(p) => if p.len() > 0 {
                rest.push(p)
            } else {
                rest
            },
            None => rest,
        }
    }
}

/// `items` joined with `sep` between each two.
pub open spec fn joined(items: Seq<Seq<char>>, sep: Seq<char>) -> Seq<char>
    decreases items.len(),
{
    if items.len() == 0 {
        seq![]
    } else if items.len() == 1 {
        items[0]
    } else {
        joined(items.drop_last(), sep) + sep + items.last()
    }
}

/// Optional string slices as optional texts.
pub open spec fn part_texts(parts: Seq<Option<&str>>) -> Seq<Option<Seq<char>>> {
    parts.map_values(
        |p: Option<&str>|
            match p {
                Some(s) => Some(s@),
                None => None,
            },
    )
}

/// "CITY, ST, CC" from optional address parts: the present, non-empty
/// parts joined with `, `.
pub fn join_location(parts: &[Option<&str>]) -> (r: String)
    ensures
        r@ == joined(present_parts(part_texts(parts@)), ", "@),
{
    let ghost texts = part_texts(parts@);
    let mut r = String::new();
    let mut count: usize = 0;
    let mut i: usize = 0;
    while i < parts.len()
        invariant
            i <= parts@.len(),
            texts == part_texts(parts@),
            count as int == present_parts(texts.subrange(0, i as int)).len(),
            count <= i,
            r@ == joined(present_parts(texts.subrange(0, i as int)), ", "@),
        decreases parts.len() - i,
    {
        assert(texts.subrange(0, i + 1).drop_last() =~= texts.subrange(0, i as int));
        match parts[i] {
            Some(p) => {
                if !p.is_empty() {
                    let ghost prev = present_parts(texts.subrange(0, i as int));
                    let ghost next = prev.push(p@);
                    assert(next.drop_last() =~= prev);
                    if count > 0 {
                        r.append(", ");
                    } else {
                        assert(prev.len() == 0);
                        assert(next =~= seq![p@]);
                    }
                    r.append(p);
                    count = count + 1;
                }
            },
            None => {},
        }
        i = i + 1;
    }
    assert(texts.subrange(0, parts@.len() as int) =~= texts);
    r
}

} // verus!
