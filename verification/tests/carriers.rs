use parceltracker::carriers::{join_location, parse_carrier_datetime};
use parceltracker::time::UtcTime;

fn rfc3339(t: UtcTime) -> String {
    chrono::DateTime::from_timestamp(t.secs, t.nanos).unwrap().to_rfc3339()
}

#[test]
fn datetime_forms() {
    assert!(parse_carrier_datetime("2026-08-16T14:00:00-05:00").is_some());
    assert!(parse_carrier_datetime("2026-08-16T14:00:00").is_some());
    let d = parse_carrier_datetime("2026-08-16").unwrap();
    assert_eq!(rfc3339(d), "2026-08-16T23:59:00+00:00");
    assert!(parse_carrier_datetime("tomorrow").is_none());
}

#[test]
fn location_joins_present_parts() {
    assert_eq!(
        join_location(&[Some("ORANGEBURG"), Some("SC"), Some("US")]),
        "ORANGEBURG, SC, US"
    );
    assert_eq!(join_location(&[Some("Memphis"), None, Some("US")]), "Memphis, US");
    assert_eq!(join_location(&[None, Some("")]), "");
}

#[test]
fn offset_datetime_is_taken_as_its_instant() {
    let a = parse_carrier_datetime("2026-08-16T14:00:00-05:00").unwrap();
    let b = parse_carrier_datetime("2026-08-16T19:00:00+00:00").unwrap();
    assert_eq!(a, b);
    let naive = parse_carrier_datetime("2026-08-16T19:00:00").unwrap();
    assert_eq!(naive, b);
}
