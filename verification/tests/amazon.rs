use parceltracker::carriers::amazon::{amazon_reply, parse_response};
use parceltracker::time::UtcTime;
use serde_json::Value;

fn rfc3339(t: UtcTime) -> String {
    chrono::DateTime::from_timestamp(t.secs, t.nanos).unwrap().to_rfc3339()
}

fn stringified(outer: &[(&str, Option<&str>)]) -> Value {
    let mut m = serde_json::Map::new();
    for (k, v) in outer {
        let inner = match v {
            Some(text) => {
                let parsed: Value = serde_json::from_str(text).unwrap();
                Value::String(parsed.to_string())
            }
            None => Value::Null,
        };
        m.insert(k.to_string(), inner);
    }
    Value::Object(m)
}

const PROGRESS: &str = r#"{
    "errors": null,
    "summary": { "status": "OUT_FOR_DELIVERY" },
    "expectedDeliveryDate": "2026-08-15T21:00:00Z",
    "trackerSource": "AMZL"
}"#;

const HISTORY: &str = r#"{
    "eventHistory": [
        { "eventCode": "CREATED", "eventTime": "2026-08-13T09:00:00Z", "location": null },
        { "eventCode": "ARRIVED_AT_DELIVERY_Center", "eventTime": "2026-08-14T04:00:00Z",
          "location": { "city": "Kent", "stateProvince": "WA", "countryCode": "US" } },
        { "eventCode": "OUT_FOR_DELIVERY", "eventTime": "2026-08-15T13:30:00Z",
          "location": { "city": "Seattle", "stateProvince": "WA", "countryCode": "US" } }
    ]
}"#;

fn fixture() -> Value {
    stringified(&[("progressTracker", Some(PROGRESS)), ("eventHistory", Some(HISTORY))])
}

#[test]
fn parses_stringified_subdocuments() {
    let info = parse_response(&fixture()).unwrap();
    assert_eq!(info.status_code, "OutForDelivery");
    assert_eq!(info.status_text.as_deref(), Some("Out for delivery"));
    assert_eq!(info.current_location.as_deref(), Some("Seattle, WA, US"));
    assert!(rfc3339(info.estimated_delivery_date.unwrap()).starts_with("2026-08-15"));
    // newest-first
    assert_eq!(info.events.len(), 3);
    assert_eq!(info.events[0].description, "Out for delivery");
    assert_eq!(info.events[2].description, "Created");
}

#[test]
fn unknown_tracking_id_is_an_error() {
    let progress = r#"{
        "errors": [ { "errorCode": "TRACKING_ID_NOT_FOUND", "errorMessage": "INVALID TRACKING_ID" } ],
        "summary": { "status": null },
        "expectedDeliveryDate": null
    }"#;
    let json = stringified(&[("progressTracker", Some(progress)), ("eventHistory", None)]);
    let err = parse_response(&json).unwrap_err();
    assert!(err.message().contains("INVALID TRACKING_ID"));
}

#[test]
fn delivered_summary_maps() {
    let progress = r#"{ "summary": { "status": "DELIVERED" }, "expectedDeliveryDate": null }"#;
    let json = stringified(&[("progressTracker", Some(progress)), ("eventHistory", None)]);
    let info = parse_response(&json).unwrap();
    assert_eq!(info.status_code, "Delivered");
    assert!(info.events.is_empty());
}

#[test]
fn events_carry_location_and_humanized_code() {
    let info = parse_response(&fixture()).unwrap();
    assert_eq!(info.events[1].description, "Arrived at delivery center");
    assert_eq!(info.events[1].location, "Kent, WA, US");
    assert_eq!(info.events[2].location, "");
    assert!(info.raw_data.is_some());
}

#[test]
fn missing_progress_tracker_is_an_error() {
    let json: Value = serde_json::from_str(r#"{ "eventHistory": null }"#).unwrap();
    assert!(parse_response(&json).is_err());
}

#[test]
fn reply_text_is_parsed_first() {
    let text = fixture().to_string();
    let info = amazon_reply(&text).unwrap();
    assert_eq!(info.status_code, "OutForDelivery");
    assert_eq!(info.events.len(), 3);
    assert_eq!(amazon_reply("<html>").unwrap_err().message(), "Amazon tracker: invalid JSON");
    assert_eq!(
        amazon_reply(r#"{"eventHistory": null}"#).unwrap_err().message(),
        "Amazon tracker: no progressTracker in response"
    );
}
