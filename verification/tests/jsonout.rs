use chrono::{TimeZone, Utc};
use parceltracker::jsonout::build_json;
use parceltracker::models::{Parcel, TrackingEvent, TrackingInfo};
use parceltracker::time::UtcTime;

fn at(y: i32, mo: u32, d: u32, h: u32, mi: u32, s: u32) -> UtcTime {
    let dt = Utc.with_ymd_and_hms(y, mo, d, h, mi, s).unwrap();
    UtcTime { secs: dt.timestamp(), nanos: 0 }
}

fn now() -> UtcTime {
    let dt = Utc::now();
    UtcTime { secs: dt.timestamp(), nanos: dt.timestamp_subsec_nanos() }
}

fn parcel(tracking: &str, desc: &str, status: &str, eta: Option<UtcTime>) -> Parcel {
    let mut p = Parcel::new(tracking.to_string(), desc.to_string(), "auto".to_string());
    p.tracking_info = Some(TrackingInfo {
        status_code: status.to_string(),
        status_text: Some(status.to_string()),
        current_location: Some("MEMPHIS, TN".to_string()),
        estimated_delivery_date: eta,
        events: vec![
            TrackingEvent {
                date: at(2026, 8, 11, 9, 0, 0),
                description: "Departed facility".to_string(),
                location: "Louisville, KY".to_string(),
            },
            TrackingEvent {
                date: at(2026, 8, 12, 14, 30, 0),
                description: "Arrived at hub".to_string(),
                location: "Memphis, TN".to_string(),
            },
        ],
        raw_data: None,
    });
    p
}

#[test]
fn document_shape_and_states() {
    let eta = at(2026, 8, 15, 20, 0, 0);
    let parcels = vec![
        parcel("1Z999AA10123456784", "Keyboard", "In transit", Some(eta)),
        parcel("9400111899223100000000", "Socks", "Delivered", None),
        parcel("420912349205590000000000000000", "Lamp", "Out for delivery", None),
        parcel("JD014600003RUSSIA", "Widget", "Undelivered - address issue", None),
    ];

    let doc = build_json(&parcels, Some("1Z999AA10123456784"), at(2026, 8, 13, 12, 0, 0));

    assert_eq!(doc["version"], 1);
    assert_eq!(doc["selected"], "1Z999AA10123456784");
    let items = doc["parcels"].as_array().unwrap();
    assert_eq!(items.len(), 4);

    assert_eq!(items[0]["state"], "in-transit");
    assert_eq!(items[0]["carrier"], "UPS");
    assert!(items[0]["trackingUrl"].as_str().unwrap().contains("ups.com"));
    assert!(items[0]["eta"].as_str().unwrap().starts_with("2026-08-15"));
    assert!(items[0]["etaLabel"].is_string());

    assert_eq!(items[1]["state"], "delivered");
    assert_eq!(items[2]["state"], "out-for-delivery");
    // "Undelivered" must not read as delivered.
    assert_eq!(items[3]["state"], "exception");
}

#[test]
fn events_sorted_newest_first() {
    let parcels = vec![parcel("1Z999AA10123456784", "Keyboard", "In transit", None)];
    let doc = build_json(&parcels, None, now());
    let events = doc["parcels"][0]["events"].as_array().unwrap();
    assert_eq!(events.len(), 2);
    assert!(events[0]["time"].as_str().unwrap() > events[1]["time"].as_str().unwrap());
    assert_eq!(events[0]["description"], "Arrived at hub");
}

#[test]
fn untracked_parcel_serializes_with_nulls() {
    let p = Parcel::new("XYZ".to_string(), "Mystery".to_string(), "auto".to_string());
    let doc = build_json(&vec![p], None, now());
    let item = &doc["parcels"][0];
    assert_eq!(item["state"], "unknown");
    assert!(item["eta"].is_null());
    assert!(item["statusText"].is_null());
    assert_eq!(item["events"].as_array().unwrap().len(), 0);
}

#[test]
fn days_until_delivery_counts_from_now() {
    let eta = at(2026, 8, 15, 20, 0, 0);
    let parcels = vec![parcel("1Z999AA10123456784", "Keyboard", "In transit", Some(eta))];
    let doc = build_json(&parcels, None, at(2026, 8, 13, 12, 0, 0));
    assert_eq!(doc["parcels"][0]["daysUntilDelivery"], 2);
    assert_eq!(doc["generatedAt"], "2026-08-13T12:00:00+00:00");
    assert!(doc["selected"].is_null());
    assert_eq!(doc["parcels"][0]["location"], "MEMPHIS, TN");
    assert_eq!(doc["parcels"][0]["events"][1]["location"], "Louisville, KY");
}

#[test]
fn equal_dates_keep_their_order() {
    let mut p = parcel("1Z999AA10123456784", "Keyboard", "In transit", None);
    let info = p.tracking_info.as_mut().unwrap();
    info.events = vec![
        TrackingEvent { date: at(2026, 8, 1, 0, 0, 0), description: "a".to_string(), location: String::new() },
        TrackingEvent { date: at(2026, 8, 3, 0, 0, 0), description: "b".to_string(), location: String::new() },
        TrackingEvent { date: at(2026, 8, 1, 0, 0, 0), description: "c".to_string(), location: String::new() },
    ];
    let doc = build_json(&vec![p], None, now());
    let events = doc["parcels"][0]["events"].as_array().unwrap();
    assert_eq!(events[0]["description"], "b");
    assert_eq!(events[1]["description"], "a");
    assert_eq!(events[2]["description"], "c");
}

#[test]
fn output_text_is_the_pretty_document() {
    let parcels = vec![parcel("1Z999AA10123456784", "Keyboard", "In transit", None)];
    let mut config = parceltracker::models::Config::empty();
    config.waybar_selected = Some(parceltracker::models::WaybarSelection {
        tracking: "1Z999AA10123456784".to_string(),
        timestamp: "2026-08-13T12:00:00+00:00".to_string(),
    });
    let text = parceltracker::jsonout::get_json_output(&parcels, &config).unwrap();
    assert!(text.contains('\n'));
    let doc: serde_json::Value = serde_json::from_str(&text).unwrap();
    assert_eq!(doc["version"], 1);
    assert_eq!(doc["selected"], "1Z999AA10123456784");
    assert_eq!(doc["parcels"][0]["description"], "Keyboard");
}
