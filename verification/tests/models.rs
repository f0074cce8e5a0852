use parceltracker::models::{Carrier, Config, Parcel, ParcelState, TrackingEvent, TrackingInfo};
use parceltracker::time::UtcTime;

fn info(code: &str, text: Option<&str>) -> TrackingInfo {
    TrackingInfo {
        status_code: code.to_string(),
        status_text: text.map(|t| t.to_string()),
        current_location: None,
        estimated_delivery_date: None,
        events: vec![],
        raw_data: None,
    }
}

fn with_status(tracking: &str, code: &str, text: Option<&str>) -> Parcel {
    let mut p = Parcel::with_id("1".to_string(), tracking.to_string(), String::new(), "auto".to_string());
    p.tracking_info = Some(info(code, text));
    p
}

#[test]
fn detects_each_carrier() {
    assert_eq!(Carrier::detect("1Z999AA10123456784"), Carrier::UPS);
    assert_eq!(Carrier::detect("1z 999aa1-0123456784"), Carrier::UPS);
    assert_eq!(Carrier::detect("TBA123456789012"), Carrier::Amazon);
    assert_eq!(Carrier::detect("123456789012"), Carrier::FedEx);
    assert_eq!(Carrier::detect("123456789012345"), Carrier::FedEx);
    assert_eq!(Carrier::detect("1234567890"), Carrier::DHL);
    assert_eq!(Carrier::detect("JD014600003123456789"), Carrier::DHL);
    assert_eq!(Carrier::detect("EA123456789US"), Carrier::USPS);
    assert_eq!(Carrier::detect("1234567890123456"), Carrier::CanadaPost);
    assert_eq!(Carrier::detect("C12345678901234"), Carrier::OnTrac);
    assert_eq!(Carrier::detect("1234567"), Carrier::OnTrac);
    assert_eq!(Carrier::detect("hello"), Carrier::Unknown);
}

#[test]
fn earlier_patterns_win() {
    // Two letters, nine digits and "CA" is Canada Post, before the general two-letter form.
    assert_eq!(Carrier::detect("EA123456789CA"), Carrier::CanadaPost);
    assert_eq!(Carrier::detect("AB123456789CA"), Carrier::CanadaPost);
    assert_eq!(Carrier::detect("AB123456789US"), Carrier::USPS);
    // Twenty-two digits read as FedEx before USPS.
    assert_eq!(Carrier::detect("9400111899223100000000"), Carrier::FedEx);
}

#[test]
fn carrier_names() {
    assert_eq!(Carrier::CanadaPost.name(), "Canada Post");
    assert_eq!(Carrier::Amazon.name(), "Amazon");
    assert_eq!(Carrier::Unknown.name(), "Unknown");
}

#[test]
fn status_text_falls_back_to_code_then_unknown() {
    assert_eq!(info("InTransit", Some("In transit")).status_text(), "In transit");
    assert_eq!(info("InTransit", None).status_text(), "InTransit");
    assert_eq!(info("", None).status_text(), "Unknown");
}

#[test]
fn delivered_reads_code_and_text() {
    assert!(info("Delivered", None).is_delivered());
    assert!(info("x", Some("DELIVERED to mailbox")).is_delivered());
    assert!(!info("InTransit", Some("On its way")).is_delivered());
}

#[test]
fn classify_states() {
    assert_eq!(ParcelState::classify("delivered delivered").as_str(), "delivered");
    assert_eq!(ParcelState::classify("out_for_delivery x").as_str(), "out-for-delivery");
    assert_eq!(ParcelState::classify("outfordelivery").as_str(), "out-for-delivery");
    assert_eq!(ParcelState::classify("in-transit").as_str(), "in-transit");
    assert_eq!(ParcelState::classify("inforeceived").as_str(), "pre-transit");
    assert_eq!(ParcelState::classify("undelivered - address issue").as_str(), "exception");
    assert_eq!(ParcelState::classify("delivery failed").as_str(), "exception");
    assert_eq!(ParcelState::classify("unknown").as_str(), "unknown");
}

#[test]
fn parcel_states_and_emoji() {
    let p = with_status("1Z999AA10123456784", "Delivered", Some("Delivered"));
    assert_eq!(p.status_state(), "delivered");
    assert_eq!(p.status_emoji(), "✅");
    let q = with_status("1Z999AA10123456784", "Undelivered", Some("Undelivered - address issue"));
    assert_eq!(q.status_state(), "exception");
    assert_eq!(q.status_emoji(), "⚠️");
    let u = Parcel::with_id("1".to_string(), "XYZ".to_string(), String::new(), "auto".to_string());
    assert_eq!(u.status_state(), "unknown");
    assert_eq!(u.status_emoji(), "📍");
    assert_eq!(u.status_summary(), "Not tracked");
    assert!(!u.is_delivered());
}

#[test]
fn display_name_uses_description() {
    let mut p = Parcel::with_id("1".to_string(), "ABC".to_string(), "Lamp".to_string(), "auto".to_string());
    assert_eq!(p.display_name(), "Lamp (ABC)");
    p.description = String::new();
    assert_eq!(p.display_name(), "ABC");
}

#[test]
fn new_parcel_has_numeric_id() {
    let p = Parcel::new("XYZ".to_string(), "Mystery".to_string(), "auto".to_string());
    assert!(!p.id.is_empty());
    assert!(p.id.chars().all(|c| c.is_ascii_digit()));
    assert!(p.tracking_info.is_none());
    assert!(p.last_updated.is_none());
}

#[test]
fn resolved_carrier_honors_setting() {
    let p = Parcel::with_id("1".to_string(), "1234567890".to_string(), String::new(), "UPS".to_string());
    assert_eq!(p.resolved_carrier(), Carrier::UPS);
    let q = Parcel::with_id("1".to_string(), "1234567890".to_string(), String::new(), "auto".to_string());
    assert_eq!(q.resolved_carrier(), Carrier::DHL);
    let r = Parcel::with_id("1".to_string(), "1234567890".to_string(), String::new(), "canada_post".to_string());
    assert_eq!(r.resolved_carrier(), Carrier::CanadaPost);
}

#[test]
fn days_until_delivery_counts_whole_days() {
    let mut p = with_status("1Z999AA10123456784", "InTransit", None);
    // 2026-08-15T20:00:00Z
    p.tracking_info.as_mut().unwrap().estimated_delivery_date = Some(UtcTime { secs: 1786824000, nanos: 0 });
    // 2026-08-13T23:59:00Z: two calendar days before.
    assert_eq!(p.days_until_delivery_at(UtcTime { secs: 1786665540, nanos: 0 }), Some(2));
    // 2026-08-16T00:00:00Z: a day after.
    assert_eq!(p.days_until_delivery_at(UtcTime { secs: 1786838400, nanos: 0 }), Some(-1));
    let q = with_status("1Z999AA10123456784", "InTransit", None);
    assert_eq!(q.days_until_delivery_at(UtcTime { secs: 0, nanos: 0 }), None);
}

#[test]
fn empty_config_has_nothing() {
    let c = Config::empty();
    assert!(c.track17_api_key.is_none());
    assert!(c.waybar_selected.is_none());
}

#[test]
fn duplicate_event_is_equal() {
    let e = TrackingEvent { date: UtcTime { secs: 5, nanos: 6 }, description: "d".to_string(), location: "l".to_string() };
    let f = e.duplicate();
    assert_eq!(f.date, e.date);
    assert_eq!(f.description, "d");
    assert_eq!(f.location, "l");
}
