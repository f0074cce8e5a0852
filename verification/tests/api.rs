use parceltracker::api::{
    detect_carrier, get_carrier_code, get_tracking_url, pending_info, register_entries, register_reply,
    registration_request, tracking_reply, tracking_request, TrackError, TrackingQuery,
};
use parceltracker::models::{Carrier, Parcel};
use parceltracker::time::UtcTime;

fn rfc3339(t: UtcTime) -> String {
    chrono::DateTime::from_timestamp(t.secs, t.nanos).unwrap().to_rfc3339()
}

fn parcel(tracking: &str, carrier: &str) -> Parcel {
    Parcel::with_id("1".to_string(), tracking.to_string(), String::new(), carrier.to_string())
}

#[test]
fn aggregator_detection() {
    assert_eq!(detect_carrier("1z999aa10123456784"), Some(Carrier::UPS));
    assert_eq!(detect_carrier("1234 5678 9012"), Some(Carrier::FedEx));
    assert_eq!(detect_carrier("94001118992231000000"), Some(Carrier::USPS));
    assert_eq!(detect_carrier("JJD000390007827"), Some(Carrier::DHL));
    assert_eq!(detect_carrier("EA123456789CA"), Some(Carrier::CanadaPost));
    assert_eq!(detect_carrier("D12345678901234"), Some(Carrier::OnTrac));
    assert_eq!(detect_carrier("TBA123456789012"), None);
    assert_eq!(detect_carrier("nothing"), None);
}

#[test]
fn carrier_codes() {
    assert_eq!(get_carrier_code(&Carrier::UPS), 100002);
    assert_eq!(get_carrier_code(&Carrier::FedEx), 100003);
    assert_eq!(get_carrier_code(&Carrier::USPS), 100009);
    assert_eq!(get_carrier_code(&Carrier::DHL), 100004);
    assert_eq!(get_carrier_code(&Carrier::CanadaPost), 100007);
    assert_eq!(get_carrier_code(&Carrier::OnTrac), 100008);
    assert_eq!(get_carrier_code(&Carrier::Unknown), 0);
}

#[test]
fn tracking_urls() {
    assert_eq!(
        get_tracking_url(&Carrier::UPS, "1Z1").unwrap(),
        "https://www.ups.com/track?tracknum=1Z1"
    );
    assert_eq!(
        get_tracking_url(&Carrier::Amazon, "TBA1").unwrap(),
        "https://track.amazon.com/tracking/TBA1"
    );
    assert!(get_tracking_url(&Carrier::Unknown, "x").is_none());
}

#[test]
fn registration_skips_unknown_carriers() {
    let ps = vec![parcel("1Z999AA10123456784", "auto"), parcel("nothing", "auto"), parcel("x", "dhl")];
    let entries = register_entries(&ps);
    assert_eq!(entries.len(), 2);
    assert_eq!(entries[0].number, "1Z999AA10123456784");
    assert_eq!(entries[0].carrier, 100002);
    assert_eq!(entries[1].number, "x");
    assert_eq!(entries[1].carrier, 100004);
    assert!(registration_request(&vec![parcel("nothing", "auto")]).is_none());
    assert!(registration_request(&vec![]).is_none());
    assert_eq!(registration_request(&ps).unwrap().len(), 2);
}

#[test]
fn registration_replies() {
    assert!(register_reply(r#"{"code":0}"#).is_ok());
    assert!(register_reply(r#"{"data":{}}"#).is_ok());
    let err = register_reply(r#"{"code":401,"message":"bad token"}"#).unwrap_err();
    assert_eq!(err.message(), "API error: bad token");
    let err = register_reply(r#"{"code":5}"#).unwrap_err();
    assert_eq!(err.message(), "API error: Registration failed");
    assert!(matches!(register_reply("not json"), Err(TrackError::InvalidJson(_))));
}

#[test]
fn tracking_requests() {
    match tracking_request("", &parcel("nothing", "auto")) {
        Ok(TrackingQuery::Answered(info)) => {
            assert_eq!(info.status_code, "pending");
            assert_eq!(info.status_text.as_deref(), Some("Pending (no API key)"));
            assert!(info.current_location.is_none());
            assert!(info.estimated_delivery_date.is_none());
            assert!(info.events.is_empty());
            assert!(info.raw_data.is_none());
        }
        _ => panic!("expected the pending placeholder"),
    }
    let err = tracking_request("key", &parcel("nothing", "auto")).unwrap_err();
    assert_eq!(err.message(), "Could not detect carrier for nothing");
    match tracking_request("key", &parcel("1Z999AA10123456784", "auto")).unwrap() {
        TrackingQuery::Ask(q) => {
            assert_eq!(q.number, "1Z999AA10123456784");
            assert_eq!(q.carrier, 100002);
        }
        TrackingQuery::Answered(_) => panic!("expected a request"),
    }
}

#[test]
fn pending_information() {
    let info = pending_info("Pending (no API key)");
    assert_eq!(info.status_code, "pending");
    assert_eq!(info.status_text.as_deref(), Some("Pending (no API key)"));
    assert!(info.events.is_empty());
}

#[test]
fn reply_errors_come_first() {
    let text = r#"{"code":0,"data":{"errors":[{"message":"quota exceeded"}],"rejected":[],"accepted":[]}}"#;
    let err = tracking_reply("N1", text).unwrap_err();
    assert_eq!(err.message(), "API error: quota exceeded");
    let text = r#"{"code":0,"data":{"errors":[{}]}}"#;
    assert_eq!(tracking_reply("N1", text).unwrap_err().message(), "API error: API error");
}

#[test]
fn rejected_number_is_reported() {
    let text = r#"{"code":0,"data":{"rejected":[
        {"number":"OTHER","error":{"message":"no"}},
        {"number":"N1","error":{"code":-18019909,"message":"The tracking number is not registered"}}
    ]}}"#;
    let err = tracking_reply("N1", text).unwrap_err();
    assert_eq!(err.message(), "Rejected by 17track: The tracking number is not registered");
    let text = r#"{"code":0,"data":{"rejected":[{"number":"N1","error":"busy"}]}}"#;
    assert_eq!(tracking_reply("N1", text).unwrap_err().message(), "Rejected by 17track: busy");
    let text = r#"{"code":0,"data":{"rejected":[{"number":"N1"}]}}"#;
    assert_eq!(
        tracking_reply("N1", text).unwrap_err().message(),
        "Rejected by 17track: number rejected by 17track"
    );
}

#[test]
fn accepted_track_is_read() {
    let text = r#"{"code":0,"data":{"accepted":[{"number":"N1","track_info":{
        "latest_status":{"status":"InTransit"},
        "latest_event":{"location":"MEMPHIS, TN"},
        "time_metrics":{"estimated_delivery_date":{"to":"2026-08-15T20:00:00Z"}}
    }}]}}"#;
    let info = tracking_reply("N1", text).unwrap();
    assert_eq!(info.status_code, "InTransit");
    assert_eq!(info.status_text.as_deref(), Some("InTransit"));
    assert_eq!(info.current_location.as_deref(), Some("MEMPHIS, TN"));
    assert_eq!(info.estimated_delivery_date, Some(UtcTime { secs: 1786824000, nanos: 0 }));
    assert!(info.events.is_empty());
    assert!(info.raw_data.is_some());
}

#[test]
fn accepted_track_falls_back() {
    let text = r#"{"code":0,"data":{"accepted":[{"track_info":{
        "tracking":{"status":"Delivered"},
        "time_details":{"date_estimated":"2026-08-15"}
    }}]}}"#;
    let info = tracking_reply("N1", text).unwrap();
    assert_eq!(info.status_code, "Delivered");
    assert_eq!(rfc3339(info.estimated_delivery_date.unwrap()), "2026-08-15T00:00:00+00:00");
    assert!(info.current_location.is_none());
    let text = r#"{"code":0,"data":{"accepted":[{"track_info":{}}]}}"#;
    assert_eq!(tracking_reply("N1", text).unwrap().status_code, "transit");
}

#[test]
fn no_track_is_pending() {
    let info = tracking_reply("N1", r#"{"code":0,"data":{"accepted":[]}}"#).unwrap();
    assert_eq!(info.status_code, "pending");
    assert_eq!(info.status_text.as_deref(), Some("No tracking info available"));
}

#[test]
fn non_zero_code_is_an_error() {
    let err = tracking_reply("N1", r#"{"code":-3,"message":"Unauthorized"}"#).unwrap_err();
    assert_eq!(err.message(), "API error -3: Unauthorized");
    let err = tracking_reply("N1", r#"{}"#).unwrap_err();
    assert_eq!(err.message(), "API error -1: Unknown API error");
    assert!(matches!(tracking_reply("N1", "<html>"), Err(TrackError::InvalidJson(_))));
}
