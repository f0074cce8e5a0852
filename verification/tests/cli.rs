use parceltracker::api::TrackError;
use parceltracker::carriers::for_carrier;
use parceltracker::cli::{after_first_party, FirstPartyOutcome};
use parceltracker::cli::{
    add_parcel, carrier_column_text, cycle_bar_selection, format_eta_compact_in, key_status, list_row,
    next_cycle_index, open_target, provider_for, record_update, set_track17_key, status_column_text, AddOutcome,
};
use parceltracker::models::{Carrier, Config, Parcel, TrackingInfo, WaybarSelection};
use parceltracker::setup::{apply_entered_key, confirm};
use parceltracker::time::UtcTime;

const NOW: i64 = 1786622400; // 2026-08-13T12:00:00Z

fn at(secs: i64) -> UtcTime {
    UtcTime { secs, nanos: 0 }
}

fn parcel(tracking: &str, desc: &str, carrier: &str) -> Parcel {
    Parcel::with_id(format!("id-{}", tracking), tracking.to_string(), desc.to_string(), carrier.to_string())
}

fn info(code: &str) -> TrackingInfo {
    TrackingInfo {
        status_code: code.to_string(),
        status_text: Some("In transit".to_string()),
        current_location: None,
        estimated_delivery_date: None,
        events: vec![],
        raw_data: None,
    }
}

#[test]
fn adding_detects_the_carrier() {
    let mut ps = vec![];
    match add_parcel(&mut ps, "1Z999AA10123456784".to_string(), String::new()) {
        AddOutcome::Added { shown_as, carrier } => {
            assert_eq!(shown_as, "1Z999AA10123456784");
            assert_eq!(carrier, Carrier::UPS);
        }
        AddOutcome::AlreadyExists => panic!("expected the parcel to be added"),
    }
    assert_eq!(ps.len(), 1);
    assert_eq!(ps[0].carrier, "ups");
    assert!(ps[0].tracking_info.is_none());
    match add_parcel(&mut ps, "TBA123456789012".to_string(), "Books".to_string()) {
        AddOutcome::Added { shown_as, carrier } => {
            assert_eq!(shown_as, "Books");
            assert_eq!(carrier, Carrier::Amazon);
        }
        AddOutcome::AlreadyExists => panic!("expected the parcel to be added"),
    }
    assert_eq!(ps[1].carrier, "amazon");
    assert!(matches!(add_parcel(&mut ps, "1Z999AA10123456784".to_string(), "again".to_string()), AddOutcome::AlreadyExists));
    assert_eq!(ps.len(), 2);
}

#[test]
fn compact_labels() {
    let now = at(NOW);
    assert_eq!(format_eta_compact_in("2026-08-13T15:00:00Z", now, Some(0), Some(0)), "Today @ 3pm");
    assert_eq!(format_eta_compact_in("2026-08-14T09:30:00Z", now, Some(0), Some(0)), "Tomorrow @ 9:30am");
    assert_eq!(format_eta_compact_in("2026-08-15T20:00:00Z", now, Some(0), Some(0)), "Sat @ 8pm");
    assert_eq!(format_eta_compact_in("2026-09-01T20:00:00Z", now, Some(0), Some(0)), "sep 01 @ 8:00pm");
    assert_eq!(format_eta_compact_in("later", now, Some(0), Some(0)), "later");
}

#[test]
fn list_columns() {
    let mut p = parcel("1Z999AA10123456784", "Keyboard", "auto");
    assert_eq!(status_column_text(&p), "📍 Not updated");
    assert_eq!(carrier_column_text(&p), "UPS");
    p.tracking_info = Some(info("InTransit"));
    assert_eq!(status_column_text(&p), "📦 In transit");
    let q = parcel("x", "", "fedex");
    assert_eq!(carrier_column_text(&q), "fedex");
    let row = list_row(4, &p, at(NOW));
    assert_eq!(row.len(), 6);
    assert_eq!(row[0], "5");
    assert_eq!(row[2], "Keyboard");
    assert_eq!(row[3], "1Z999AA10123456784");
    assert_eq!(row[4], "UPS");
    assert_eq!(row[5], "-");
}

#[test]
fn providers() {
    let mut c = Config::empty();
    assert!(provider_for(&parcel("TBA123456789012", "", "auto"), &c).is_some());
    assert!(provider_for(&parcel("1Z999AA10123456784", "", "auto"), &c).is_none());
    assert_eq!(key_status(&c), "—");
    assert!(!set_track17_key(&mut c, None));
    assert!(set_track17_key(&mut c, Some("k".to_string())));
    assert_eq!(key_status(&c), "set");
}

#[test]
fn recording_updates() {
    let mut p = parcel("1Z999AA10123456784", "", "auto");
    assert!(record_update(&mut p, Ok(info("InTransit")), at(NOW)).is_none());
    assert_eq!(p.last_updated, Some(at(NOW)));
    assert_eq!(p.tracking_info.as_ref().unwrap().status_code, "InTransit");
    let m = record_update(&mut p, Err(TrackError::Rejected("busy".to_string())), at(NOW + 5));
    assert_eq!(m.as_deref(), Some("Rejected by 17track: busy"));
    assert_eq!(p.last_updated, Some(at(NOW)));
}

#[test]
fn cycling_wraps_around() {
    let ps = vec![parcel("A", "", "auto"), parcel("B", "", "auto"), parcel("C", "", "auto")];
    let mut c = Config::empty();
    assert_eq!(next_cycle_index(&ps, &c), Some(0));
    assert_eq!(cycle_bar_selection(&ps, &mut c).as_deref(), Some("Selected: A"));
    assert_eq!(next_cycle_index(&ps, &c), Some(1));
    c.waybar_selected = Some(WaybarSelection { tracking: "C".to_string(), timestamp: String::new() });
    assert_eq!(next_cycle_index(&ps, &c), Some(0));
    c.waybar_selected = Some(WaybarSelection { tracking: "Z".to_string(), timestamp: String::new() });
    assert_eq!(next_cycle_index(&ps, &c), Some(1));
    assert_eq!(cycle_bar_selection(&vec![], &mut c), None);
}

#[test]
fn opening_targets() {
    let ps = vec![parcel("A", "", "auto"), parcel("B", "", "auto")];
    let c = Config::empty();
    assert_eq!(open_target(&ps, Some("2"), &c, at(NOW)), Some(1));
    assert_eq!(open_target(&ps, Some("0"), &c, at(NOW)), Some(0));
    assert_eq!(open_target(&ps, Some("3"), &c, at(NOW)), None);
    assert_eq!(open_target(&ps, Some("B"), &c, at(NOW)), Some(1));
    assert_eq!(open_target(&ps, None, &c, at(NOW)), Some(0));
}

#[test]
fn setup_answers() {
    assert!(confirm("Y"));
    assert!(confirm("yes"));
    assert!(!confirm("no"));
    assert!(!confirm(""));
    let mut c = Config::empty();
    c.track17_api_key = Some("old".to_string());
    assert!(!apply_entered_key(&mut c, String::new(), true, true));
    assert_eq!(c.track17_api_key.as_deref(), Some("old"));
    assert!(!apply_entered_key(&mut c, "new".to_string(), false, false));
    assert_eq!(c.track17_api_key.as_deref(), Some("old"));
    assert!(apply_entered_key(&mut c, "new".to_string(), false, true));
    assert_eq!(c.track17_api_key.as_deref(), Some("new"));
}

#[test]
fn first_party_outcomes() {
    let provider = for_carrier(&Carrier::Amazon, &Config::empty()).unwrap();
    match after_first_party(&provider, Ok(info("InTransit"))) {
        FirstPartyOutcome::Served { info, source } => {
            assert_eq!(info.status_code, "InTransit");
            assert_eq!(source, "Amazon");
        }
        FirstPartyOutcome::FallBack { .. } => panic!("expected the tracker's information"),
    }
    match after_first_party(&provider, Err("Amazon tracker returned 503".to_string())) {
        FirstPartyOutcome::FallBack { reason } => assert_eq!(reason, "Amazon tracker returned 503"),
        FirstPartyOutcome::Served { .. } => panic!("expected a fall back"),
    }
}
