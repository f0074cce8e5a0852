use parceltracker::models::{Parcel, TrackingInfo, WaybarSelection};
use parceltracker::storage::{
    find_parcel_by_position, find_parcel_by_tracking, find_parcel_for_selection, identify, remove_parcel,
    rename_parcel, should_clear_selection,
};
use parceltracker::time::UtcTime;

fn parcel(id: &str, tracking: &str, desc: &str) -> Parcel {
    Parcel::with_id(id.to_string(), tracking.to_string(), desc.to_string(), "auto".to_string())
}

fn three() -> Vec<Parcel> {
    vec![parcel("a", "T1", "One"), parcel("b", "T2", "Two"), parcel("c", "T3", "Three")]
}

#[test]
fn finds_by_position_and_tracking() {
    let ps = three();
    assert_eq!(find_parcel_by_position(&ps, 1).unwrap().id, "a");
    assert_eq!(find_parcel_by_position(&ps, 3).unwrap().id, "c");
    assert!(find_parcel_by_position(&ps, 0).is_none());
    assert!(find_parcel_by_position(&ps, 4).is_none());
    assert_eq!(find_parcel_by_tracking(&ps, "T2").unwrap().id, "b");
    assert!(find_parcel_by_tracking(&ps, "T9").is_none());
}

#[test]
fn identifier_is_position_first() {
    let ps = vec![parcel("a", "2", "One"), parcel("b", "T2", "Two")];
    // "2" reads as the second position, not as the tracking number of the first.
    assert_eq!(identify(&ps, "2"), Some(1));
    // Out of range, a number falls back to the tracking numbers.
    let qs = vec![parcel("a", "7", "One")];
    assert_eq!(identify(&qs, "7"), Some(0));
    assert_eq!(identify(&ps, "T2"), Some(1));
    assert_eq!(identify(&ps, "nothing"), None);
}

#[test]
fn removes_by_identifier() {
    let mut ps = three();
    let removed = remove_parcel(&mut ps, "2").unwrap();
    assert_eq!(removed.id, "b");
    assert_eq!(ps.len(), 2);
    assert_eq!(ps[0].id, "a");
    assert_eq!(ps[1].id, "c");
    let removed = remove_parcel(&mut ps, "T3").unwrap();
    assert_eq!(removed.id, "c");
    assert!(remove_parcel(&mut ps, "T3").is_none());
    assert_eq!(ps.len(), 1);
}

#[test]
fn renames_only_the_description() {
    let mut ps = three();
    assert!(rename_parcel(&mut ps, "T1", "Keyboard"));
    assert_eq!(ps[0].description, "Keyboard");
    assert_eq!(ps[0].tracking_number, "T1");
    assert_eq!(ps[1].description, "Two");
    assert!(rename_parcel(&mut ps, "3", "Lamp"));
    assert_eq!(ps[2].description, "Lamp");
    assert!(!rename_parcel(&mut ps, "nothing", "x"));
    assert_eq!(ps.len(), 3);
}

#[test]
fn selection_target() {
    let ps = three();
    assert_eq!(find_parcel_for_selection(&ps, "1").unwrap(), "a");
    assert_eq!(find_parcel_for_selection(&ps, "T3").unwrap(), "c");
    assert!(find_parcel_for_selection(&ps, "5").is_none());
}

fn delivered(id: &str, tracking: &str) -> Parcel {
    let mut p = parcel(id, tracking, "");
    p.tracking_info = Some(TrackingInfo {
        status_code: "Delivered".to_string(),
        status_text: None,
        current_location: None,
        estimated_delivery_date: None,
        events: vec![],
        raw_data: None,
    });
    p
}

#[test]
fn selection_of_delivered_parcel_expires_after_two_hours() {
    let ps = vec![delivered("a", "T1"), parcel("b", "T2", "")];
    // 2026-08-13T12:00:00Z
    let sel = WaybarSelection { tracking: "T1".to_string(), timestamp: "2026-08-13T12:00:00+00:00".to_string() };
    let at = |secs: i64| UtcTime { secs, nanos: 0 };
    assert!(!should_clear_selection(&sel, &ps, at(1786622400 + 7199)));
    assert!(!should_clear_selection(&sel, &ps, at(1786622400 + 7200)));
    assert!(should_clear_selection(&sel, &ps, UtcTime { secs: 1786622400 + 7200, nanos: 1 }));
    let undelivered = WaybarSelection { tracking: "T2".to_string(), timestamp: sel.timestamp.clone() };
    assert!(!should_clear_selection(&undelivered, &ps, at(1786622400 + 100000)));
    let garbled = WaybarSelection { tracking: "T1".to_string(), timestamp: "yesterday".to_string() };
    assert!(!should_clear_selection(&garbled, &ps, at(1786622400 + 100000)));
}

#[test]
fn two_hours_count_to_the_nanosecond() {
    let ps = vec![delivered("a", "T1")];
    let sel = WaybarSelection { tracking: "T1".to_string(), timestamp: "2026-08-13T12:00:00.500+00:00".to_string() };
    assert!(!should_clear_selection(&sel, &ps, UtcTime { secs: 1786622400 + 7200, nanos: 0 }));
    assert!(!should_clear_selection(&sel, &ps, UtcTime { secs: 1786622400 + 7200, nanos: 500_000_000 }));
    assert!(should_clear_selection(&sel, &ps, UtcTime { secs: 1786622400 + 7200, nanos: 500_000_001 }));
}
