use parceltracker::bar::{find_first_arriving_at, resolve_bar_index, select_parcel_for_bar_at, unselect_parcel};
use parceltracker::dirstore::{App as Store, Config as StoreConfig, Removal};
use parceltracker::models::{Config, Parcel, ParcelState, TrackingEvent, TrackingInfo};
use parceltracker::order::sort_newest_first;
use parceltracker::text::{parse_usize, u128_decimal};
use parceltracker::time::UtcTime;
use parceltracker::tui::App;

const NOW: i64 = 1786622400; // 2026-08-13T12:00:00Z

fn at(secs: i64) -> UtcTime {
    UtcTime { secs, nanos: 0 }
}

fn parcel(tracking: &str, code: &str, eta_days: Option<i64>) -> Parcel {
    let mut p = Parcel::with_id(format!("id-{}", tracking), tracking.to_string(), String::new(), "auto".to_string());
    p.tracking_info = Some(TrackingInfo {
        status_code: code.to_string(),
        status_text: None,
        current_location: None,
        estimated_delivery_date: eta_days.map(|d| at(NOW + d * 86400)),
        events: vec![],
        raw_data: None,
    });
    p
}

#[test]
fn selected_parcel_leads_then_gives_way() {
    let ps = vec![parcel("A", "InTransit", Some(2)), parcel("B", "Delivered", None), parcel("C", "InTransit", Some(1))];
    let mut c = Config::empty();
    select_parcel_for_bar_at(&ps, "B", &mut c, "2026-08-13T12:00:00+00:00".to_string());
    assert_eq!(resolve_bar_index(&ps, &c, at(NOW + 60)), Some(1));
    assert_eq!(resolve_bar_index(&ps, &c, at(NOW + 7201)), find_first_arriving_at(&ps, at(NOW + 7201)));
    assert_eq!(resolve_bar_index(&ps, &c, at(NOW + 7201)), Some(2));
    unselect_parcel(&mut c);
    assert_eq!(resolve_bar_index(&ps, &c, at(NOW)), Some(2));
}

#[test]
fn checkpoints_come_out_newest_first() {
    let ev = |secs: i64, d: &str| TrackingEvent { date: at(secs), description: d.to_string(), location: String::new() };
    let events = vec![ev(3, "x"), ev(9, "y"), ev(3, "z"), ev(5, "w"), ev(9, "v")];
    let sorted = sort_newest_first(&events);
    let names: Vec<&str> = sorted.iter().map(|e| e.description.as_str()).collect();
    assert_eq!(names, vec!["y", "v", "w", "x", "z"]);
}

#[test]
fn row_moves_undo_each_other() {
    let ps = vec![parcel("A", "InTransit", None), parcel("B", "InTransit", None), parcel("C", "InTransit", None)];
    let mut a = App::new(ps, &Config::empty());
    for start in 0..3 {
        a.selected = Some(start);
        a.next();
        a.previous();
        assert_eq!(a.selected, Some(start));
        a.previous();
        a.next();
        assert_eq!(a.selected, Some(start));
    }
}

#[test]
fn removing_an_added_parcel_restores_the_store() {
    let mut s = Store { parcels: vec![], config: StoreConfig { track17_api_key: None, waybar_selected: None } };
    s.add_parcel_at("A", "ups", "a", 1);
    s.add_parcel_at("B", "ups", "b", 1);
    let before: Vec<String> = s.parcels.iter().map(|p| p.tracking.clone()).collect();
    assert!(s.add_parcel_at("NEW", "ups", "n", 2));
    assert!(!s.add_parcel_at("NEW", "ups", "n", 3));
    assert!(matches!(s.remove_parcel("NEW"), Ok(Removal::ByTracking)));
    let after: Vec<String> = s.parcels.iter().map(|p| p.tracking.clone()).collect();
    assert_eq!(before, after);
}

#[test]
fn positions_read_back() {
    for n in [0usize, 1, 9, 10, 42, 1000, usize::MAX] {
        let text = u128_decimal(n as u128);
        assert_eq!(parse_usize(&text), Some(n));
    }
}

#[test]
fn undelivered_never_reads_as_delivered() {
    for s in ["undelivered", "package undelivered - delivered later", "undelivered, out for delivery"] {
        assert_ne!(ParcelState::classify(s), ParcelState::Delivered);
    }
}

#[test]
fn detection_ignores_case_and_separators() {
    let a = parceltracker::models::Carrier::detect("1z999aa1-0123 456784");
    let b = parceltracker::models::Carrier::detect("1Z999AA10123456784");
    assert_eq!(a, b);
    assert_eq!(
        parceltracker::api::detect_carrier("ab 123456789 ca"),
        parceltracker::api::detect_carrier("AB123456789CA")
    );
}
