use parceltracker::dirstore::{delivery_note_on, App, Config, LookupError, Parcel, Removal};

fn store(trackings: &[&str]) -> App {
    let mut app = App { parcels: vec![], config: Config { track17_api_key: None, waybar_selected: None } };
    for (i, t) in trackings.iter().enumerate() {
        assert!(app.add_parcel_at(t, "ups", &format!("item {}", i + 1), 100));
    }
    app
}

fn trackings(ps: &[Parcel]) -> Vec<&str> {
    ps.iter().map(|p| p.tracking.as_str()).collect()
}

#[test]
fn adding_refuses_duplicates() {
    let mut app = store(&["A", "B"]);
    assert_eq!(app.parcels[0].status, "Info Received");
    assert_eq!(app.parcels[0].last_checked, 100);
    assert!(app.parcels[0].estimated_delivery.is_none());
    assert!(!app.add_parcel_at("A", "dhl", "again", 5));
    assert_eq!(app.parcels.len(), 2);
    assert!(app.add_parcel("C", "dhl", "new"));
    assert_eq!(trackings(&app.parcels), vec!["A", "B", "C"]);
}

#[test]
fn removing_by_position_and_tracking() {
    let mut app = store(&["A", "B", "C"]);
    match app.remove_parcel("2") {
        Ok(Removal::AtPosition(p)) => assert_eq!(p.tracking, "B"),
        _ => panic!("expected a removal by position"),
    }
    assert_eq!(trackings(&app.parcels), vec!["A", "C"]);
    assert!(matches!(app.remove_parcel("0"), Err(LookupError::OutOfRange(0, 2))));
    assert!(matches!(app.remove_parcel("3"), Err(LookupError::OutOfRange(3, 2))));
    assert!(matches!(app.remove_parcel("C"), Ok(Removal::ByTracking)));
    assert_eq!(trackings(&app.parcels), vec!["A"]);
    assert!(matches!(app.remove_parcel("C"), Err(LookupError::NotFound)));
    assert_eq!(trackings(&app.parcels), vec!["A"]);
}

#[test]
fn removing_by_tracking_takes_every_copy() {
    let mut app = store(&["A", "B"]);
    app.parcels.push(app.parcels[0].clone());
    assert!(matches!(app.remove_parcel("A"), Ok(Removal::ByTracking)));
    assert_eq!(trackings(&app.parcels), vec!["B"]);
}

#[test]
fn renaming() {
    let mut app = store(&["A", "B"]);
    let r = app.rename_parcel("2", "Lamp").unwrap();
    assert_eq!(r.tracking, "B");
    assert_eq!(r.previous, "item 2");
    assert_eq!(app.parcels[1].description, "Lamp");
    let r = app.rename_parcel("A", "Desk").unwrap();
    assert_eq!(r.previous, "item 1");
    assert_eq!(app.parcels[0].description, "Desk");
    assert!(matches!(app.rename_parcel("X", "y"), Err(LookupError::NotFound)));
    assert!(matches!(app.rename_parcel("9", "y"), Err(LookupError::OutOfRange(9, 2))));
}

#[test]
fn selecting_for_the_bar() {
    let mut app = store(&["A", "B"]);
    assert_eq!(app.select_waybar_at("2", 777).unwrap(), "B");
    let sel = app.config.waybar_selected.clone().unwrap();
    assert_eq!(sel.tracking, "B");
    assert_eq!(sel.timestamp, 777);
    assert_eq!(app.select_waybar("A").unwrap(), "A");
    assert!(matches!(app.select_waybar_at("Q", 1), Err(LookupError::NotFound)));
    assert_eq!(app.config.waybar_selected.clone().unwrap().tracking, "A");
    app.unselect_waybar();
    assert!(app.config.waybar_selected.is_none());
    app.set_api_key("secret");
    assert_eq!(app.config.track17_api_key.as_deref(), Some("secret"));
}

#[test]
fn delivery_notes() {
    // 2026-08-15 is day 20680 counted from 1970-01-01.
    let date = Some("2026-08-15".to_string());
    assert_eq!(delivery_note_on(&date, 20680), " (today)");
    assert_eq!(delivery_note_on(&date, 20679), " (1 day)");
    assert_eq!(delivery_note_on(&date, 20670), " (10 days)");
    assert_eq!(delivery_note_on(&date, 20681), " (delivered)");
    assert_eq!(delivery_note_on(&Some("next week".to_string()), 20680), " (next week)");
    assert_eq!(delivery_note_on(&None, 20680), "");
}

#[test]
fn clock_readings() {
    // Some time after 2020-01-01.
    assert!(parceltracker::dirstore::current_timestamp() > 1_577_836_800);
    assert_eq!(parceltracker::dirstore::format_delivery_date(&None), "");
    assert_eq!(
        parceltracker::dirstore::format_delivery_date(&Some("soon".to_string())),
        " (soon)"
    );
    assert_eq!(
        parceltracker::dirstore::format_delivery_date(&Some("2000-01-01".to_string())),
        " (delivered)"
    );
}

#[test]
fn seconds_of_an_instant() {
    assert_eq!(parceltracker::dirstore::unix_seconds(parceltracker::time::UtcTime { secs: 1786622400, nanos: 999 }), 1786622400);
    assert_eq!(parceltracker::dirstore::unix_seconds(parceltracker::time::UtcTime { secs: -5, nanos: 0 }), 0);
}
