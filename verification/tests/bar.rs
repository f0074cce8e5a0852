use parceltracker::bar::{
    eta_label, find_first_arriving_at, format_eta_smart_in, resolve_bar_index, select_parcel_for_bar_at,
    unselect_parcel,
};
use parceltracker::models::{Config, Parcel, TrackingInfo, WaybarSelection};
use parceltracker::time::UtcTime;

const NOW: i64 = 1786622400; // 2026-08-13T12:00:00Z

fn at(secs: i64) -> UtcTime {
    UtcTime { secs, nanos: 0 }
}

fn parcel(tracking: &str, code: &str, eta_days: Option<i64>) -> Parcel {
    let mut p = Parcel::with_id(format!("id-{}", tracking), tracking.to_string(), String::new(), "auto".to_string());
    p.tracking_info = Some(TrackingInfo {
        status_code: code.to_string(),
        status_text: None,
        current_location: None,
        estimated_delivery_date: eta_days.map(|d| at(NOW + d * 86400)),
        events: vec![],
        raw_data: None,
    });
    p
}

fn config(selected: Option<(&str, &str)>) -> Config {
    let mut c = Config::empty();
    c.waybar_selected = selected.map(|(t, s)| WaybarSelection { tracking: t.to_string(), timestamp: s.to_string() });
    c
}

#[test]
fn first_arriving_prefers_soonest_undelivered() {
    let ps = vec![
        parcel("A", "InTransit", None),
        parcel("B", "Delivered", Some(0)),
        parcel("C", "InTransit", Some(3)),
        parcel("D", "InTransit", Some(1)),
        parcel("E", "InTransit", Some(1)),
    ];
    assert_eq!(find_first_arriving_at(&ps, at(NOW)), Some(3));
    let none_dated = vec![parcel("A", "Delivered", None), parcel("B", "InTransit", None), parcel("C", "InTransit", None)];
    assert_eq!(find_first_arriving_at(&none_dated, at(NOW)), Some(1));
    let all_delivered = vec![parcel("A", "Delivered", Some(1))];
    assert_eq!(find_first_arriving_at(&all_delivered, at(NOW)), None);
}

#[test]
fn selection_leads_until_it_expires() {
    let ps = vec![parcel("A", "InTransit", Some(1)), parcel("B", "Delivered", None)];
    let c = config(Some(("B", "2026-08-13T12:00:00+00:00")));
    assert_eq!(resolve_bar_index(&ps, &c, at(NOW + 3600)), Some(1));
    // Delivered and selected exactly two hours ago: still kept.
    assert_eq!(resolve_bar_index(&ps, &c, at(NOW + 7200)), Some(1));
    // More than two hours ago: the bar moves on.
    assert_eq!(resolve_bar_index(&ps, &c, at(NOW + 7201)), Some(0));
    // A selection that names no parcel is passed over.
    assert_eq!(resolve_bar_index(&ps, &config(Some(("Z", "x"))), at(NOW)), Some(0));
    assert_eq!(resolve_bar_index(&ps, &config(None), at(NOW)), Some(0));
}

#[test]
fn selecting_and_clearing() {
    let mut ps = vec![parcel("A", "InTransit", None), parcel("B", "InTransit", None)];
    ps[1].description = "Lamp".to_string();
    let mut c = config(None);
    c.track17_api_key = Some("k".to_string());
    let m = select_parcel_for_bar_at(&ps, "2", &mut c, "stamp".to_string());
    assert_eq!(m, "Selected: Lamp (B)");
    let sel = c.waybar_selected.clone().unwrap();
    assert_eq!(sel.tracking, "B");
    assert_eq!(sel.timestamp, "stamp");
    let m = select_parcel_for_bar_at(&ps, "A", &mut c, "later".to_string());
    assert_eq!(m, "Selected: A");
    assert_eq!(c.waybar_selected.clone().unwrap().tracking, "A");
    let m = select_parcel_for_bar_at(&ps, "9", &mut c, "x".to_string());
    assert_eq!(m, "Parcel not found: 9");
    assert_eq!(c.waybar_selected.clone().unwrap().tracking, "A");
    assert_eq!(unselect_parcel(&mut c), "Selection cleared");
    assert!(c.waybar_selected.is_none());
    assert_eq!(c.track17_api_key.as_deref(), Some("k"));
}

#[test]
fn labels_by_distance() {
    assert_eq!(eta_label(0, 3, "3:04pm", "aug 13 @ 3:04pm", "aug 13, 2026 @ 3:04pm"), "Today @ 3:04pm");
    assert_eq!(eta_label(1, 4, "9:00am", "-", "-"), "Tomorrow @ 9:00am");
    assert_eq!(eta_label(2, 5, "8:00pm", "-", "-"), "Sat @ 8:00pm");
    assert_eq!(eta_label(6, 1, "8:00pm", "-", "-"), "Tue @ 8:00pm");
    assert_eq!(eta_label(7, 1, "-", "aug 20 @ 8:00pm", "-"), "aug 20 @ 8:00pm");
    assert_eq!(eta_label(365, 1, "-", "md", "full"), "md");
    assert_eq!(eta_label(366, 1, "-", "md", "full"), "full");
    assert_eq!(eta_label(-1, 1, "-", "md", "full"), "full");
}

#[test]
fn smart_label_in_a_given_zone() {
    let now = at(NOW);
    assert_eq!(format_eta_smart_in("2026-08-15T20:00:00Z", now, Some(0), Some(0)), "Sat @ 8:00pm");
    assert_eq!(format_eta_smart_in("2026-08-13T15:04:00Z", now, Some(0), Some(0)), "Today @ 3:04pm");
    assert_eq!(format_eta_smart_in("2026-08-14T09:00:00Z", now, Some(0), Some(0)), "Tomorrow @ 9:00am");
    assert_eq!(format_eta_smart_in("2026-09-01T20:00:00Z", now, Some(0), Some(0)), "sep 01 @ 8:00pm");
    assert_eq!(format_eta_smart_in("2028-01-02T20:00:00Z", now, Some(0), Some(0)), "jan 02, 2028 @ 8:00pm");
    // Five hours behind UTC, 02:00Z on the 14th is still the 13th.
    assert_eq!(format_eta_smart_in("2026-08-14T02:00:00Z", now, Some(-18000), Some(-18000)), "Today @ 9:00pm");
    assert_eq!(format_eta_smart_in("soon", now, Some(0), Some(0)), "soon");
    assert_eq!(format_eta_smart_in("2026-08-15T20:00:00Z", now, None, Some(0)), "2026-08-15T20:00:00Z");
}

#[test]
fn smart_label_keeps_unreadable_text() {
    assert_eq!(parceltracker::bar::format_eta_smart("not a date"), "not a date");
}

#[test]
fn all_digit_tracking_numbers_can_be_selected() {
    let ps = vec![parcel("123456789012", "InTransit", None), parcel("B", "InTransit", None)];
    let mut c = config(None);
    let m = select_parcel_for_bar_at(&ps, "123456789012", &mut c, "stamp".to_string());
    assert_eq!(m, "Selected: 123456789012");
    assert_eq!(c.waybar_selected.clone().unwrap().tracking, "123456789012");
    // A position in range still reads as a position.
    let m = select_parcel_for_bar_at(&ps, "2", &mut c, "stamp".to_string());
    assert_eq!(m, "Selected: B");
}

#[test]
fn bar_entry_of_the_leading_parcel() {
    let mut ps = vec![parcel("A", "Delivered", None), parcel("B", "InTransit", Some(2))];
    ps[1].description = "Lamp".to_string();
    let e = parceltracker::bar::bar_entry_at(&ps, &config(None), at(NOW));
    assert!(e.text.starts_with("📦 Lamp (B) · "));
    assert_eq!(e.tooltip, "InTransit");
    assert_eq!(e.class, "in-transit");
    let none = parceltracker::bar::bar_entry_at(&vec![parcel("A", "Delivered", None)], &config(None), at(NOW));
    assert_eq!(none.text, "");
    assert_eq!(none.tooltip, "No parcels");
    assert_eq!(none.class, "unknown");
}
