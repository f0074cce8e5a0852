use parceltracker::models::{Config, Parcel, TrackingInfo, WaybarSelection};
use parceltracker::time::UtcTime;
use parceltracker::tui::{spinner, App, Command, Event, InputMode, Key, Tone};

fn parcel(id: &str, tracking: &str, desc: &str, code: Option<&str>) -> Parcel {
    let mut p = Parcel::with_id(id.to_string(), tracking.to_string(), desc.to_string(), "auto".to_string());
    p.tracking_info = code.map(|c| TrackingInfo {
        status_code: c.to_string(),
        status_text: None,
        current_location: None,
        estimated_delivery_date: None,
        events: vec![],
        raw_data: None,
    });
    p
}

fn app() -> App {
    let ps = vec![
        parcel("a", "T1", "One", Some("Delivered")),
        parcel("b", "T2", "Two", Some("InTransit")),
        parcel("c", "T3", "Three", None),
    ];
    App::new(ps, &Config::empty())
}

fn key(c: char) -> Event {
    Event::Key(Key::Char(c))
}

#[test]
fn opens_on_first_row_led_by_first_undelivered() {
    let a = app();
    assert_eq!(a.selected, Some(0));
    assert_eq!(a.selected_id.as_deref(), Some("b"));
    let mut c = Config::empty();
    c.waybar_selected = Some(WaybarSelection { tracking: "T3".to_string(), timestamp: String::new() });
    let b = App::new(vec![parcel("x", "T3", "", None)], &c);
    assert_eq!(b.selected_id.as_deref(), Some("x"));
    let e = App::new(vec![], &Config::empty());
    assert_eq!(e.selected, None);
    assert!(e.selected_id.is_none());
}

#[test]
fn arrows_wrap_around() {
    let mut a = app();
    a.handle_event(Event::Key(Key::Up));
    assert_eq!(a.selected, Some(2));
    a.handle_event(Event::Key(Key::Down));
    assert_eq!(a.selected, Some(0));
    a.next();
    a.next();
    assert_eq!(a.selected, Some(2));
    a.previous();
    assert_eq!(a.selected, Some(1));
}

#[test]
fn details_scroll() {
    let mut a = app();
    a.handle_event(Event::Key(Key::Enter));
    assert!(a.show_details);
    a.handle_event(Event::Key(Key::PageDown));
    a.handle_event(Event::ScrollDown);
    assert_eq!(a.details_scroll, 8);
    a.handle_event(Event::Key(Key::PageUp));
    assert_eq!(a.details_scroll, 3);
    a.handle_event(Event::Key(Key::Home));
    assert_eq!(a.details_scroll, 0);
    a.handle_event(Event::ScrollUp);
    assert_eq!(a.details_scroll, 0);
    a.handle_event(key('q'));
    assert!(!a.show_details);
    assert!(!a.quit);
    a.handle_event(Event::Key(Key::Esc));
    assert!(a.quit);
}

#[test]
fn adding_through_the_text_field() {
    let mut a = app();
    a.handle_event(key('a'));
    assert_eq!(a.input_mode, Some(InputMode::Add));
    for c in "1Z999AA10123456784 Big box".chars() {
        a.handle_event(key(c));
    }
    let fx = a.handle_event(Event::Key(Key::Enter));
    assert!(fx.save_parcels);
    assert_eq!(a.parcels.len(), 4);
    assert_eq!(a.parcels[3].tracking_number, "1Z999AA10123456784");
    assert_eq!(a.parcels[3].description, "Big box");
    assert_eq!(a.parcels[3].carrier, "ups");
    assert_eq!(a.message.as_deref(), Some("Parcel added"));
    assert!(a.input_mode.is_none());

    a.handle_event(key('a'));
    for c in "T1".chars() {
        a.handle_event(key(c));
    }
    let fx = a.handle_event(Event::Key(Key::Enter));
    assert!(!fx.save_parcels);
    assert_eq!(a.message.as_deref(), Some("Tracking number already exists"));

    a.handle_event(key('a'));
    a.handle_event(key('x'));
    a.handle_event(Event::Key(Key::Backspace));
    a.handle_event(Event::Key(Key::Enter));
    assert_eq!(a.message.as_deref(), Some("Add cancelled"));
    assert_eq!(a.parcels.len(), 4);
}

#[test]
fn renaming_and_deleting() {
    let mut a = app();
    a.handle_event(Event::Key(Key::Down));
    a.handle_event(key('r'));
    for c in " Socks ".chars() {
        a.handle_event(key(c));
    }
    let fx = a.handle_event(Event::Key(Key::Enter));
    assert!(fx.save_parcels);
    assert_eq!(a.parcels[1].description, "Socks");
    assert_eq!(a.message.as_deref(), Some("Parcel renamed"));

    // Deleting the parcel that leads the bar clears the lead.
    let fx = a.handle_event(key('d'));
    assert!(fx.save_parcels);
    assert!(fx.save_selection);
    assert_eq!(a.parcels.len(), 2);
    assert!(a.selected_id.is_none());
    assert_eq!(a.selected, Some(1));
    assert_eq!(a.message.as_deref(), Some("Parcel removed"));
}

#[test]
fn number_keys_pick_the_bar_parcel() {
    let mut a = app();
    let fx = a.handle_event(key('3'));
    assert!(fx.save_selection);
    assert_eq!(a.selected_id.as_deref(), Some("c"));
    assert_eq!(a.message.as_deref(), Some("Selected: Three (T3)"));
    let fx = a.handle_event(key('9'));
    assert!(!fx.save_selection);
    let fx = a.handle_event(key('u'));
    assert!(fx.save_selection);
    assert!(a.selected_id.is_none());
    let mut c = Config::empty();
    c.waybar_selected = Some(WaybarSelection { tracking: "T1".to_string(), timestamp: "old".to_string() });
    a.apply_selection(&mut c, "now".to_string());
    assert!(c.waybar_selected.is_none());
    a.handle_event(key('2'));
    a.apply_selection(&mut c, "now".to_string());
    let sel = c.waybar_selected.unwrap();
    assert_eq!(sel.tracking, "T2");
    assert_eq!(sel.timestamp, "now");
}

#[test]
fn update_progress() {
    let mut a = app();
    assert!(a.should_start_update());
    let fx = a.handle_event(key('U'));
    assert!(fx.start_update);
    a.handle_command(Command::Start(3));
    assert!(a.is_updating);
    assert!(!a.should_start_update());
    assert_eq!(a.title(), "Parcels · updating 0/3");
    a.on_tick();
    assert_eq!(a.spinner_tick, 1);
    a.handle_command(Command::ItemStart(1));
    assert_eq!(a.updating_index, Some(1));
    let updated = parcel("b", "T2", "Two", Some("Delivered"));
    let fx = a.handle_command(Command::ItemDone(1, Box::new(updated), None));
    assert!(fx.save_parcels);
    assert_eq!(a.parcels[1].tracking_info.as_ref().unwrap().status_code, "Delivered");
    a.handle_command(Command::ItemDone(2, Box::new(parcel("c", "T3", "Three", None)), Some("boom".to_string())));
    a.handle_command(Command::Complete);
    assert!(!a.is_updating);
    assert_eq!(a.parcels_updated, 2);
    assert!(a.message.as_deref().unwrap().contains("1 failed"));
    let row = a.row_text(2, UtcTime { secs: 0, nanos: 0 });
    assert_eq!(row.number, "3.");
    assert!(row.status.starts_with("✗ "));
}

#[test]
fn spinner_frames_cycle() {
    assert_eq!(spinner(0), "⠋");
    assert_eq!(spinner(10), "⠋");
    assert_eq!(spinner(9), "⠏");
}

fn texts(line: &[parceltracker::tui::Segment]) -> Vec<(String, parceltracker::tui::Tone)> {
    line.iter().map(|s| (s.text.clone(), s.tone)).collect()
}

#[test]
fn details_lines() {
    let mut p = parcel("b", "1Z999AA10123456784", "Keyboard", Some("InTransit"));
    {
        let info = p.tracking_info.as_mut().unwrap();
        info.current_location = Some("MEMPHIS, TN".to_string());
        // 2026-08-15T20:00:00Z
        info.estimated_delivery_date = Some(UtcTime { secs: 1786824000, nanos: 0 });
        info.events = vec![parceltracker::models::TrackingEvent {
            date: UtcTime { secs: 1786622400, nanos: 0 },
            description: "Arrived".to_string(),
            location: String::new(),
        }];
    }
    p.last_updated = Some(UtcTime { secs: 1786622400, nanos: 0 });
    let a = App::new(vec![p], &Config::empty());
    assert_eq!(a.details_title(0), "Details: Keyboard (1Z999AA10123456784)");
    // Seen from 2026-08-13T12:00:00Z.
    let lines = a.details(0, UtcTime { secs: 1786622400, nanos: 0 });
    assert_eq!(texts(&lines[0]), vec![("Tracking: ".to_string(), Tone::Label), ("1Z999AA10123456784".to_string(), Tone::Plain)]);
    assert_eq!(texts(&lines[2])[1].0, "Auto-detected (UPS)");
    assert_eq!(texts(&lines[3])[1].0, "Yes ★");
    assert_eq!(texts(&lines[5]), vec![("Status: ".to_string(), Tone::Label), ("📦 InTransit".to_string(), Tone::Info)]);
    assert_eq!(texts(&lines[6])[1].0, "MEMPHIS, TN");
    assert_eq!(
        texts(&lines[7]),
        vec![
            ("Estimated Delivery: ".to_string(), Tone::Label),
            ("2026-08-15 (".to_string(), Tone::Plain),
            ("in 2 days)".to_string(), Tone::Soon),
        ]
    );
    assert_eq!(texts(&lines[8])[1].0, "2026-08-13 12:00");
    assert_eq!(texts(&lines[10])[0].0, "Tracking History:");
    assert_eq!(texts(&lines[12])[0], ("[2026-08-13 12:00] ".to_string(), Tone::Dim));
    assert_eq!(texts(&lines[12])[1].0, "Arrived");
    assert_eq!(lines.len(), 13);

    let untracked = App::new(vec![parcel("x", "XYZ", "", None)], &Config::empty());
    let lines = untracked.details(0, UtcTime { secs: 0, nanos: 0 });
    assert_eq!(lines.len(), 6);
    assert_eq!(texts(&lines[5])[0].0, "No tracking information available. Run 'parceltracker update' to fetch.");
}
