use grafica_ide::ribbon::{
    clock_text, clock_time_format, clock_zone, render_clock, hotkey_bindings, RibbonEvent, RibbonState,
    CLOCK_DATE_FORMAT,
};
use grafica_ide::settings::common_timezones;
use grafica_ide::tabs::{Tab, TabKind, CANVAS_ID, EDITOR_ID, LOGGER_ID, PROJECT_ID, SETTINGS_ID};

const KINDS: [TabKind; 5] =
    [TabKind::Project, TabKind::Editor, TabKind::Canvas, TabKind::Logger, TabKind::Settings];

#[test]
fn tab_titles() {
    let titles: Vec<&str> = KINDS.iter().map(|k| Tab::new(*k).title()).collect();
    assert_eq!(titles, vec!["Project", "Editor", "Canvas", "Logger", "Settings"]);
}

#[test]
fn tab_citizen_keys() {
    let keys: Vec<&str> = KINDS.iter().map(|k| Tab::new(*k).citizen_key()).collect();
    assert_eq!(keys, vec![PROJECT_ID, EDITOR_ID, CANVAS_ID, LOGGER_ID, SETTINGS_ID]);
    assert_eq!(keys, vec!["project", "editor", "canvas", "logger", "settings"]);
    for (i, a) in keys.iter().enumerate() {
        for b in keys.iter().skip(i + 1) {
            assert_ne!(a, b);
        }
    }
}

#[test]
fn only_settings_tab_is_not_closeable() {
    for k in KINDS {
        assert_eq!(Tab::new(k).closeable(), k != TabKind::Settings);
    }
}

#[test]
fn tab_new_keeps_kind() {
    assert_eq!(Tab::new(TabKind::Canvas).kind, TabKind::Canvas);
}

#[test]
fn ribbon_modals_open_and_close_independently() {
    let mut r = RibbonState::default();
    assert!(!r.show_about_modal && !r.show_grafica_modal);
    r.apply(RibbonEvent::AboutChipClicked);
    assert!(r.show_about_modal && !r.show_grafica_modal);
    r.apply(RibbonEvent::GraficaChipClicked);
    assert!(r.show_about_modal && r.show_grafica_modal);
    r.apply(RibbonEvent::AboutClosed);
    assert!(!r.show_about_modal && r.show_grafica_modal);
    r.apply(RibbonEvent::GraficaClosed);
    assert!(!r.show_about_modal && !r.show_grafica_modal);
}

#[test]
fn clock_formats() {
    assert_eq!(clock_time_format(true), "%H:%M:%S");
    assert_eq!(clock_time_format(false), "%I:%M:%S %p");
    assert_eq!(CLOCK_DATE_FORMAT, "%Y-%m-%d");
    assert_eq!(clock_text("2024-05-10", "12:00:00"), "2024-05-10 🕐 12:00:00");
}

#[test]
fn clock_zone_parses_known_names_only() {
    assert_eq!(clock_zone(&Some("US/Eastern".to_string())), Some(chrono_tz::Tz::US__Eastern));
    assert_eq!(clock_zone(&Some("Asia/Tokyo".to_string())), Some(chrono_tz::Tz::Asia__Tokyo));
    assert_eq!(clock_zone(&Some("UTC".to_string())), Some(chrono_tz::Tz::UTC));
    assert_eq!(clock_zone(&Some("Mars/Olympus_Mons".to_string())), None);
    assert_eq!(clock_zone(&Some("us/eastern".to_string())), None);
    assert_eq!(clock_zone(&None), None);
}

#[test]
fn common_timezones_all_parse() {
    let names = common_timezones();
    assert_eq!(names.len(), 11);
    assert_eq!(names[0], "UTC");
    assert_eq!(names[10], "Australia/Sydney");
    for name in names {
        assert!(clock_zone(&Some(name.to_string())).is_some(), "{name}");
    }
}

#[test]
fn hotkey_table() {
    let keys = hotkey_bindings();
    assert_eq!(
        keys,
        vec![
            ("G", "Toggle grid (cursor over canvas)"),
            ("X", "Mirror about X axis"),
            ("Y", "Mirror about Y axis"),
            ("R", "Rotate 90° clockwise"),
            ("Del", "Delete selection"),
            ("Esc", "Disarm active shape tool"),
            ("Middle-drag", "Pan the canvas viewport"),
            ("Wheel", "Zoom (cursor over canvas)"),
        ]
    );
}

#[test]
fn clock_renders_in_the_chosen_zone() {
    let utc = Some("UTC".to_string());
    let tokyo = Some("Asia/Tokyo".to_string());
    let ny = Some("US/Eastern".to_string());
    assert_eq!(render_clock(true, &utc, 0, 0, 0).as_deref(), Some("1970-01-01 🕐 00:00:00"));
    assert_eq!(render_clock(false, &tokyo, 0, 0, 0).as_deref(), Some("1970-01-01 🕐 09:00:00 AM"));
    // 2016-05-10 12:00:00 UTC is 08:00 in New York (daylight time); the
    // local offset does not matter when a timezone is set.
    assert_eq!(render_clock(true, &ny, 1_462_881_600, 0, 3600).as_deref(), Some("2016-05-10 🕐 08:00:00"));
    assert_eq!(render_clock(false, &ny, 1_462_881_600, 0, 999_999).as_deref(), Some("2016-05-10 🕐 08:00:00 AM"));
    assert_eq!(render_clock(true, &utc, i64::MAX, 0, 0), None);
}

#[test]
fn clock_falls_back_to_the_local_offset() {
    // 2024-03-05 14:07:09 UTC.
    let t = 1_709_647_629;
    for tz in [None, Some("Not/AZone".to_string())] {
        assert_eq!(render_clock(false, &tz, t, 0, 0).as_deref(), Some("2024-03-05 🕐 02:07:09 PM"));
        assert_eq!(render_clock(true, &tz, t, 0, 0).as_deref(), Some("2024-03-05 🕐 14:07:09"));
        assert_eq!(render_clock(true, &tz, t, 0, -5 * 3600).as_deref(), Some("2024-03-05 🕐 09:07:09"));
        assert_eq!(render_clock(false, &tz, t, 0, 10 * 3600).as_deref(), Some("2024-03-06 🕐 12:07:09 AM"));
        assert_eq!(render_clock(true, &tz, t, 0, 86_400), None);
        assert_eq!(render_clock(true, &tz, t, 0, -86_400), None);
        assert!(render_clock(true, &tz, t, 0, 86_399).is_some());
    }
}

#[test]
fn clock_range_is_chronos_range() {
    let utc = Some("UTC".to_string());
    for tz in [None, utc] {
        assert!(render_clock(true, &tz, 8_210_266_876_799, 0, 0).is_some());
        assert_eq!(render_clock(true, &tz, 8_210_266_876_800, 0, 0), None);
        assert!(render_clock(true, &tz, -8_334_601_228_800, 0, 0).is_some());
        assert_eq!(render_clock(true, &tz, -8_334_601_228_801, 0, 0), None);
        // Nanoseconds past a second only on a leap second.
        assert!(render_clock(true, &tz, 59, 1_500_000_000, 0).is_some());
        assert_eq!(render_clock(true, &tz, 58, 1_500_000_000, 0), None);
        assert_eq!(render_clock(true, &tz, 59, 2_000_000_000, 0), None);
        assert_eq!(render_clock(true, &tz, -1, 1_000_000_000, 0).is_some(), true);
    }
    assert_eq!(
        chrono::DateTime::from_timestamp(8_210_266_876_799, 0).is_some(),
        chrono::DateTime::from_timestamp(8_210_266_876_800, 0).is_none()
    );
}
