use grafica_ide::settings::{
    change_log, clock_format_label, directory_label, timezone_label, AppearanceChanges, DirectoryPath,
    GridUnits, Preferences,
};
use grafica_ide::system_info::{decimal_string, format_banner, format_system_details, SystemSummary};

fn dir(components: &[&str], display: &str) -> Option<DirectoryPath> {
    Some(DirectoryPath {
        components: components.iter().map(|c| c.as_bytes().to_vec()).collect(),
        display: display.to_string(),
    })
}

fn none() -> AppearanceChanges {
    AppearanceChanges {
        ui_scale: None,
        default_background: None,
        port_marker_size: None,
        port_marker_style: None,
    }
}

#[test]
fn default_preferences() {
    let p = Preferences::default();
    assert_eq!(p.user_timezone, None);
    assert!(!p.use_24_hour_clock);
    assert!(p.default_directory.is_none());
    assert_eq!(p.grid_units, GridUnits::Mils);
}

#[test]
fn labels() {
    assert_eq!(GridUnits::Pixels.label(), "Pixels");
    assert_eq!(GridUnits::Mils.label(), "Mils");
    assert_eq!(GridUnits::Millimeters.label(), "Millimeters");
    assert_eq!(GridUnits::Inches.label(), "Inches");
    assert_eq!(timezone_label(&None), "System local");
    assert_eq!(timezone_label(&Some("Europe/Paris".to_string())), "Europe/Paris");
    assert_eq!(clock_format_label(true), "24-hour");
    assert_eq!(clock_format_label(false), "12-hour");
    assert_eq!(directory_label(&None), "(platform default)");
    assert_eq!(directory_label(&dir(&["/", "home", "me"], "/home/me")), "/home/me");
}

#[test]
fn no_change_logs_nothing() {
    let p = Preferences::default();
    let q = Preferences::default();
    assert!(change_log(&p, &q, &none()).is_empty());
}

#[test]
fn each_change_logs_one_line_in_panel_order() {
    let before = Preferences::default();
    let after = Preferences {
        user_timezone: Some("Asia/Tokyo".to_string()),
        use_24_hour_clock: true,
        default_directory: dir(&["/", "work"], "/work"),
        grid_units: GridUnits::Millimeters,
    };
    let x = AppearanceChanges {
        ui_scale: Some(("1.00".to_string(), "1.25".to_string())),
        default_background: Some("Slate".to_string()),
        port_marker_size: Some("6.0".to_string()),
        port_marker_style: Some("Ring".to_string()),
    };
    assert_eq!(
        change_log(&before, &after, &x),
        vec![
            "UI scale: 1.00× → 1.25×",
            "Timezone → Asia/Tokyo",
            "Clock format → 24-hour",
            "Default directory → /work",
            "Default grid units → Millimeters (applies to new canvases on next startup)",
            "Default canvas background → Slate (applies to new canvases on next startup)",
            "Port marker size → 6.0 px",
            "Port marker style → Ring",
        ]
    );
}

#[test]
fn cleared_values_log_their_fallback_labels() {
    let before = Preferences {
        user_timezone: Some("UTC".to_string()),
        use_24_hour_clock: true,
        default_directory: dir(&["/", "work"], "/work"),
        grid_units: GridUnits::Mils,
    };
    let after = Preferences::default();
    assert_eq!(
        change_log(&before, &after, &none()),
        vec![
            "Timezone → System local",
            "Clock format → 12-hour",
            "Default directory → (platform default)",
        ]
    );
}

#[test]
fn decimal_strings() {
    assert_eq!(decimal_string(0), "0");
    assert_eq!(decimal_string(7), "7");
    assert_eq!(decimal_string(10), "10");
    assert_eq!(decimal_string(1234567890), "1234567890");
    assert_eq!(decimal_string(usize::MAX), usize::MAX.to_string());
}

#[test]
fn banner_text() {
    let b = format_banner("0.1.0", "2024-05-10 12:00:00");
    let expected = "**** Welcome to grafica-ide — DSL-driven graphics IDE, Version 0.1.0\n\
**** Today is 2024-05-10 12:00:00\n\
\n\
CITIZENS\n    canvas    — egui_grafica\n    editor    — egui_quill\n    logger    — egui_lens\n    project   — (built-in)\n\
\n\
DEPENDENCIES\n    grafica-ide      : 0.1.0\n    egui             : 0.34\n    eframe           : 0.34 (wgpu)\n    egui_dock        : 0.19\n    egui_mobius      : 0.4.0 (path)\n    egui_citizen     : 0.4.0 (path)\n    egui_lens        : 0.4.0 (path)\n    egui_quill       : 0.4.0 (path)\n    egui_grafica     : 0.4.0 (path, gpu)";
    assert_eq!(b, expected);
}

#[test]
fn system_details_text() {
    let s = SystemSummary {
        os: Some("Linux 6.1 Debian".to_string()),
        kernel: Some("6.1.0".to_string()),
        host: None,
        cpu_brand: Some("Ryzen".to_string()),
        physical_cores: Some(8),
        logical_cores: 16,
        memory_used_gib: "3.2".to_string(),
        memory_total_gib: "31.3".to_string(),
    };
    assert_eq!(
        format_system_details(&s),
        "SYSTEM\n    OS               : Linux 6.1 Debian\n    Kernel           : 6.1.0\n    Host             : unknown\n    CPU              : Ryzen\n    Cores            : 8 physical / 16 logical\n    Memory           : 3.2 / 31.3 GiB used"
    );
    let t = SystemSummary { physical_cores: None, os: None, ..s };
    assert!(format_system_details(&t).contains("Cores            : ? physical / 16 logical"));
    assert!(format_system_details(&t).contains("OS               : unknown\n"));
}

#[test]
fn directories_compare_by_components_not_text() {
    // `a/b` and `a/b/` are the same path: only the clock line is logged.
    let before = Preferences {
        default_directory: dir(&["a", "b"], "a/b"),
        ..Preferences::default()
    };
    let after = Preferences {
        use_24_hour_clock: true,
        default_directory: dir(&["a", "b"], "a/b/"),
        ..Preferences::default()
    };
    assert_eq!(change_log(&before, &after, &none()), vec!["Clock format → 24-hour"]);
    // Different components are a different directory.
    let moved = Preferences {
        default_directory: dir(&["a", "c"], "a/c"),
        ..Preferences::default()
    };
    assert_eq!(change_log(&before, &moved, &none()), vec!["Default directory → a/c"]);
    let longer = Preferences {
        default_directory: dir(&["a", "b", "c"], "a/b/c"),
        ..Preferences::default()
    };
    assert_eq!(change_log(&before, &longer, &none()), vec!["Default directory → a/b/c"]);
}
