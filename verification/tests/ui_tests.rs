use steelmouse::autostart::{launch_agent_plist, registry_args};
use steelmouse::config::{apply_choice, AppConfig, ConfigChoice, DisplayMode};
use steelmouse::hid::BatteryInfo;
use steelmouse::icon::create_tray_icon;
use steelmouse::log::{chrono_now, format_clock_time};
use steelmouse::menu::menu_state;
use steelmouse::tray::{next_wait, poll_delay_secs, tooltip_text, tray_view};
use steelmouse::decode::{probe_read_step, ProbeStep};
use steelmouse::text::format_hex;

fn pixel(icon: &[u8], x: usize, y: usize) -> [u8; 4] {
    let o = (y * 32 + x) * 4;
    [icon[o], icon[o + 1], icon[o + 2], icon[o + 3]]
}

const CLEAR: [u8; 4] = [0, 0, 0, 0];

#[test]
fn config_defaults() {
    let c = AppConfig::default();
    assert_eq!(c.time_delta, 300);
    assert_eq!(c.display_mode, DisplayMode::Hover);
    assert_eq!(DisplayMode::default(), DisplayMode::Hover);
    let c = apply_choice(c, ConfigChoice::Mode(DisplayMode::Icon));
    assert_eq!(c, AppConfig { time_delta: 300, display_mode: DisplayMode::Icon });
    let c = apply_choice(c, ConfigChoice::Interval(60));
    assert_eq!(c, AppConfig { time_delta: 60, display_mode: DisplayMode::Icon });
}

#[test]
fn icon_battery_fill() {
    let icon = create_tray_icon(Some(85), false, DisplayMode::Hover);
    assert_eq!(icon.len(), 32 * 32 * 4);
    // 85% of 32 rows = 27.2 -> 27 rows, from row 5 down
    let green = [52, 199, 89, 255];
    assert_eq!(pixel(&icon, 0, 31), green);
    assert_eq!(pixel(&icon, 31, 5), green);
    assert_eq!(pixel(&icon, 10, 4), CLEAR);
    assert_eq!(pixel(&icon, 0, 0), CLEAR);
    let icon = create_tray_icon(Some(10), true, DisplayMode::Hover);
    // charging is orange; 3.2 -> 3 rows
    assert_eq!(pixel(&icon, 3, 29), [255, 165, 0, 255]);
    assert_eq!(pixel(&icon, 3, 28), CLEAR);
    let icon = create_tray_icon(Some(30), false, DisplayMode::Hover);
    assert_eq!(pixel(&icon, 3, 31), [255, 204, 0, 255]);
    let icon = create_tray_icon(Some(15), false, DisplayMode::Hover);
    assert_eq!(pixel(&icon, 3, 31), [255, 69, 58, 255]);
    let icon = create_tray_icon(Some(0), false, DisplayMode::Hover);
    assert!(icon.iter().all(|&b| b == 0));
}

#[test]
fn icon_error_cross() {
    let icon = create_tray_icon(None, false, DisplayMode::Icon);
    let red = [255, 59, 48, 255];
    assert_eq!(pixel(&icon, 6, 6), red);
    assert_eq!(pixel(&icon, 7, 6), red);
    assert_eq!(pixel(&icon, 25, 6), red);
    assert_eq!(pixel(&icon, 24, 6), red);
    assert_eq!(pixel(&icon, 25, 25), red);
    assert_eq!(pixel(&icon, 6, 25), red);
    assert_eq!(pixel(&icon, 5, 5), CLEAR);
    assert_eq!(pixel(&icon, 15, 10), CLEAR);
    let drawn = (0..32 * 32).filter(|p| icon[p * 4 + 3] == 255).count();
    // 20 rows of 4 pixels, two of which coincide on row 15
    assert_eq!(drawn, 78);
}

#[test]
fn icon_digits() {
    // "7": one glyph at x = 8, y = 5, 3 pixels per dot; the top row is full
    let icon = create_tray_icon(Some(7), false, DisplayMode::Icon);
    let red = [255, 69, 58, 255];
    for x in 8..23 {
        assert_eq!(pixel(&icon, x, 5), red);
    }
    assert_eq!(pixel(&icon, 7, 5), CLEAR);
    assert_eq!(pixel(&icon, 23, 5), CLEAR);
    assert_eq!(pixel(&icon, 8, 4), CLEAR);
    // "100": three glyphs at 2 pixels per dot from x = 0, y = 9; the
    // middle dot of "1" on the top row is at column 2
    let icon = create_tray_icon(Some(100), true, DisplayMode::Icon);
    let orange = [255, 165, 0, 255];
    assert_eq!(pixel(&icon, 4, 9), orange);
    assert_eq!(pixel(&icon, 5, 10), orange);
    assert_eq!(pixel(&icon, 0, 9), CLEAR);
    // "0" glyphs start at x = 12 and x = 24; top row 01110
    assert_eq!(pixel(&icon, 12, 9), CLEAR);
    assert_eq!(pixel(&icon, 14, 9), orange);
    assert_eq!(pixel(&icon, 26, 9), orange);
    // the last glyph is cut at the edge: its rightmost column would be at
    // x 32..34; row 2 of "0" (10011) has its fourth dot at x 30..32
    assert_eq!(pixel(&icon, 31, 13), orange);
    assert_eq!(pixel(&icon, 31, 11), CLEAR);
    // "42" spans the whole width from x = 0, y = 5
    let icon = create_tray_icon(Some(42), false, DisplayMode::Icon);
    let yellow = [255, 204, 0, 255];
    // "4" top row 00010: dot at column 3 -> x 9..12
    assert_eq!(pixel(&icon, 9, 5), yellow);
    assert_eq!(pixel(&icon, 8, 5), CLEAR);
    // levels above 100 show 100
    assert_eq!(create_tray_icon(Some(180), false, DisplayMode::Icon), create_tray_icon(Some(100), false, DisplayMode::Icon));
}

#[test]
fn menu_texts_and_checks() {
    let info = BatteryInfo { name: "Aerox 3".to_string(), level: Some(85), is_charging: true, estimated_time: None };
    let m = menu_state(Some(&info), Some("12:30:00"), 600, DisplayMode::Icon);
    assert_eq!(m.name, "Name: Aerox 3");
    assert_eq!(m.battery, "Battery: 85%");
    assert_eq!(m.status, "Status: Charging");
    assert_eq!(m.last_updated, "Last updated: 12:30:00");
    let secs: Vec<u64> = m.intervals.iter().map(|i| i.secs).collect();
    assert_eq!(secs, vec![60, 300, 600, 1800, 3600]);
    let labels: Vec<&str> = m.intervals.iter().map(|i| i.label.as_str()).collect();
    assert_eq!(labels, vec!["1 Minute", "5 Minutes", "10 Minutes", "30 Minutes", "1 Hour"]);
    let checked: Vec<bool> = m.intervals.iter().map(|i| i.checked).collect();
    assert_eq!(checked, vec![false, false, true, false, false]);
    assert!(!m.hover_checked);
    assert!(m.icon_checked);
    let m = menu_state(None, None, 42, DisplayMode::Hover);
    assert_eq!(m.name, "Name: N/A");
    assert_eq!(m.battery, "Battery: N/A");
    assert_eq!(m.status, "Status: Discharging");
    assert_eq!(m.last_updated, "Last updated: --:--:--");
    assert!(m.intervals.iter().all(|i| !i.checked));
    assert!(m.hover_checked);
}

#[test]
fn tray_decisions() {
    assert_eq!(tooltip_text(Some(7)), "Battery: 7%");
    assert_eq!(tooltip_text(None), "SteelMouse: N/A");
    assert_eq!(poll_delay_secs(true, 300), 12);
    assert_eq!(poll_delay_secs(false, 300), 300);
    assert_eq!(next_wait(0, 300, false, 300), Some(1));
    assert_eq!(next_wait(0, 300, true, 300), None);
    assert_eq!(next_wait(59, 300, false, 60), None);
    assert_eq!(next_wait(11, 12, false, 300), None);
}

#[test]
fn clock_texts() {
    assert_eq!(format_clock_time(0), "00:00:00");
    assert_eq!(format_clock_time(3600 * 25 + 61), "01:01:01");
    assert_eq!(format_clock_time(86399), "23:59:59");
    let now = chrono_now();
    assert_eq!(now.len(), 8);
    assert_eq!(&now[2..3], ":");
}

#[test]
fn autostart_texts() {
    let plist = launch_agent_plist("/Applications/SteelMouse");
    assert!(plist.starts_with("<?xml version=\"1.0\" encoding=\"UTF-8\"?>\n<!DOCTYPE plist"));
    assert!(plist.contains("<string>com.steelmouse.app</string>"));
    assert!(plist.contains("        <string>/Applications/SteelMouse</string>\n    </array>"));
    assert!(plist.ends_with("<true/>\n</dict>\n</plist>"));
    let add = registry_args(true, "C:\\SteelMouse.exe");
    assert_eq!(
        add,
        vec![
            "add",
            "HKCU\\Software\\Microsoft\\Windows\\CurrentVersion\\Run",
            "/v",
            "SteelMouse",
            "/t",
            "REG_SZ",
            "/d",
            "\"C:\\SteelMouse.exe\"",
            "/f"
        ]
    );
    let del = registry_args(false, "C:\\SteelMouse.exe");
    assert_eq!(del, vec!["delete", "HKCU\\Software\\Microsoft\\Windows\\CurrentVersion\\Run", "/v", "SteelMouse", "/f"]);
}

#[test]
fn fill_rows_grow_with_level() {
    let rows = |level: u8| {
        let icon = create_tray_icon(Some(level), false, DisplayMode::Hover);
        (0..32).filter(|&y| pixel(&icon, 0, y)[3] == 255).count()
    };
    let mut last = 0;
    for level in [0u8, 1, 2, 15, 20, 49, 50, 51, 99, 100, 101, 255] {
        let r = rows(level);
        assert!(r >= last, "level {} fills {} rows, fewer than {}", level, r, last);
        last = r;
    }
    assert_eq!(rows(0), 0);
    assert_eq!(rows(2), 1);
    assert_eq!(rows(50), 16);
    assert_eq!(rows(100), 32);
    assert_eq!(rows(255), 32);
}

#[test]
fn tray_view_after_updates() {
    let cfg = AppConfig { time_delta: 60, display_mode: DisplayMode::Hover };
    let info = BatteryInfo { name: "Aerox".to_string(), level: Some(85), is_charging: false, estimated_time: None };
    let v = tray_view(&Ok(info), "10:00:00", cfg);
    assert_eq!(v.icon, create_tray_icon(Some(85), false, DisplayMode::Hover));
    assert_eq!(v.tooltip, "Battery: 85%");
    assert_eq!(v.menu.name, "Name: Aerox");
    assert_eq!(v.menu.last_updated, "Last updated: 10:00:00");
    assert!(v.menu.intervals[0].checked);
    let v = tray_view(&Err("No SteelSeries HID devices detected at all".to_string()), "10:01:00", cfg);
    assert_eq!(v.icon, create_tray_icon(None, false, DisplayMode::Hover));
    assert_eq!(v.tooltip, "SteelMouse: N/A");
    assert_eq!(v.menu.battery, "Battery: N/A");
    assert_eq!(v.menu.status, "Status: Discharging");
}

#[test]
fn probe_steps() {
    assert_eq!(probe_read_step(0, 8), ProbeStep::RecordAndReadAgain);
    assert_eq!(probe_read_step(3, 2), ProbeStep::RecordAndReadAgain);
    assert_eq!(probe_read_step(4, 64), ProbeStep::RecordAndStop);
    assert_eq!(probe_read_step(0, 1), ProbeStep::Stop);
    assert_eq!(probe_read_step(2, 0), ProbeStep::Stop);
}

#[test]
fn hex_texts() {
    assert_eq!(format_hex(0x1838, 4), "0x1838");
    assert_eq!(format_hex(0xD2, 2), "0xD2");
    assert_eq!(format_hex(0xA, 4), "0x000A");
    assert_eq!(format_hex(0, 2), "0x00");
    assert_eq!(format_hex(0x12345, 4), "0x12345");
    assert_eq!(format_hex(u64::MAX, 0), "0xFFFFFFFFFFFFFFFF");
    assert_eq!(format!("0x{:04X}", 0xbeefu16), format_hex(0xbeef, 4));
}
