use steelmouse::decode::BatteryKind;
use steelmouse::hid::{get_profile, plan_device, BatteryInfo, DevicePlan, FetchStep, MouseManager, MouseProfile};
use steelmouse::iface::get_interface_number;
use steelmouse::tracker::EstimateBasis;

/// The tray program's minute computation: in f64, rate first, then rounded.
fn float_minutes(b: EstimateBasis) -> i64 {
    let rate_per_sec = (b.percent_moved as f64) / (b.elapsed_secs as f64);
    let total_sec_remaining = (b.percent_to_go as f64) / rate_per_sec;
    (total_sec_remaining / 60.0).round() as i64
}

fn done(step: FetchStep) -> Result<BatteryInfo, String> {
    match step {
        FetchStep::Done(r) => r,
        other => panic!("expected a finished fetch, got {:?}", other),
    }
}

#[test]
fn test_mock_mouse_manager_progression() {
    let mut manager = MouseManager::new(true);
    let info1 = done(manager.fetch_battery(float_minutes)).expect("Mock battery should fetch");
    assert_eq!(info1.level, Some(84));
    assert_eq!(info1.is_charging, false);

    let info2 = done(manager.fetch_battery(float_minutes)).expect("Mock battery should fetch");
    assert_eq!(info2.level, Some(83));
}

#[test]
fn mock_mouse_wraps_to_full() {
    let mut manager = MouseManager::new(true);
    let mut last = 0;
    for _ in 0..80 {
        last = done(manager.fetch_battery(float_minutes)).unwrap().level.unwrap();
    }
    assert_eq!(last, 5);
    let info = done(manager.fetch_battery(float_minutes)).unwrap();
    assert_eq!(info.level, Some(100));
    assert_eq!(info.name, "SteelSeries Aerox 3 Wireless (Mock)");
}

#[test]
fn real_manager_scans_without_cache() {
    let mut manager = MouseManager::new(false);
    assert!(matches!(manager.fetch_battery(float_minutes), FetchStep::Scan));
}

#[test]
fn profile_reading_is_cached() {
    let mut manager = MouseManager::new(false);
    let kind = BatteryKind::AeroxPrime { command: 0xD2 };
    let info = manager.on_profile_reading("Aerox 3".to_string(), kind, (Some(85), false), float_minutes);
    assert_eq!(info.name, "Aerox 3");
    assert_eq!(info.level, Some(85));
    assert!(!info.is_charging);
    assert!(info.estimated_time.is_none());
    assert!(matches!(manager.fetch_battery(float_minutes), FetchStep::QueryCached(k) if k == kind));
    let info = done(manager.on_cached_reading(Some((Some(80), true)), float_minutes)).unwrap();
    assert_eq!(info.name, "Aerox 3");
    assert_eq!(info.level, Some(80));
    assert!(info.is_charging);
    // a failed query on the cached device drops it
    assert!(matches!(manager.on_cached_reading(None, float_minutes), FetchStep::Scan));
    assert!(matches!(manager.fetch_battery(float_minutes), FetchStep::Scan));
}

#[test]
fn fallback_reading_names_and_does_not_cache() {
    let mut manager = MouseManager::new(false);
    let info = manager.on_fallback_reading(None, (None, true), float_minutes);
    assert_eq!(info.name, "SteelSeries Mouse");
    assert_eq!(info.level, None);
    let info = manager.on_fallback_reading(Some("Rival 3".to_string()), (Some(40), false), float_minutes);
    assert_eq!(info.name, "Rival 3");
    assert!(matches!(manager.fetch_battery(float_minutes), FetchStep::Scan));
}

#[test]
fn scan_errors() {
    assert_eq!(MouseManager::scan_error(0), "No SteelSeries HID devices detected at all");
    assert_eq!(MouseManager::scan_error(3), "Found 3 SteelSeries devices but none returned battery data");
}

#[test]
fn battery_info_text() {
    let info = BatteryInfo { name: "Aerox".to_string(), level: Some(85), is_charging: false, estimated_time: None };
    assert_eq!(info.to_display_string(), "Aerox: 85% (Discharging)");
    let info = BatteryInfo {
        name: "Aerox".to_string(),
        level: None,
        is_charging: true,
        estimated_time: Some("Full in ~25m".to_string()),
    };
    assert_eq!(info.to_display_string(), "Aerox: N/A (Charging, Full in ~25m)");
}

fn profile(pid: u16, kind: Option<BatteryKind>, endpoint: u8) -> MouseProfile {
    MouseProfile { vendor_id: 0x1038, product_id: pid, name: format!("Mouse {:04x}", pid), battery_kind: kind, endpoint }
}

#[test]
fn profiles_and_plans() {
    let aerox = BatteryKind::AeroxPrime { command: 0xD2 };
    let table = vec![profile(0x1838, Some(aerox), 3), profile(0x1836, None, 0), profile(0x1838, None, 0)];
    let p = get_profile(&table, 0x1038, 0x1838).expect("listed");
    assert_eq!(p.name, "Mouse 1838");
    assert_eq!(p.endpoint, 3);
    assert!(get_profile(&table, 0x1038, 0x9999).is_none());
    assert!(get_profile(&table, 0x046d, 0x1838).is_none());
    assert_eq!(plan_device(Some(p), 3), DevicePlan::Query(aerox));
    assert_eq!(plan_device(Some(p), -1), DevicePlan::Query(aerox));
    assert_eq!(plan_device(Some(p), 0), DevicePlan::SkipEndpoint);
    assert_eq!(plan_device(get_profile(&table, 0x1038, 0x1836), 2), DevicePlan::NoBattery);
    assert_eq!(plan_device(None, 2), DevicePlan::Fallback);
    let any_endpoint = profile(0x1840, Some(BatteryKind::Rival3Or650), 0);
    assert_eq!(plan_device(Some(&any_endpoint), 5), DevicePlan::Query(BatteryKind::Rival3Or650));
}

#[test]
fn interface_numbers() {
    assert_eq!(get_interface_number(2, b"\\\\?\\hid#vid_1038&pid_1838&mi_03"), 2);
    assert_eq!(get_interface_number(-1, b"\\\\?\\HID#VID_1038&PID_1838&MI_03#7&1"), 3);
    assert_eq!(get_interface_number(-1, b"\\\\?\\hid#vid_1038&pid_1838&mi_0a&col02"), 10);
    // no digits after mi_: the col number is used
    assert_eq!(get_interface_number(-1, b"\\\\?\\hid#vid_1038&mi_&Col05#"), 5);
    assert_eq!(get_interface_number(-1, b"/dev/hidraw3"), -1);
    // only the first "mi_" counts
    assert_eq!(get_interface_number(-1, b"xmi_zzmi_04"), -1);
    // numbers beyond i32 do not parse
    assert_eq!(get_interface_number(-1, b"mi_ffffffff"), -1);
    assert_eq!(get_interface_number(-1, b"mi_7fffffff"), 0x7fffffff);
    assert_eq!(get_interface_number(-1, b"mi_000000000001"), 1);
}

#[test]
fn estimate_reaches_battery_info() {
    let mut manager = MouseManager::new(false);
    let kind = BatteryKind::Rival3Or650;
    let info = manager.on_profile_reading("Rival".to_string(), kind, (Some(80), false), float_minutes);
    assert!(info.estimated_time.is_none());
    // a reading without a level leaves the history alone
    let info = done(manager.on_cached_reading(Some((None, false)), float_minutes)).unwrap();
    assert!(info.estimated_time.is_none());
    // the clock separates these two samples by less than five seconds
    let info = done(manager.on_cached_reading(Some((Some(70), false)), float_minutes)).unwrap();
    assert!(info.estimated_time.is_none());
    let info = manager.on_fallback_reading(None, (Some(60), false), |_b: EstimateBasis| 90);
    assert!(info.estimated_time.is_none());
}
