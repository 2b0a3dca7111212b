use battery_notify::acpi;
use battery_notify::app_state::{AppState, AppStateConfigs};
use battery_notify::batt_info::BatteryData;
use battery_notify::battery::{
    battery_ids, parse_percent_text, parse_status_text, percent_path, sort_ids, status_path,
    Battery, ChargeStatus,
};
use battery_notify::oneshot::{BatteryNotification, Config};
use battery_notify::time::parse_hms;

#[test]
fn recognized_status_texts() {
    assert_eq!(parse_status_text("Charging\n"), ChargeStatus::Charging);
    assert_eq!(parse_status_text("Discharging\n"), ChargeStatus::Discharging);
    assert_eq!(parse_status_text("Not charging\n"), ChargeStatus::NotCharging);
    assert_eq!(parse_status_text("Charging"), ChargeStatus::Charging);
}

#[test]
fn unrecognized_status_texts_map_to_unknown() {
    assert_eq!(parse_status_text("Full"), ChargeStatus::Unknown);
    assert_eq!(parse_status_text(""), ChargeStatus::Unknown);
    assert_eq!(parse_status_text("Bogus"), ChargeStatus::Unknown);
    assert_eq!(parse_status_text("charging"), ChargeStatus::Unknown);
    assert_eq!(ChargeStatus::from("Full"), ChargeStatus::Unknown);
    assert_eq!(ChargeStatus::from("Charging"), ChargeStatus::Charging);
}

#[test]
fn percent_file_texts() {
    assert_eq!(parse_percent_text("85\n"), Some(85));
    assert_eq!(parse_percent_text("100"), Some(100));
    assert_eq!(parse_percent_text("0\n"), Some(0));
    assert_eq!(parse_percent_text(""), None);
    assert_eq!(parse_percent_text("abc"), None);
    assert_eq!(parse_percent_text("85%"), None);
    assert_eq!(parse_percent_text("99999999999999"), None);
}

#[test]
fn battery_file_paths() {
    assert_eq!(percent_path(0), "/sys/class/power_supply/BAT0/capacity");
    assert_eq!(status_path(0), "/sys/class/power_supply/BAT0/status");
    assert_eq!(percent_path(12), "/sys/class/power_supply/BAT12/capacity");
    assert_eq!(status_path(12), "/sys/class/power_supply/BAT12/status");
}

#[test]
fn ids_come_from_battery_entry_names() {
    let names = vec![
        "AC".to_string(),
        "BAT1".to_string(),
        "hwmon2".to_string(),
        "BAT0".to_string(),
    ];
    assert_eq!(battery_ids(&names), Some(vec![1, 0]));
}

#[test]
fn id_is_the_first_digit_run() {
    let names = vec!["prefix BAT42 suffix 7".to_string()];
    assert_eq!(battery_ids(&names), Some(vec![42]));
}

#[test]
fn battery_name_without_digits_is_rejected() {
    let names = vec!["BATx".to_string()];
    assert_eq!(battery_ids(&names), None);
}

#[test]
fn ids_sort_ascending() {
    assert_eq!(sort_ids(vec![2, 0, 1]), vec![0, 1, 2]);
    assert_eq!(sort_ids(vec![]), Vec::<u32>::new());
    assert_eq!(sort_ids(vec![5, 5, 1]), vec![1, 5, 5]);
}

#[test]
fn clock_text_parses_exactly() {
    let t = parse_hms("02:20:01").unwrap();
    assert_eq!((t.hour, t.minute, t.second), (2, 20, 1));
    assert!(parse_hms("2:20:01").is_none());
    assert!(parse_hms("24:00:00").is_none());
    assert!(parse_hms("00:60:00").is_none());
    assert!(parse_hms("00:00:60").is_none());
    assert!(parse_hms("00-00-00").is_none());
}

#[test]
fn app_state_from_parts() {
    let configs = AppStateConfigs::default();
    assert_eq!(configs.min, 20);
    let battery = Battery {
        id: 0,
        percent: 66,
        status: ChargeStatus::Discharging,
    };
    let s = AppState::new(configs, battery, 66, 123);
    assert_eq!(s.battery, battery);
    assert_eq!(s.min_battery_percent, 20);
    assert_eq!(s.start_charge_percent, 66);
    assert_eq!(s.start_charge_time, 123);
}

fn reading(percent: u32, status: acpi::ChargeStatus) -> BatteryData {
    BatteryData {
        battery_id: 0,
        percent,
        status,
    }
}

fn check_of(current: BatteryData, cached: BatteryData, low: u32) -> BatteryNotification {
    BatteryNotification::new(
        current,
        String::new(),
        cached,
        Config {
            battery_id: 0,
            battery_low_percent: low,
        },
    )
}

#[test]
fn oneshot_low_battery_requires_a_percent_change() {
    let discharging = acpi::ChargeStatus::Discharging { time_remain: None };
    let falling = check_of(reading(15, discharging), reading(16, discharging), 20).check();
    assert!(falling.low_battery);
    assert!(falling.write_cache);
    assert!(!falling.started_charging);
    assert!(!falling.stopped_charging);
    let unchanged = check_of(reading(15, discharging), reading(15, discharging), 20).check();
    assert!(!unchanged.low_battery);
    assert!(!unchanged.write_cache);
}

#[test]
fn oneshot_status_change_notifications() {
    let discharging = acpi::ChargeStatus::Discharging { time_remain: None };
    let charging = acpi::ChargeStatus::Charging {
        time_remain: Some(parse_hms("00:01:15").unwrap()),
    };
    let started = check_of(reading(50, charging), reading(50, discharging), 20).check();
    assert!(started.started_charging);
    assert!(!started.stopped_charging);
    assert!(started.write_cache);
    let stopped = check_of(reading(50, discharging), reading(50, charging), 20).check();
    assert!(stopped.stopped_charging);
    assert!(!stopped.started_charging);
    let full = check_of(
        reading(100, acpi::ChargeStatus::NotCharging),
        reading(100, charging),
        20,
    )
    .check();
    assert!(full.stopped_charging);
}

#[test]
fn battery_data_default_is_empty_and_unknown() {
    let d = BatteryData::default();
    assert_eq!(d.battery_id, 0);
    assert_eq!(d.percent, 0);
    assert!(d.status == acpi::ChargeStatus::Unknown);
}
