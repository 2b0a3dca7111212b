use battery_notify::acpi::{parse, ChargeStatus, Data, ParseError};
use battery_notify::time::parse_hms;

const BATTERY_ID: i32 = 0;
const CHARGHING_STR: &str = "Battery 0: Charging, 99%, 00:01:15 until charged";
const DISCHARGING_STR: &str = "Battery 0: Discharging, 97%, 02:20:01 remaining";
const NOT_CHARGING_STR: &str = "Battery 0: Not charging, 100%";

#[test]
fn acpi_charge_status_partial_eq_same_time() {
    let a = ChargeStatus::Charging {
        time_remain: Some(parse_hms("00:01:15").unwrap()),
    };

    let b = ChargeStatus::Charging {
        time_remain: Some(parse_hms("00:01:15").unwrap()),
    };

    assert!(a == b);
}

#[test]
fn acpi_charge_status_partial_eq_diff_time() {
    let a = ChargeStatus::Charging {
        time_remain: Some(parse_hms("00:00:00").unwrap()),
    };

    let b = ChargeStatus::Charging {
        time_remain: Some(parse_hms("00:01:15").unwrap()),
    };

    assert!(a == b);
}

#[test]
fn acpi_charge_status_partial_eq_none() {
    let a = ChargeStatus::Charging { time_remain: None };

    let b = ChargeStatus::Charging {
        time_remain: Some(parse_hms("00:01:15").unwrap()),
    };

    assert!(a == b);
}

#[test]
fn acpi_parse_charging() {
    let charging = parse(CHARGHING_STR).unwrap();

    assert_eq!(
        charging,
        Data {
            output: CHARGHING_STR.to_string(),
            battery_id: BATTERY_ID,
            percent: 99,
            status: ChargeStatus::Charging {
                time_remain: Some(parse_hms("00:01:15").unwrap())
            }
        }
    )
}

#[test]
fn acpi_parse_discharging() {
    let discharging = parse(DISCHARGING_STR).unwrap();
    assert_eq!(
        discharging,
        Data {
            output: DISCHARGING_STR.to_string(),
            battery_id: BATTERY_ID,
            percent: 97,
            status: ChargeStatus::Discharging {
                time_remain: Some(parse_hms("02:20:01").unwrap())
            }
        }
    )
}

#[test]
fn acpi_parse_not_charging() {
    let not_charging = parse(NOT_CHARGING_STR).unwrap();
    assert_eq!(
        not_charging,
        Data {
            output: NOT_CHARGING_STR.to_string(),
            battery_id: BATTERY_ID,
            percent: 100,
            status: ChargeStatus::NotCharging,
        }
    )
}

#[test]
fn mod_parse_charging() {
    let charging = parse(CHARGHING_STR).unwrap();

    assert_eq!(
        charging,
        Data {
            output: CHARGHING_STR.to_string(),
            battery_id: BATTERY_ID,
            percent: 99,
            status: ChargeStatus::Charging {
                time_remain: Some(parse_hms("00:01:15").unwrap())
            }
        }
    )
}

#[test]
fn mod_parse_discharging() {
    let discharging = parse(DISCHARGING_STR).unwrap();
    assert_eq!(
        discharging,
        Data {
            output: DISCHARGING_STR.to_string(),
            battery_id: BATTERY_ID,
            percent: 97,
            status: ChargeStatus::Discharging {
                time_remain: Some(parse_hms("02:20:01").unwrap())
            }
        }
    )
}

#[test]
fn mod_parse_not_charging() {
    let not_charging = parse(NOT_CHARGING_STR).unwrap();
    assert_eq!(
        not_charging,
        Data {
            output: NOT_CHARGING_STR.to_string(),
            battery_id: BATTERY_ID,
            percent: 100,
            status: ChargeStatus::NotCharging,
        }
    )
}

#[test]
fn mod_charge_status_partial_eq_same_time() {
    let a = ChargeStatus::Charging {
        time_remain: Some(parse_hms("00:01:15").unwrap()),
    };

    let b = ChargeStatus::Charging {
        time_remain: Some(parse_hms("00:01:15").unwrap()),
    };

    println!("{:?}", a);

    assert!(a == b);
}

#[test]
fn mod_charge_status_partial_eq_diff_time() {
    let a = ChargeStatus::Charging {
        time_remain: Some(parse_hms("00:00:00").unwrap()),
    };

    let b = ChargeStatus::Charging {
        time_remain: Some(parse_hms("00:01:15").unwrap()),
    };

    assert!(a == b);
}

#[test]
fn mod_charge_status_partial_eq_none() {
    let a = ChargeStatus::Charging { time_remain: None };

    let b = ChargeStatus::Charging {
        time_remain: Some(parse_hms("00:01:15").unwrap()),
    };

    assert!(a == b);
}

#[test]
fn charge_status_charge_status_partial_eq_same_time() {
    let a = ChargeStatus::Charging {
        time_remain: Some(parse_hms("00:01:15").unwrap()),
    };

    let b = ChargeStatus::Charging {
        time_remain: Some(parse_hms("00:01:15").unwrap()),
    };

    println!("{:?}", a);

    assert!(a == b);
}

#[test]
fn charge_status_charge_status_partial_eq_diff_time() {
    let a = ChargeStatus::Charging {
        time_remain: Some(parse_hms("00:00:00").unwrap()),
    };

    let b = ChargeStatus::Charging {
        time_remain: Some(parse_hms("00:01:15").unwrap()),
    };

    assert!(a == b);
}

#[test]
fn charge_status_charge_status_partial_eq_none() {
    let a = ChargeStatus::Charging { time_remain: None };

    let b = ChargeStatus::Charging {
        time_remain: Some(parse_hms("00:01:15").unwrap()),
    };

    assert!(a == b);
}

#[test]
fn parse_rejects_non_numeric_battery_id() {
    let r = parse("Battery x: Charging, 99%, 00:01:15 until charged");
    assert_eq!(r, Err(ParseError::BatteryIdNotI32));
}

#[test]
fn parse_rejects_missing_status_segment() {
    let r = parse("0, 99%");
    assert_eq!(r, Err(ParseError::ParseChargeStatus));
}

#[test]
fn parse_rejects_non_numeric_percent() {
    let r = parse("Battery 0: Charging, x%, 00:01:15 until charged");
    assert_eq!(r, Err(ParseError::ParsePercent));
}

#[test]
fn parse_rejects_malformed_time() {
    let r = parse("Battery 0: Charging, 99%, soon remaining");
    assert_eq!(r, Err(ParseError::TimeRemainFormat));
}

#[test]
fn parse_rejects_unrecognized_status() {
    let r = parse("Battery 0: Resting, 99%, 00:01:15 until charged");
    assert_eq!(r, Err(ParseError::ParseTimeRemain));
}

#[test]
fn cache_paths_are_fixed() {
    assert_eq!(battery_notify::acpi::cache_path(), "./cache/data.json");
    assert_eq!(battery_notify::batt_info::cache_path(), "./cache/data.json");
}
