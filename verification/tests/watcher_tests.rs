use battery_notify::battery::{Batteries, Battery, BatteryError, ChargeStatus};
use battery_notify::notifier::Notifier;
use battery_notify::time::duration_hms;
use battery_notify::watcher::{
    on_channel_signal, DismissPolicy, Sound, StatusNotice, WatcherState,
};
use battery_notify::UserArgs;

fn state(status: ChargeStatus, threshold: u32) -> WatcherState {
    WatcherState {
        battery_id: 0,
        battery: Battery {
            id: 0,
            percent: 50,
            status,
        },
        min_battery_percent: threshold,
        start_charge_percent: 80,
        start_charge_time: 1000,
    }
}

#[test]
fn threshold_itself_counts_as_low() {
    let mut s = state(ChargeStatus::Discharging, 20);
    let mut alert = false;
    let r = s.on_percent_event(&mut alert, 20, 1000);
    assert!(r.is_some());
    assert!(alert);
}

#[test]
fn just_above_threshold_is_not_low() {
    let mut s = state(ChargeStatus::Discharging, 20);
    let mut alert = false;
    let r = s.on_percent_event(&mut alert, 21, 1000);
    assert!(r.is_none());
    assert!(!alert);
    assert_eq!(s.battery.percent, 21);
}

#[test]
fn no_alert_while_charging() {
    let mut s = state(ChargeStatus::Charging, 20);
    let mut alert = false;
    let r = s.on_percent_event(&mut alert, 15, 1000);
    assert!(r.is_none());
}

#[test]
fn repeated_status_is_ignored() {
    let mut s = state(ChargeStatus::Discharging, 20);
    let first = s.on_status_event(ChargeStatus::Charging, 2000, 50);
    assert_eq!(first.publish, Some(ChargeStatus::Charging));
    assert_eq!(first.notice, Some(StatusNotice::StartedCharging));
    assert_eq!(first.sound, Some(Sound::Plug));
    let again = s.on_status_event(ChargeStatus::Charging, 2010, 51);
    assert_eq!(again.publish, None);
    assert_eq!(again.notice, None);
    assert_eq!(again.sound, None);
    assert_eq!(s.battery.status, ChargeStatus::Charging);
}

#[test]
fn discharge_transition_resets_baseline() {
    let mut s = state(ChargeStatus::Charging, 20);
    let actions = s.on_status_event(ChargeStatus::Discharging, 5000, 73);
    assert_eq!(actions.publish, Some(ChargeStatus::NotCharging));
    assert_eq!(actions.notice, Some(StatusNotice::StoppedCharging));
    assert_eq!(actions.sound, Some(Sound::Unplug));
    assert_eq!(s.start_charge_time, 5000);
    assert_eq!(s.start_charge_percent, 73);
}

#[test]
fn fully_charged_and_unknown_transitions() {
    let mut s = state(ChargeStatus::Charging, 20);
    let full = s.on_status_event(ChargeStatus::NotCharging, 2000, 100);
    assert_eq!(full.publish, Some(ChargeStatus::NotCharging));
    assert_eq!(full.notice, Some(StatusNotice::FullyCharged));
    assert_eq!(full.sound, None);
    let unknown = s.on_status_event(ChargeStatus::Unknown, 2100, 100);
    assert_eq!(unknown.publish, Some(ChargeStatus::Charging));
    assert_eq!(unknown.notice, Some(StatusNotice::StatusUnknown));
    assert_eq!(unknown.sound, None);
    assert_eq!(s.start_charge_time, 1000);
}

#[test]
fn low_battery_alert_scenario() {
    // Discharging at 15 percent against a threshold of 20, with no time
    // elapsed in the discharge cycle: one alert, duration 00:00:00.
    let mut s = state(ChargeStatus::Discharging, 20);
    s.start_charge_time = 4000;
    s.start_charge_percent = 15;
    let mut alert = false;
    let percent = battery_notify::battery::parse_percent_text("15\n").unwrap();
    assert_eq!(percent, 15);
    let r = s.on_percent_event(&mut alert, percent, 4000).unwrap();
    assert_eq!(r.percent, 15);
    assert_eq!(r.start_percent, 15);
    assert_eq!((r.hours, r.minutes, r.seconds), (0, 0, 0));
}

#[test]
fn charging_dismisses_active_alert() {
    // A low-battery alert is showing; the status flips to Charging. The
    // status watcher owes the started-charging notice and publishes
    // Charging, and that signal dismisses the alert and clears the flag.
    let mut s = state(ChargeStatus::Discharging, 20);
    let mut alert = false;
    assert!(s.on_percent_event(&mut alert, 10, 1500).is_some());
    assert!(alert);
    let actions = s.on_status_event(ChargeStatus::Charging, 1600, 10);
    assert_eq!(actions.publish, Some(ChargeStatus::Charging));
    assert_eq!(actions.notice, Some(StatusNotice::StartedCharging));
    let dismissed = on_channel_signal(
        &mut alert,
        s.dismiss_policy(),
        actions.publish.unwrap(),
    );
    assert!(dismissed);
    assert!(!alert);
}

#[test]
fn two_low_readings_notify_once() {
    let mut s = state(ChargeStatus::Discharging, 20);
    let mut alert = false;
    let first = s.on_percent_event(&mut alert, 18, 1000);
    let second = s.on_percent_event(&mut alert, 18, 1002);
    assert!(first.is_some());
    assert!(second.is_none());
    assert!(alert);
}

#[test]
fn missing_battery_id_is_a_configuration_error() {
    let batteries = Batteries {
        entry: vec![
            Battery {
                id: 0,
                percent: 90,
                status: ChargeStatus::Discharging,
            },
            Battery {
                id: 1,
                percent: 80,
                status: ChargeStatus::Charging,
            },
        ],
    };
    let config = UserArgs {
        battery_id: 3,
        low_battery_percent: 20,
    };
    let r = WatcherState::new(config, batteries, 90, 1000);
    assert!(matches!(r, Err(BatteryError::BatteryDoesNotExist)));
}

#[test]
fn watcher_state_takes_the_configured_battery() {
    let batteries = Batteries {
        entry: vec![
            Battery {
                id: 0,
                percent: 90,
                status: ChargeStatus::Discharging,
            },
            Battery {
                id: 1,
                percent: 80,
                status: ChargeStatus::Charging,
            },
        ],
    };
    let config = UserArgs {
        battery_id: 1,
        low_battery_percent: 25,
    };
    let s = WatcherState::new(config, batteries, 80, 42).unwrap();
    assert_eq!(s.battery.id, 1);
    assert_eq!(s.battery.percent, 80);
    assert_eq!(s.min_battery_percent, 25);
    assert_eq!(s.start_charge_percent, 80);
    assert_eq!(s.start_charge_time, 42);
}

#[test]
fn notifier_shares_the_selection_rule() {
    let batteries = Batteries {
        entry: vec![Battery {
            id: 0,
            percent: 55,
            status: ChargeStatus::Discharging,
        }],
    };
    let config = UserArgs {
        battery_id: 0,
        low_battery_percent: 20,
    };
    let n = Notifier::new(config, batteries, 55, 7).unwrap();
    assert!(!n.alert_active);
    assert_eq!(n.state.battery.id, 0);
    assert_eq!(n.dismiss_policy(), DismissPolicy::OnChargingOrNotCharging);
}

#[test]
fn dismissal_happens_exactly_once() {
    let mut alert = true;
    let policy = DismissPolicy::OnCharging;
    assert!(!on_channel_signal(&mut alert, policy, ChargeStatus::NotCharging));
    assert!(alert);
    assert!(on_channel_signal(&mut alert, policy, ChargeStatus::Charging));
    assert!(!alert);
    assert!(!on_channel_signal(&mut alert, policy, ChargeStatus::Charging));
    assert!(!alert);
}

#[test]
fn duration_splits_into_clock_parts() {
    assert_eq!(duration_hms(0), (0, 0, 0));
    assert_eq!(duration_hms(3725), (1, 2, 5));
    assert_eq!(duration_hms(59), (0, 0, 59));
    assert_eq!(duration_hms(86400), (24, 0, 0));
}

#[test]
fn default_arguments() {
    let args = UserArgs::default();
    assert_eq!(args.battery_id, 0);
    assert_eq!(args.low_battery_percent, 20);
}
