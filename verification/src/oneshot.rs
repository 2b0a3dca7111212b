//! The one-shot poll-and-compare mode: one fresh reading is held against
//! the cached one, and the comparison decides which notifications are due
//! and whether the cache is rewritten. The surrounding binary reads the
//! battery and the cache, and carries out the decided actions.
use vstd::prelude::*;

use crate::acpi::{same_variant, ChargeStatus};
use crate::batt_info::BatteryData;

verus! {

/// Configuration of the one-shot mode.
#[derive(Clone, Copy, Debug, PartialEq, Eq, Structural)]
pub struct Config {
    pub battery_id: u32,
    pub battery_low_percent: u32,
}

/// The fresh and cached readings to compare, with the configuration.
#[derive(Debug)]
pub struct BatteryNotification {
    pub current_json: String,
    pub current: BatteryData,
    pub cached: BatteryData,
    pub battery_low_percent: u32,
    pub battery_id: usize,
}

/// What one comparison asks the surrounding binary to do.
#[derive(Clone, Copy, Debug, PartialEq, Eq, Structural)]
pub struct CheckActions {
    /// Rewrite the cache with the fresh reading.
    pub write_cache: bool,
    /// Show the critical low-battery notification.
    pub low_battery: bool,
    /// Show the started-charging notification.
    pub started_charging: bool,
    /// Show the stopped-charging notification.
    pub stopped_charging: bool,
}

/// Whether the fresh reading is due a low-battery notification: its
/// percent changed, is at or below the threshold, and the battery is
/// discharging.
pub open spec fn low_battery_due(current: BatteryData, cached: BatteryData, low: u32) -> bool {
    &&& current.percent != cached.percent
    &&& current.percent <= low
    &&& same_variant(current.status, ChargeStatus::Discharging { time_remain: None })
}

/// Whether the charge status changed between the readings, by variant.
pub open spec fn status_changed(current: BatteryData, cached: BatteryData) -> bool {
    !same_variant(current.status, cached.status)
}

impl BatteryNotification {
    /// Builds the comparison from the fresh reading, its serialized form,
    /// and the cached reading.
    pub fn new(current: BatteryData, current_json: String, cached: BatteryData, config: Config) -> (
        r: Self)
        ensures
            r.current == current,
            r.current_json == current_json,
            r.cached == cached,
            r.battery_low_percent == config.battery_low_percent,
            r.battery_id == config.battery_id as usize,
    {
        let battery_id = config.battery_id as usize;
        BatteryNotification {
            current_json,
            current,
            cached,
            battery_low_percent: config.battery_low_percent,
            battery_id,
        }
    }

    /// Decides the due actions: the low-battery notification exactly when
    /// the percent changed to at or below the threshold while
    /// discharging; on a status change, the started-charging notification
    /// for a charging status and the stopped-charging one for a
    /// discharging or not-charging status; and a cache rewrite whenever
    /// either condition held.
    pub fn check(&self) -> (r: CheckActions)
        ensures
            r.low_battery == low_battery_due(self.current, self.cached, self.battery_low_percent),
            r.started_charging == (status_changed(self.current, self.cached) && same_variant(
                self.current.status,
                ChargeStatus::Charging { time_remain: None },
            )),
            r.stopped_charging == (status_changed(self.current, self.cached) && (same_variant(
                self.current.status,
                ChargeStatus::Discharging { time_remain: None },
            ) || same_variant(self.current.status, ChargeStatus::NotCharging))),
            r.write_cache == (low_battery_due(self.current, self.cached, self.battery_low_percent)
                || status_changed(self.current, self.cached)),
    {
        let low_battery = self.current.percent != self.cached.percent && self.current.percent
            <= self.battery_low_percent && self.current.status == (ChargeStatus::Discharging {
            time_remain: None,
        });
        let changed = self.current.status != self.cached.status;
        let started_charging = changed && self.current.status == (ChargeStatus::Charging {
            time_remain: None,
        });
        let stopped_charging = changed && (self.current.status == (ChargeStatus::Discharging {
            time_remain: None,
        }) || self.current.status == ChargeStatus::NotCharging);
        CheckActions {
            write_cache: low_battery || changed,
            low_battery,
            started_charging,
            stopped_charging,
        }
    }
}

} // verus!
