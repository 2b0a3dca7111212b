//! The single-battery application state of the plain polling variant: one
//! battery's reading plus the discharge-cycle baseline.
use vstd::prelude::*;

use crate::battery::Battery;

verus! {

/// Configuration of the application state: the low-battery threshold.
#[derive(Clone, Copy, Debug, PartialEq, Eq, Structural)]
pub struct AppStateConfigs {
    pub min: u32,
}

impl Default for AppStateConfigs {
    /// Alert at or below twenty percent.
    fn default() -> (r: Self)
        ensures
            r.min == 20,
    {
        AppStateConfigs { min: 20 }
    }
}

/// The watched battery's reading, the configured threshold, and the
/// percent and time recorded when the current discharge cycle began.
#[derive(Clone, Copy, Debug, PartialEq, Eq, Structural)]
pub struct AppState {
    pub battery: Battery,
    pub min_battery_percent: u32,
    pub start_charge_percent: u32,
    pub start_charge_time: u64,
}

impl AppState {
    /// Builds the state from the watched battery's live reading, a fresh
    /// percent, and the current time.
    pub fn new(config: AppStateConfigs, battery: Battery, start_percent: u32, now: u64) -> (r:
        Self)
        ensures
            r.battery == battery,
            r.min_battery_percent == config.min,
            r.start_charge_percent == start_percent,
            r.start_charge_time == now,
    {
        AppState {
            battery,
            min_battery_percent: config.min,
            start_charge_percent: start_percent,
            start_charge_time: now,
        }
    }
}

} // verus!
