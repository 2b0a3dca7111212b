//! Watches a laptop battery's charge percentage and charge/discharge status,
//! detects state transitions, and decides when desktop notifications and
//! sounds are due: when the battery becomes low while discharging, when
//! charging starts, and when charging stops.
//!
//! The decision logic is verified. All I/O (reading the power-supply files,
//! showing notifications, playing sounds, the cache file) lives in the
//! surrounding binary, which feeds plain values into the functions here and
//! carries out the actions they return.
use vstd::prelude::*;

pub mod acpi;
pub mod app_state;
pub mod batt_info;
pub mod battery;
pub mod notifier;
pub mod oneshot;
pub mod text;
pub mod time;
pub mod watcher;

verus! {

/// Configuration supplied on the command line: which battery to watch and
/// the low-battery threshold percent.
#[derive(Clone, Copy, Debug, PartialEq, Eq, Structural)]
pub struct UserArgs {
    pub battery_id: u32,
    pub low_battery_percent: u32,
}

impl Default for UserArgs {
    /// Watch the first battery and alert at or below twenty percent.
    fn default() -> (r: Self)
        ensures
            r.battery_id == 0,
            r.low_battery_percent == 20,
    {
        UserArgs { battery_id: 0, low_battery_percent: 20 }
    }
}

} // verus!
