//! One battery's report data as the cache file holds it, for the one-shot
//! poll-and-compare mode.
use vstd::prelude::*;

use crate::acpi::ChargeStatus;

verus! {

/// One battery's reading: id, percent, and charge status with the
/// remaining time the report may carry.
#[derive(Debug, PartialEq)]
pub struct BatteryData {
    pub battery_id: i32,
    pub percent: u32,
    pub status: ChargeStatus,
}

impl Default for BatteryData {
    /// A reading of nothing: battery zero, empty, status unknown.
    fn default() -> (r: Self)
        ensures
            r.battery_id == 0,
            r.percent == 0,
            r.status == (ChargeStatus::Unknown),
    {
        BatteryData { battery_id: 0, percent: 0, status: ChargeStatus::Unknown }
    }
}

/// The path of the cache file the one-shot mode compares against.
pub fn cache_path() -> (r: String)
    ensures
        r@ == "./cache/data.json"@,
{
    "./cache/data.json".to_owned()
}

} // verus!
