//! The notifier: the watcher-pair state together with the low-battery
//! alert flag, for the variant whose percent watcher owns the flag and
//! dismisses an alert when charging resumes or the battery reports full.
use vstd::prelude::*;

use crate::battery::{Batteries, BatteryError};
use crate::watcher::{DismissPolicy, WatcherState};
use crate::UserArgs;

verus! {

/// The state of one watcher pair plus the debounce flag: true while a
/// low-battery alert is displayed and not yet dismissed.
#[derive(Clone, Copy, Debug, PartialEq, Eq, Structural)]
pub struct Notifier {
    pub state: WatcherState,
    pub alert_active: bool,
}

impl Notifier {
    /// Builds the notifier for battery `config.battery_id`. Fails exactly
    /// when fewer than `config.battery_id + 1` batteries were enumerated;
    /// the caller reports that and exits.
    pub fn new(config: UserArgs, batteries: Batteries, start_percent: u32, now: u64) -> (r: Result<
        Notifier,
        BatteryError,
    >)
        requires
            batteries.wf(),
            start_percent <= 100,
        ensures
            r is Ok <==> config.battery_id < batteries.entry@.len(),
            r is Ok ==> r->Ok_0.state == (WatcherState {
                battery_id: config.battery_id,
                battery: batteries.entry@[config.battery_id as int],
                min_battery_percent: config.low_battery_percent,
                start_charge_percent: start_percent,
                start_charge_time: now,
            }),
            r is Ok ==> r->Ok_0.state.wf() && !r->Ok_0.alert_active,
            r is Err ==> r->Err_0 == BatteryError::BatteryDoesNotExist,
    {
        match WatcherState::new(config, batteries, start_percent, now) {
            Ok(state) => Ok(Notifier { state, alert_active: false }),
            Err(e) => Err(e),
        }
    }

    /// The dismissal policy of this variant: an alert is dismissed when
    /// charging resumed or the battery reports full.
    pub fn dismiss_policy(&self) -> (r: DismissPolicy)
        ensures
            r == DismissPolicy::OnChargingOrNotCharging,
    {
        DismissPolicy::OnChargingOrNotCharging
    }
}

} // verus!
