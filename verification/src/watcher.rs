//! The watcher core: the status-transition state machine and the debounced
//! low-battery alert protocol.
//!
//! Two long-running tasks cooperate around one shared record. The status
//! watcher delivers each freshly read charge status to [`WatcherState::on_status_event`],
//! carries out the actions it returns (a channel publish, a desktop notice,
//! a sound), and the percent watcher delivers each freshly read percent to
//! [`WatcherState::on_percent_event`], which applies the debounce protocol:
//! at most one low-battery alert is active at a time, and it is dismissed
//! when the status channel reports that charging resumed.
use vstd::prelude::*;

use crate::battery::{Batteries, Battery, BatteryError, ChargeStatus};
use crate::time::{hours_of, minutes_of, seconds_of};
use crate::UserArgs;

verus! {

/// The desktop notices that a status transition can owe.
#[derive(Clone, Copy, Debug, PartialEq, Eq, Structural)]
pub enum StatusNotice {
    StartedCharging,
    StoppedCharging,
    FullyCharged,
    StatusUnknown,
}

/// The sounds that a transition can owe.
#[derive(Clone, Copy, Debug, PartialEq, Eq, Structural)]
pub enum Sound {
    Plug,
    Unplug,
    LowBattery,
}

/// What a status event asks the surrounding task to do: publish a value on
/// the status channel, show a notice, play a sound. All empty when the
/// delivered status equals the recorded one.
#[derive(Clone, Copy, Debug, PartialEq, Eq, Structural)]
pub struct StatusActions {
    pub publish: Option<ChargeStatus>,
    pub notice: Option<StatusNotice>,
    pub sound: Option<Sound>,
}

impl StatusActions {
    /// No side effects owed.
    pub open spec fn is_empty(self) -> bool {
        self.publish is None && self.notice is None && self.sound is None
    }
}

/// The value published on the status channel for a transition into
/// `new_status`. The channel's sole purpose is to signal whether charging
/// has resumed, so both non-charging states publish `NotCharging`; an
/// `Unknown` transition publishes `Charging`, the watcher's established
/// behaviour.
pub open spec fn publish_for(new_status: ChargeStatus) -> ChargeStatus {
    match new_status {
        ChargeStatus::Charging => ChargeStatus::Charging,
        ChargeStatus::Discharging => ChargeStatus::NotCharging,
        ChargeStatus::NotCharging => ChargeStatus::NotCharging,
        ChargeStatus::Unknown => ChargeStatus::Charging,
    }
}

/// The notice owed for a transition into `new_status`.
pub open spec fn notice_for(new_status: ChargeStatus) -> StatusNotice {
    match new_status {
        ChargeStatus::Charging => StatusNotice::StartedCharging,
        ChargeStatus::Discharging => StatusNotice::StoppedCharging,
        ChargeStatus::NotCharging => StatusNotice::FullyCharged,
        ChargeStatus::Unknown => StatusNotice::StatusUnknown,
    }
}

/// The sound owed for a transition into `new_status`.
pub open spec fn sound_for(new_status: ChargeStatus) -> Option<Sound> {
    match new_status {
        ChargeStatus::Charging => Some(Sound::Plug),
        ChargeStatus::Discharging => Some(Sound::Unplug),
        ChargeStatus::NotCharging => None,
        ChargeStatus::Unknown => None,
    }
}

/// When a value observed on the status channel dismisses an active
/// low-battery alert. The two watcher variants differ here, so the
/// condition is a named policy rather than a fixed rule.
#[derive(Clone, Copy, Debug, PartialEq, Eq, Structural)]
pub enum DismissPolicy {
    /// Dismiss only when charging resumed.
    OnCharging,
    /// Dismiss when charging resumed or the battery reports full.
    OnChargingOrNotCharging,
}

/// Whether `signal` dismisses an active alert under `policy`.
pub open spec fn dismisses(policy: DismissPolicy, signal: ChargeStatus) -> bool {
    match policy {
        DismissPolicy::OnCharging => signal == ChargeStatus::Charging,
        DismissPolicy::OnChargingOrNotCharging => signal == ChargeStatus::Charging
            || signal == ChargeStatus::NotCharging,
    }
}

/// Everything a low-battery alert shows: the percent that triggered it, the
/// percent at the start of the current discharge cycle, and the elapsed
/// time since that start, split into hours, minutes and seconds.
#[derive(Clone, Copy, Debug, PartialEq, Eq, Structural)]
pub struct LowBatteryAlert {
    pub percent: u32,
    pub start_percent: u32,
    pub hours: u64,
    pub minutes: u64,
    pub seconds: u64,
}

/// The state a pair of watcher tasks share: which battery is watched, its
/// last-known reading, the configured threshold, and the percent and time
/// recorded at the most recent transition into `Discharging`.
///
/// Times are whole seconds since a fixed epoch; the surrounding task reads
/// the clock and passes them in.
#[derive(Clone, Copy, Debug, PartialEq, Eq, Structural)]
pub struct WatcherState {
    pub battery_id: u32,
    pub battery: Battery,
    pub min_battery_percent: u32,
    pub start_charge_percent: u32,
    pub start_charge_time: u64,
}

/// The alert contents owed when a percent event fires an alert in state
/// `s` at time `now`.
pub open spec fn alert_for(s: WatcherState, percent: u32, now: u64) -> LowBatteryAlert
    recommends
        s.start_charge_time <= now,
{
    LowBatteryAlert {
        percent,
        start_percent: s.start_charge_percent,
        hours: hours_of((now - s.start_charge_time) as u64),
        minutes: minutes_of((now - s.start_charge_time) as u64),
        seconds: seconds_of((now - s.start_charge_time) as u64),
    }
}

/// Whether a percent event with value `percent` fires a low-battery alert:
/// the percent is at or below the threshold, the battery is not charging,
/// and no alert is already active.
pub open spec fn low_alert_due(s: WatcherState, alert_active: bool, percent: u32) -> bool {
    &&& percent <= s.min_battery_percent
    &&& s.battery.status != ChargeStatus::Charging
    &&& !alert_active
}

/// The state after a status event: the delivered status is recorded, and a
/// transition into `Discharging` resets the discharge-cycle baseline to the
/// event's time and fresh percent.
pub open spec fn status_step_state(
    s: WatcherState,
    new_status: ChargeStatus,
    now: u64,
    live_percent: u32,
) -> WatcherState {
    let base = if new_status != s.battery.status && new_status == ChargeStatus::Discharging {
        WatcherState { start_charge_time: now, start_charge_percent: live_percent, ..s }
    } else {
        s
    };
    WatcherState { battery: Battery { status: new_status, ..base.battery }, ..base }
}

/// The actions a status event owes: none when the delivered status equals
/// the recorded one, else the publish, notice and sound of the transition.
pub open spec fn status_step_actions(s: WatcherState, new_status: ChargeStatus) -> StatusActions {
    if new_status == s.battery.status {
        StatusActions { publish: None, notice: None, sound: None }
    } else {
        StatusActions {
            publish: Some(publish_for(new_status)),
            notice: Some(notice_for(new_status)),
            sound: sound_for(new_status),
        }
    }
}

/// The state, alert flag and fired-alert outcome after a percent event.
pub open spec fn percent_step(s: WatcherState, alert_active: bool, percent: u32) -> (
    WatcherState,
    bool,
    bool,
) {
    let fired = low_alert_due(s, alert_active, percent);
    (
        WatcherState { battery: Battery { percent, ..s.battery }, ..s },
        alert_active || fired,
        fired,
    )
}

impl WatcherState {
    /// Field ranges of a consistent watcher state.
    pub open spec fn wf(self) -> bool {
        self.battery.wf() && self.start_charge_percent <= 100
    }

    /// Builds the shared state for battery `config.battery_id`, taking the
    /// enumerated batteries, a fresh percent reading and the current time.
    /// Fails exactly when fewer than `config.battery_id + 1` batteries were
    /// enumerated; that is a configuration error the caller reports before
    /// exiting.
    pub fn new(config: UserArgs, batteries: Batteries, start_percent: u32, now: u64) -> (r:
        Result<WatcherState, BatteryError>)
        requires
            batteries.wf(),
            start_percent <= 100,
        ensures
            r is Ok <==> config.battery_id < batteries.entry@.len(),
            r is Ok ==> r->Ok_0 == (WatcherState {
                battery_id: config.battery_id,
                battery: batteries.entry@[config.battery_id as int],
                min_battery_percent: config.low_battery_percent,
                start_charge_percent: start_percent,
                start_charge_time: now,
            }),
            r is Ok ==> r->Ok_0.wf(),
            r is Err ==> r->Err_0 == BatteryError::BatteryDoesNotExist,
    {
        let id = config.battery_id;
        match get_owned(batteries.entry, id as usize) {
            Some(battery) => Ok(
                WatcherState {
                    battery_id: id,
                    battery,
                    min_battery_percent: config.low_battery_percent,
                    start_charge_percent: start_percent,
                    start_charge_time: now,
                },
            ),
            None => Err(BatteryError::BatteryDoesNotExist),
        }
    }

    /// The dismissal policy of the stand-alone watcher pair: an alert is
    /// dismissed only when charging resumed.
    pub fn dismiss_policy(&self) -> (r: DismissPolicy)
        ensures
            r == DismissPolicy::OnCharging,
    {
        DismissPolicy::OnCharging
    }

    /// One status event: `new_status` was freshly read from the status
    /// file at time `now`, with `live_percent` a fresh percent reading.
    /// Records the status and returns the owed side effects.
    ///
    /// Delivering the recorded status again changes nothing and owes
    /// nothing. A transition into `Discharging` resets the discharge-cycle
    /// baseline to `now` and `live_percent`, regardless of prior values.
    pub fn on_status_event(&mut self, new_status: ChargeStatus, now: u64, live_percent: u32) -> (r:
        StatusActions)
        requires
            old(self).wf(),
            live_percent <= 100,
        ensures
            final(self).wf(),
            *final(self) == status_step_state(*old(self), new_status, now, live_percent),
            r == status_step_actions(*old(self), new_status),
            new_status == old(self).battery.status ==> *final(self) == *old(self) && r.is_empty(),
            new_status != old(self).battery.status ==> final(self).battery.status == new_status
                && r.publish == Some(publish_for(new_status)) && r.notice == Some(
                notice_for(new_status),
            ) && r.sound == sound_for(new_status),
            new_status != old(self).battery.status && new_status == ChargeStatus::Discharging
                ==> final(self).start_charge_time == now && final(self).start_charge_percent
                == live_percent,
            new_status == old(self).battery.status || new_status != ChargeStatus::Discharging
                ==> final(self).start_charge_time == old(self).start_charge_time
                && final(self).start_charge_percent == old(self).start_charge_percent,
            final(self).battery.percent == old(self).battery.percent,
            final(self).battery_id == old(self).battery_id,
            final(self).min_battery_percent == old(self).min_battery_percent,
    {
        let changed = new_status != self.battery.status;
        let actions = if changed {
            if new_status == ChargeStatus::Discharging {
                self.start_charge_time = now;
                self.start_charge_percent = live_percent;
            }
            StatusActions {
                publish: Some(publish_for_exec(new_status)),
                notice: Some(notice_for_exec(new_status)),
                sound: sound_for_exec(new_status),
            }
        } else {
            StatusActions { publish: None, notice: None, sound: None }
        };
        self.battery.status = new_status;
        actions
    }

    /// One percent event: `percent` was freshly read from the percent file
    /// at time `now`. Records the percent; fires a low-battery alert if and
    /// only if the percent is at or below the threshold, the battery is not
    /// charging, and no alert is already active — the threshold itself
    /// counts as low. While the returned alert is shown, the alert flag
    /// stays set, so further low readings fire nothing.
    pub fn on_percent_event(&mut self, alert_active: &mut bool, percent: u32, now: u64) -> (r:
        Option<LowBatteryAlert>)
        requires
            old(self).wf(),
            percent <= 100,
            old(self).start_charge_time <= now,
        ensures
            final(self).wf(),
            ({
                let (s2, flag2, fired) = percent_step(*old(self), *old(alert_active), percent);
                &&& *final(self) == s2
                &&& *final(alert_active) == flag2
                &&& (r is Some <==> fired)
            }),
            r is Some <==> (percent <= old(self).min_battery_percent && old(self).battery.status
                != ChargeStatus::Charging && !*old(alert_active)),
            r is Some ==> r->0 == alert_for(*old(self), percent, now),
            final(self).battery.percent == percent,
            final(self).battery.status == old(self).battery.status,
            final(self).start_charge_time == old(self).start_charge_time,
            final(self).start_charge_percent == old(self).start_charge_percent,
            final(self).battery_id == old(self).battery_id,
            final(self).min_battery_percent == old(self).min_battery_percent,
    {
        let low_battery = percent <= self.min_battery_percent;
        let is_charging = self.battery.status == ChargeStatus::Charging;
        let alert = if low_battery && !is_charging && !*alert_active {
            *alert_active = true;
            let (hours, minutes, seconds) = crate::time::duration_hms(
                now - self.start_charge_time,
            );
            Some(
                LowBatteryAlert {
                    percent,
                    start_percent: self.start_charge_percent,
                    hours,
                    minutes,
                    seconds,
                },
            )
        } else {
            None
        };
        self.battery.percent = percent;
        alert
    }
}

/// Handles one value observed on the status channel while an alert may be
/// showing: reports whether the active alert is dismissed now, and clears
/// the flag exactly then.
pub fn on_channel_signal(alert_active: &mut bool, policy: DismissPolicy, signal: ChargeStatus) -> (
    dismissed: bool)
    ensures
        dismissed == (*old(alert_active) && dismisses(policy, signal)),
        *final(alert_active) == (*old(alert_active) && !dismisses(policy, signal)),
{
    let matches_policy = match policy {
        DismissPolicy::OnCharging => signal == ChargeStatus::Charging,
        DismissPolicy::OnChargingOrNotCharging => signal == ChargeStatus::Charging || signal
            == ChargeStatus::NotCharging,
    };
    if *alert_active && matches_policy {
        *alert_active = false;
        true
    } else {
        false
    }
}

/// Removes and returns the element at `index`, or `None` past the end.
pub fn get_owned<T>(v: Vec<T>, index: usize) -> (r: Option<T>)
    ensures
        index < v@.len() ==> r == Some(v@[index as int]),
        index >= v@.len() ==> r is None,
{
    let mut v = v;
    if index < v.len() {
        Some(v.remove(index))
    } else {
        None
    }
}

/// One channel value under the dismissal protocol: the alert flag after
/// the value, and whether the value dismissed the alert.
pub open spec fn dismiss_step(alert_active: bool, policy: DismissPolicy, signal: ChargeStatus) -> (
    bool,
    bool,
) {
    (alert_active && !dismisses(policy, signal), alert_active && dismisses(policy, signal))
}

/// How many alerts a run of percent events fires, starting from state `s`
/// with the alert flag as given.
pub open spec fn alerts_fired(s: WatcherState, alert_active: bool, events: Seq<u32>) -> nat
    decreases events.len(),
{
    if events.len() == 0 {
        0
    } else {
        let (s2, flag2, fired) = percent_step(s, alert_active, events[0]);
        (if fired {
            1nat
        } else {
            0nat
        }) + alerts_fired(s2, flag2, events.drop_first())
    }
}

/// How many values of a run of channel values dismiss the alert.
pub open spec fn dismiss_count(
    alert_active: bool,
    policy: DismissPolicy,
    signals: Seq<ChargeStatus>,
) -> nat
    decreases signals.len(),
{
    if signals.len() == 0 {
        0
    } else {
        let (flag2, dismissed) = dismiss_step(alert_active, policy, signals[0]);
        (if dismissed {
            1nat
        } else {
            0nat
        }) + dismiss_count(flag2, policy, signals.drop_first())
    }
}

/// Law: delivering the status a second time is a no-op — the state stays
/// as it was and no publish, notice or sound is owed, whatever times and
/// readings come with the repeat.
pub proof fn lemma_status_idempotent(
    s: WatcherState,
    v: ChargeStatus,
    now1: u64,
    live1: u32,
    now2: u64,
    live2: u32,
)
    ensures
        status_step_state(status_step_state(s, v, now1, live1), v, now2, live2)
            == status_step_state(s, v, now1, live1),
        status_step_actions(status_step_state(s, v, now1, live1), v).is_empty(),
{
}

/// Law: a transition into `Discharging` resets the discharge-cycle
/// baseline to the transition instant and the fresh percent reading,
/// regardless of the values recorded before.
pub proof fn lemma_discharge_cycle_reset(s: WatcherState, now: u64, live_percent: u32)
    requires
        s.battery.status != ChargeStatus::Discharging,
    ensures
        status_step_state(s, ChargeStatus::Discharging, now, live_percent).start_charge_time
            == now,
        status_step_state(s, ChargeStatus::Discharging, now, live_percent).start_charge_percent
            == live_percent,
{
}

/// While an alert is active, percent events fire nothing, and the flag
/// stays set.
pub proof fn lemma_no_alert_while_active(s: WatcherState, events: Seq<u32>)
    ensures
        alerts_fired(s, true, events) == 0,
    decreases events.len(),
{
    if events.len() > 0 {
        let (s2, flag2, fired) = percent_step(s, true, events[0]);
        lemma_no_alert_while_active(s2, events.drop_first());
    }
}

/// Law: a run of percent events, every one at or below the threshold while
/// the battery is discharging and no alert is active yet, fires exactly
/// one low-battery alert — not one per event.
pub proof fn lemma_debounce_single_alert(s: WatcherState, events: Seq<u32>)
    requires
        events.len() > 0,
        s.battery.status == ChargeStatus::Discharging,
        forall|i: int| 0 <= i < events.len() ==> events[i] <= s.min_battery_percent,
    ensures
        alerts_fired(s, false, events) == 1,
{
    assert(events[0] <= s.min_battery_percent);
    let (s2, flag2, fired) = percent_step(s, false, events[0]);
    lemma_no_alert_while_active(s2, events.drop_first());
}

/// While no alert is active, channel values dismiss nothing.
pub proof fn lemma_no_dismiss_while_inactive(policy: DismissPolicy, signals: Seq<ChargeStatus>)
    ensures
        dismiss_count(false, policy, signals) == 0,
    decreases signals.len(),
{
    if signals.len() > 0 {
        lemma_no_dismiss_while_inactive(policy, signals.drop_first());
    }
}

/// Law: with an alert active, a run of channel values that contains a
/// dismissing value dismisses the alert exactly once.
pub proof fn lemma_dismissed_once(policy: DismissPolicy, signals: Seq<ChargeStatus>)
    requires
        exists|i: int| 0 <= i < signals.len() && dismisses(policy, #[trigger] signals[i]),
    ensures
        dismiss_count(true, policy, signals) == 1,
    decreases signals.len(),
{
    let i = choose|i: int| 0 <= i < signals.len() && dismisses(policy, #[trigger] signals[i]);
    if dismisses(policy, signals[0]) {
        lemma_no_dismiss_while_inactive(policy, signals.drop_first());
    } else {
        assert(i > 0);
        assert(signals.drop_first()[i - 1] == signals[i]);
        lemma_dismissed_once(policy, signals.drop_first());
    }
}

fn publish_for_exec(new_status: ChargeStatus) -> (r: ChargeStatus)
    ensures
        r == publish_for(new_status),
{
    match new_status {
        ChargeStatus::Charging => ChargeStatus::Charging,
        ChargeStatus::Discharging => ChargeStatus::NotCharging,
        ChargeStatus::NotCharging => ChargeStatus::NotCharging,
        ChargeStatus::Unknown => ChargeStatus::Charging,
    }
}

fn notice_for_exec(new_status: ChargeStatus) -> (r: StatusNotice)
    ensures
        r == notice_for(new_status),
{
    match new_status {
        ChargeStatus::Charging => StatusNotice::StartedCharging,
        ChargeStatus::Discharging => StatusNotice::StoppedCharging,
        ChargeStatus::NotCharging => StatusNotice::FullyCharged,
        ChargeStatus::Unknown => StatusNotice::StatusUnknown,
    }
}

fn sound_for_exec(new_status: ChargeStatus) -> (r: Option<Sound>)
    ensures
        r == sound_for(new_status),
{
    match new_status {
        ChargeStatus::Charging => Some(Sound::Plug),
        ChargeStatus::Discharging => Some(Sound::Unplug),
        ChargeStatus::NotCharging => None,
        ChargeStatus::Unknown => None,
    }
}

} // verus!
