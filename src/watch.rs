use vstd::prelude::*;
use crate::latch::{latch_after, should_notify};
use crate::level::BatteryLevel;
use crate::notice::{Notice, notice_for};
use crate::status::BatteryStatus;

verus! {

/// Seconds between a Critical notification and the power-off it schedules.
pub const SHUTDOWN_DELAY_SECS: u64 = 60;

/// What the file watcher reported.
#[derive(Debug, Clone, Copy, PartialEq, Eq, Structural)]
pub enum WatchEvent {
    /// The watched capacity file was modified.
    Modified,
    /// Some other change to the watched file.
    OtherChange,
    /// The watcher reported an error; it is logged and otherwise ignored.
    Failed,
}

/// What is to be done after a watch event, in this order: show `notice`;
/// close it at once if `close_notice`; schedule a power-off after
/// `shutdown_after_secs`, never to be cancelled; if `refresh`, take a new
/// reading and hand it to `BatteryStatus::update`.
#[derive(Debug, PartialEq, Eq)]
pub struct WatchOutcome {
    pub notice: Option<Notice>,
    pub close_notice: bool,
    pub shutdown_after_secs: Option<u64>,
    pub refresh: bool,
}

/// Decides what one watch event calls for. On a modification, the level of
/// the last reading is notified when the latch allows it, the latch records
/// it, a notification for a High level while unplugged is closed at once,
/// and a Critical one schedules one power-off; then a new reading is asked
/// for. Other events change nothing and ask for nothing.
pub fn battery_watch(event: WatchEvent, battery_status: &mut BatteryStatus) -> (r: WatchOutcome)
    ensures
        event is Modified ==> ({
            let s = *old(battery_status);
            let fire = should_notify(s.last_notif_level, s.battery_level);
            &&& r.notice is Some <==> fire
            &&& r.notice matches Some(n) ==> n.describes(s.battery_level, s.battery_percentage)
            &&& *final(battery_status) == (BatteryStatus {
                last_notif_level: latch_after(s.last_notif_level, s.battery_level),
                ..s
            })
            &&& r.close_notice == (fire && s.battery_level is High && !s.plugged_in)
            &&& r.shutdown_after_secs == if fire && s.battery_level is Critical {
                Some(60u64)
            } else {
                None
            }
            &&& r.refresh
        }),
        !(event is Modified) ==> *final(battery_status) == *old(battery_status) && r.notice is None
            && !r.close_notice && r.shutdown_after_secs is None && !r.refresh,
{
    let level = battery_status.battery_level;
    let last_notify = battery_status.last_notif_level;
    let plugged_in = battery_status.plugged_in;
    let percentage = battery_status.battery_percentage;

    match event {
        WatchEvent::Modified => {
            let should = match last_notify {
                None => level != BatteryLevel::Normal,
                Some(last_level) => last_level != level && level != BatteryLevel::Normal,
            };
            if should {
                let notice = notice_for(level, percentage);
                battery_status.last_notif_level = Some(level);
                let close_notice = !plugged_in && level == BatteryLevel::High;
                let shutdown_after_secs = if level == BatteryLevel::Critical {
                    Some(SHUTDOWN_DELAY_SECS)
                } else {
                    None
                };
                WatchOutcome { notice, close_notice, shutdown_after_secs, refresh: true }
            } else {
                WatchOutcome {
                    notice: None,
                    close_notice: false,
                    shutdown_after_secs: None,
                    refresh: true,
                }
            }
        },
        _ => WatchOutcome {
            notice: None,
            close_notice: false,
            shutdown_after_secs: None,
            refresh: false,
        },
    }
}

} // verus!
