use vstd::prelude::*;
use crate::level::{BatteryLevel, classify, level_of};
use crate::reading::{ReadError, decimal_u8, parse_capacity, parse_online, trim_of, trim_whitespace};

verus! {

/// What the monitor knows of the battery: the last reading, its level, the
/// AC state, and the level of the last notification shown, if any.
#[derive(Debug, Clone, Copy, PartialEq, Eq, Structural)]
pub struct BatteryStatus {
    pub battery_percentage: u8,
    pub battery_level: BatteryLevel,
    pub plugged_in: bool,
    pub last_notif_level: Option<BatteryLevel>,
}

impl BatteryStatus {
    /// The state before the first reading: nothing notified yet, level Normal.
    pub fn new() -> (r: Self)
        ensures
            r.battery_percentage == 89,
            r.battery_level is Normal,
            !r.plugged_in,
            r.last_notif_level is None,
    {
        BatteryStatus {
            battery_percentage: 89,
            battery_level: BatteryLevel::Normal,
            plugged_in: false,
            last_notif_level: None,
        }
    }

    /// Takes a reading from the trimmed contents of the capacity and
    /// AC-online files. The capacity is checked first; on an error the
    /// status is left as it was. The notification latch is never touched.
    pub fn apply_fields(&mut self, capacity: &str, online: &str) -> (r: Result<(), ReadError>)
        ensures
            decimal_u8(capacity@) is None ==> r == Err::<(), ReadError>(ReadError::Capacity),
            decimal_u8(capacity@) is Some && decimal_u8(online@) is None ==> r == Err::<(), ReadError>(ReadError::AcOnline),
            r is Err ==> *final(self) == *old(self),
            r is Ok <==> (decimal_u8(capacity@) is Some && decimal_u8(online@) is Some),
            r is Ok ==> *final(self) == (BatteryStatus {
                battery_percentage: decimal_u8(capacity@)->0,
                battery_level: level_of(decimal_u8(capacity@)->0 as int),
                plugged_in: decimal_u8(online@)->0 != 0,
                last_notif_level: old(self).last_notif_level,
            }),
    {
        let percentage = match parse_capacity(capacity) {
            Ok(p) => p,
            Err(e) => return Err(e),
        };
        let plugged_in = match parse_online(online) {
            Ok(b) => b,
            Err(e) => return Err(e),
        };
        self.battery_percentage = percentage;
        self.battery_level = classify(percentage);
        self.plugged_in = plugged_in;
        Ok(())
    }

    /// Takes a reading from the raw contents of the capacity and AC-online
    /// files, surrounding whitespace allowed.
    pub fn update(&mut self, capacity_text: &str, online_text: &str) -> (r: Result<(), ReadError>)
        ensures
            decimal_u8(trim_of(capacity_text@)) is None ==> r == Err::<(), ReadError>(ReadError::Capacity),
            decimal_u8(trim_of(capacity_text@)) is Some && decimal_u8(trim_of(online_text@)) is None
                ==> r == Err::<(), ReadError>(ReadError::AcOnline),
            r is Err ==> *final(self) == *old(self),
            r is Ok <==> (decimal_u8(trim_of(capacity_text@)) is Some && decimal_u8(trim_of(online_text@)) is Some),
            r is Ok ==> *final(self) == (BatteryStatus {
                battery_percentage: decimal_u8(trim_of(capacity_text@))->0,
                battery_level: level_of(decimal_u8(trim_of(capacity_text@))->0 as int),
                plugged_in: decimal_u8(trim_of(online_text@))->0 != 0,
                last_notif_level: old(self).last_notif_level,
            }),
    {
        let capacity = trim_whitespace(capacity_text);
        let online = trim_whitespace(online_text);
        self.apply_fields(capacity, online)
    }
}

} // verus!
