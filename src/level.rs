use vstd::prelude::*;

verus! {

/// Discrete band of battery charge used to decide on notifications.
#[derive(Debug, Clone, Copy, PartialEq, Eq, Structural)]
pub enum BatteryLevel {
    High,
    Normal,
    Low,
    VeryLow,
    Critical,
}

/// The level that a charge percentage falls in.
pub open spec fn level_of(percentage: int) -> BatteryLevel {
    if percentage <= 14 {
        BatteryLevel::Critical
    } else if percentage <= 24 {
        BatteryLevel::VeryLow
    } else if percentage <= 40 {
        BatteryLevel::Low
    } else if 89 <= percentage <= 100 {
        BatteryLevel::High
    } else {
        BatteryLevel::Normal
    }
}

/// Maps a charge percentage to its level: Critical below 15, VeryLow below 25,
/// Low up to 40, High from 89 to 100, Normal otherwise.
pub fn classify(percentage: u8) -> (r: BatteryLevel)
    ensures
        r == level_of(percentage as int),
        r is Critical <==> percentage <= 14,
        r is VeryLow <==> 15 <= percentage <= 24,
        r is Low <==> 25 <= percentage <= 40,
        r is High <==> 89 <= percentage <= 100,
        r is Normal <==> (41 <= percentage <= 88 || percentage > 100),
{
    if percentage <= 14 {
        BatteryLevel::Critical
    } else if percentage <= 24 {
        BatteryLevel::VeryLow
    } else if percentage <= 40 {
        BatteryLevel::Low
    } else if 89 <= percentage && percentage <= 100 {
        BatteryLevel::High
    } else {
        BatteryLevel::Normal
    }
}

} // verus!
