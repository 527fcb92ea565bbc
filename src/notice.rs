use vstd::prelude::*;
use crate::level::BatteryLevel;

verus! {

/// How insistently a notification asks for attention.
#[derive(Debug, Clone, Copy, PartialEq, Eq, Structural)]
pub enum Urgency {
    Low,
    Normal,
    Critical,
}

/// A desktop notification to be shown: title, text, urgency and how long it
/// stays on screen.
#[derive(Debug, PartialEq, Eq)]
pub struct Notice {
    pub summary: String,
    pub body: String,
    pub urgency: Urgency,
    pub timeout_ms: u32,
}

/// Title of the notification for a level other than Normal.
pub open spec fn summary_of(level: BatteryLevel) -> Seq<char> {
    match level {
        BatteryLevel::High => "High Battery Charge"@,
        BatteryLevel::Low => "Battery Low"@,
        BatteryLevel::VeryLow => "Battery Very Low"@,
        _ => "Battery Critical"@,
    }
}

/// Advice given in the notification for a level other than Normal.
pub open spec fn message_of(level: BatteryLevel) -> Seq<char> {
    match level {
        BatteryLevel::High => "Unplug your computer from power source to prevent the device from overheating"@,
        BatteryLevel::Low => "Connect your computer to a power source as soon as possible"@,
        BatteryLevel::VeryLow => "Less than 25% Battery left. Plug your computer in immediately!"@,
        _ => "Shutting down in 60 seconds. Press Meta+Ctrl+Shift+A to abort."@,
    }
}

pub open spec fn urgency_of(level: BatteryLevel) -> Urgency {
    match level {
        BatteryLevel::High => Urgency::Low,
        BatteryLevel::Low => Urgency::Normal,
        _ => Urgency::Critical,
    }
}

/// Display time in milliseconds: one minute for High and Critical, two for
/// Low, ten for VeryLow.
pub open spec fn timeout_of(level: BatteryLevel) -> u32 {
    match level {
        BatteryLevel::High => 60_000,
        BatteryLevel::Low => 120_000,
        BatteryLevel::VeryLow => 600_000,
        _ => 60_000,
    }
}

pub open spec fn digit_char(d: nat) -> char {
    (d + ('0' as int)) as char
}

/// Decimal spelling of a number, without leading zeros.
pub open spec fn decimal_text(n: nat) -> Seq<char>
    decreases n,
{
    if n < 10 {
        seq![digit_char(n)]
    } else {
        decimal_text(n / 10) + seq![digit_char(n % 10)]
    }
}

/// Notification text: the percentage in brackets, then the level's advice.
pub open spec fn body_of(level: BatteryLevel, percentage: u8) -> Seq<char> {
    "["@ + decimal_text(percentage as nat) + "%] "@ + message_of(level)
}

impl Notice {
    /// This notice is the one for `level` at `percentage`.
    pub open spec fn describes(&self, level: BatteryLevel, percentage: u8) -> bool {
        &&& self.summary@ == summary_of(level)
        &&& self.body@ == body_of(level, percentage)
        &&& self.urgency == urgency_of(level)
        &&& self.timeout_ms == timeout_of(level)
    }
}

fn digit_str(d: u8) -> (r: &'static str)
    requires
        d < 10,
    ensures
        r@ == seq![digit_char(d as nat)],
{
    proof {
        reveal_strlit("0");
        reveal_strlit("1");
        reveal_strlit("2");
        reveal_strlit("3");
        reveal_strlit("4");
        reveal_strlit("5");
        reveal_strlit("6");
        reveal_strlit("7");
        reveal_strlit("8");
        reveal_strlit("9");
    }
    match d {
        0 => "0",
        1 => "1",
        2 => "2",
        3 => "3",
        4 => "4",
        5 => "5",
        6 => "6",
        7 => "7",
        8 => "8",
        _ => "9",
    }
}

/// Appends the decimal spelling of `n` to `text`.
fn push_decimal(text: &mut String, n: u8)
    ensures
        final(text)@ == old(text)@ + decimal_text(n as nat),
{
    proof {
        reveal_with_fuel(decimal_text, 3);
    }
    if n >= 100 {
        text.append(digit_str(n / 100));
        text.append(digit_str((n / 10) % 10));
        text.append(digit_str(n % 10));
        assert(decimal_text(n as nat) =~= seq![digit_char((n / 100) as nat)] + seq![digit_char(((n / 10) % 10) as nat)] + seq![digit_char((n % 10) as nat)]);
    } else if n >= 10 {
        text.append(digit_str(n / 10));
        text.append(digit_str(n % 10));
        assert(decimal_text(n as nat) =~= seq![digit_char((n / 10) as nat)] + seq![digit_char((n % 10) as nat)]);
    } else {
        text.append(digit_str(n));
    }
}

fn summary_str(level: BatteryLevel) -> (r: &'static str)
    ensures
        r@ == summary_of(level),
{
    match level {
        BatteryLevel::High => "High Battery Charge",
        BatteryLevel::Low => "Battery Low",
        BatteryLevel::VeryLow => "Battery Very Low",
        _ => "Battery Critical",
    }
}

fn message_str(level: BatteryLevel) -> (r: &'static str)
    ensures
        r@ == message_of(level),
{
    match level {
        BatteryLevel::High => "Unplug your computer from power source to prevent the device from overheating",
        BatteryLevel::Low => "Connect your computer to a power source as soon as possible",
        BatteryLevel::VeryLow => "Less than 25% Battery left. Plug your computer in immediately!",
        _ => "Shutting down in 60 seconds. Press Meta+Ctrl+Shift+A to abort.",
    }
}

/// The notification owed for `level` at `percentage`; none for Normal.
pub fn notice_for(level: BatteryLevel, percentage: u8) -> (r: Option<Notice>)
    ensures
        r is None <==> level is Normal,
        r matches Some(n) ==> n.describes(level, percentage),
{
    if level == BatteryLevel::Normal {
        return None;
    }
    let (urgency, timeout_ms) = match level {
        BatteryLevel::High => (Urgency::Low, 60_000u32),
        BatteryLevel::Low => (Urgency::Normal, 120_000u32),
        BatteryLevel::VeryLow => (Urgency::Critical, 600_000u32),
        _ => (Urgency::Critical, 60_000u32),
    };
    let mut body = String::from_str("[");
    push_decimal(&mut body, percentage);
    body.append("%] ");
    body.append(message_str(level));
    Some(Notice { summary: String::from_str(summary_str(level)), body, urgency, timeout_ms })
}

} // verus!
