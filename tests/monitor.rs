use battery_monitor::level::{classify, BatteryLevel};
use battery_monitor::notice::{notice_for, Urgency};
use battery_monitor::reading::{parse_capacity, parse_online, ReadError};
use battery_monitor::status::BatteryStatus;
use battery_monitor::watch::{battery_watch, WatchEvent, WatchOutcome, SHUTDOWN_DELAY_SECS};

fn unplugged_at(percentage: u8) -> BatteryStatus {
    let mut status = BatteryStatus::new();
    status.update(&format!("{}\n", percentage), "0\n").unwrap();
    status
}

/// Takes a reading at `percentage`, then handles one modification event.
fn observe(status: &mut BatteryStatus, percentage: u8) -> WatchOutcome {
    status.update(&format!("{}\n", percentage), "0\n").unwrap();
    battery_watch(WatchEvent::Modified, status)
}

#[test]
fn classify_breakpoints() {
    assert_eq!(classify(0), BatteryLevel::Critical);
    assert_eq!(classify(14), BatteryLevel::Critical);
    assert_eq!(classify(15), BatteryLevel::VeryLow);
    assert_eq!(classify(24), BatteryLevel::VeryLow);
    assert_eq!(classify(25), BatteryLevel::Low);
    assert_eq!(classify(40), BatteryLevel::Low);
    assert_eq!(classify(41), BatteryLevel::Normal);
    assert_eq!(classify(88), BatteryLevel::Normal);
    assert_eq!(classify(89), BatteryLevel::High);
    assert_eq!(classify(100), BatteryLevel::High);
}

#[test]
fn classify_above_hundred_is_normal() {
    assert_eq!(classify(101), BatteryLevel::Normal);
    assert_eq!(classify(255), BatteryLevel::Normal);
}

#[test]
fn classify_every_percentage_has_its_band() {
    for p in 0..=100u8 {
        let expected = if p <= 14 {
            BatteryLevel::Critical
        } else if p <= 24 {
            BatteryLevel::VeryLow
        } else if p <= 40 {
            BatteryLevel::Low
        } else if p >= 89 {
            BatteryLevel::High
        } else {
            BatteryLevel::Normal
        };
        assert_eq!(classify(p), expected);
    }
}

#[test]
fn parse_capacity_accepts_decimal() {
    assert_eq!(parse_capacity("42"), Ok(42));
    assert_eq!(parse_capacity("0"), Ok(0));
    assert_eq!(parse_capacity("100"), Ok(100));
    assert_eq!(parse_capacity("+7"), Ok(7));
    assert_eq!(parse_capacity("007"), Ok(7));
    assert_eq!(parse_capacity("255"), Ok(255));
}

#[test]
fn parse_capacity_rejects_malformed() {
    assert_eq!(parse_capacity(""), Err(ReadError::Capacity));
    assert_eq!(parse_capacity("abc"), Err(ReadError::Capacity));
    assert_eq!(parse_capacity("4x"), Err(ReadError::Capacity));
    assert_eq!(parse_capacity("256"), Err(ReadError::Capacity));
    assert_eq!(parse_capacity("-1"), Err(ReadError::Capacity));
    assert_eq!(parse_capacity("+"), Err(ReadError::Capacity));
    assert_eq!(parse_capacity(" 42"), Err(ReadError::Capacity));
}

#[test]
fn parse_online_flag() {
    assert_eq!(parse_online("0"), Ok(false));
    assert_eq!(parse_online("1"), Ok(true));
    assert_eq!(parse_online("2"), Ok(true));
    assert_eq!(parse_online("yes"), Err(ReadError::AcOnline));
}

#[test]
fn new_status_is_unnotified_normal() {
    let s = BatteryStatus::new();
    assert_eq!(s.battery_percentage, 89);
    assert_eq!(s.battery_level, BatteryLevel::Normal);
    assert!(!s.plugged_in);
    assert_eq!(s.last_notif_level, None);
}

#[test]
fn update_trims_and_classifies() {
    let mut s = BatteryStatus::new();
    assert_eq!(s.update("  20\n", "1\n"), Ok(()));
    assert_eq!(s.battery_percentage, 20);
    assert_eq!(s.battery_level, BatteryLevel::VeryLow);
    assert!(s.plugged_in);
    assert_eq!(s.last_notif_level, None);
}

#[test]
fn update_rejects_non_numeric_capacity() {
    let mut s = unplugged_at(30);
    let before = s;
    assert_eq!(s.update("full\n", "1\n"), Err(ReadError::Capacity));
    assert_eq!(s, before);
}

#[test]
fn update_rejects_non_numeric_online() {
    let mut s = unplugged_at(30);
    let before = s;
    assert_eq!(s.update("50\n", "on\n"), Err(ReadError::AcOnline));
    assert_eq!(s, before);
}

#[test]
fn update_reports_capacity_first() {
    let mut s = BatteryStatus::new();
    assert_eq!(s.update("x", "y"), Err(ReadError::Capacity));
}

#[test]
fn notice_texts_per_level() {
    let high = notice_for(BatteryLevel::High, 95).unwrap();
    assert_eq!(high.summary, "High Battery Charge");
    assert_eq!(
        high.body,
        "[95%] Unplug your computer from power source to prevent the device from overheating"
    );
    assert_eq!(high.urgency, Urgency::Low);
    assert_eq!(high.timeout_ms, 60_000);

    let low = notice_for(BatteryLevel::Low, 30).unwrap();
    assert_eq!(low.summary, "Battery Low");
    assert_eq!(low.body, "[30%] Connect your computer to a power source as soon as possible");
    assert_eq!(low.urgency, Urgency::Normal);
    assert_eq!(low.timeout_ms, 120_000);

    let very_low = notice_for(BatteryLevel::VeryLow, 20).unwrap();
    assert_eq!(very_low.summary, "Battery Very Low");
    assert_eq!(
        very_low.body,
        "[20%] Less than 25% Battery left. Plug your computer in immediately!"
    );
    assert_eq!(very_low.urgency, Urgency::Critical);
    assert_eq!(very_low.timeout_ms, 600_000);

    let critical = notice_for(BatteryLevel::Critical, 7).unwrap();
    assert_eq!(critical.summary, "Battery Critical");
    assert_eq!(
        critical.body,
        "[7%] Shutting down in 60 seconds. Press Meta+Ctrl+Shift+A to abort."
    );
    assert_eq!(critical.urgency, Urgency::Critical);
    assert_eq!(critical.timeout_ms, 60_000);
}

#[test]
fn notice_body_spells_three_digits() {
    let n = notice_for(BatteryLevel::High, 100).unwrap();
    assert!(n.body.starts_with("[100%] "));
    let n = notice_for(BatteryLevel::Critical, 0).unwrap();
    assert!(n.body.starts_with("[0%] "));
}

#[test]
fn no_notice_for_normal() {
    assert_eq!(notice_for(BatteryLevel::Normal, 60), None);
}

#[test]
fn one_notification_per_run_of_levels() {
    let mut s = BatteryStatus::new();
    let readings: [u8; 12] = [60, 35, 30, 28, 20, 18, 70, 65, 12, 10, 95, 95];
    let mut fired = Vec::new();
    for p in readings {
        fired.push(observe(&mut s, p).notice.is_some());
    }
    assert_eq!(
        fired,
        vec![false, true, false, false, true, false, false, false, true, false, true, false]
    );
}

#[test]
fn no_notification_while_normal() {
    let mut s = BatteryStatus::new();
    for p in [41u8, 50, 60, 70, 88, 45] {
        let out = observe(&mut s, p);
        assert_eq!(out.notice, None);
        assert_eq!(out.shutdown_after_secs, None);
    }
    assert_eq!(s.last_notif_level, None);
}

#[test]
fn same_level_after_normal_does_not_renotify() {
    let mut s = BatteryStatus::new();
    assert!(observe(&mut s, 30).notice.is_some());
    assert!(observe(&mut s, 60).notice.is_none());
    assert!(observe(&mut s, 35).notice.is_none());
    assert_eq!(s.last_notif_level, Some(BatteryLevel::Low));
}

#[test]
fn critical_refires_after_very_low() {
    let mut s = BatteryStatus::new();
    let first = observe(&mut s, 10);
    assert_eq!(first.notice.unwrap().summary, "Battery Critical");
    let middle = observe(&mut s, 20);
    assert_eq!(middle.notice.unwrap().summary, "Battery Very Low");
    let again = observe(&mut s, 12);
    assert_eq!(again.notice.unwrap().summary, "Battery Critical");
    assert_eq!(again.shutdown_after_secs, Some(60));
}

#[test]
fn critical_schedules_one_shutdown() {
    let mut s = BatteryStatus::new();
    let out = observe(&mut s, 5);
    assert_eq!(out.shutdown_after_secs, Some(SHUTDOWN_DELAY_SECS));
    assert_eq!(SHUTDOWN_DELAY_SECS, 60);
    let repeat = observe(&mut s, 4);
    assert_eq!(repeat.notice, None);
    assert_eq!(repeat.shutdown_after_secs, None);
    // recovering does not cancel anything: no later outcome speaks of it
    let plugged = {
        s.update("60\n", "1\n").unwrap();
        battery_watch(WatchEvent::Modified, &mut s)
    };
    assert_eq!(plugged.shutdown_after_secs, None);
    assert_eq!(s.last_notif_level, Some(BatteryLevel::Critical));
}

#[test]
fn decision_uses_previous_reading() {
    let mut s = BatteryStatus::new();
    let out = battery_watch(WatchEvent::Modified, &mut s);
    assert_eq!(out.notice, None);
    assert!(out.refresh);
}

#[test]
fn high_unplugged_closes_notice() {
    let mut s = unplugged_at(95);
    let out = battery_watch(WatchEvent::Modified, &mut s);
    assert_eq!(out.notice.unwrap().summary, "High Battery Charge");
    assert!(out.close_notice);
    assert_eq!(out.shutdown_after_secs, None);

    let mut s = BatteryStatus::new();
    s.update("95", "1").unwrap();
    let out = battery_watch(WatchEvent::Modified, &mut s);
    assert!(out.notice.is_some());
    assert!(!out.close_notice);
}

#[test]
fn other_events_change_nothing() {
    let mut s = unplugged_at(10);
    let before = s;
    for ev in [WatchEvent::OtherChange, WatchEvent::Failed] {
        let out = battery_watch(ev, &mut s);
        assert_eq!(
            out,
            WatchOutcome {
                notice: None,
                close_notice: false,
                shutdown_after_secs: None,
                refresh: false
            }
        );
        assert_eq!(s, before);
    }
}
