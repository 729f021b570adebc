use std::cell::RefCell;

use rgbar::battery::batdiff::BatDiff;
use rgbar::battery::ideapad::{conservation_mode_of, ConvervationMode};
use rgbar::battery::{BatteryInfo, PowerStatus};
use rgbar::datahodler::ring::Ring;
use rgbar::hyprstatus::hyprclients::{HyprMonitor, HyprWorkspace};
use rgbar::hyprstatus::HyprCurrentStatus;
use rgbar::strutil::{str_contains, str_eq, u64_to_string, u64_to_string_pad2};
use rgbar::util::gtk_icon_loader::StatusName;
use rgbar::utils::gtkiconloader::{load_label, IconName};

#[test]
fn ring_keeps_the_newest_values() {
    let mut ring: Ring<u32> = Ring::new(3);
    assert!(ring.get_all().is_empty());
    ring.add(1);
    ring.add(2);
    assert_eq!(ring.get_all(), vec![1, 2]);
    ring.add(3);
    assert_eq!(ring.get_all(), vec![1, 2, 3]);
    ring.add(4);
    assert_eq!(ring.get_all(), vec![2, 3, 4]);
    ring.add(5);
    ring.add(6);
    assert_eq!(ring.get_all(), vec![4, 5, 6]);
    ring.add(7);
    assert_eq!(ring.get_all(), vec![5, 6, 7]);
}

#[test]
fn seconds_render_as_hours_and_minutes() {
    // The padded variant.
    assert_eq!(rgbar::util::timeutil::second_to_human(3661), "01:01");
    assert_eq!(rgbar::util::timeutil::second_to_human(36120), "10:02");
    assert_eq!(rgbar::util::timeutil::second_to_human(59), "00:0");
    assert_eq!(rgbar::util::timeutil::second_to_human(125), "00:2");
    // The unpadded variant.
    assert_eq!(rgbar::utils::timeutils::second_to_human(3661), "1:1");
    assert_eq!(rgbar::utils::timeutils::second_to_human(120), "2");
    assert_eq!(rgbar::utils::timeutils::second_to_human(0), "0");
}

#[test]
fn numbers_render_in_decimal() {
    assert_eq!(u64_to_string(0), "0");
    assert_eq!(u64_to_string(7), "7");
    assert_eq!(u64_to_string(12345), "12345");
    assert_eq!(u64_to_string_pad2(7), "07");
    assert_eq!(u64_to_string_pad2(42), "42");
    assert_eq!(u64_to_string_pad2(100), "100");
}

#[test]
fn string_helpers_agree_with_std() {
    assert!(str_eq("headset", "headset"));
    assert!(!str_eq("headset", "headsets"));
    assert!(str_contains("analog-output-headphones", "headphone"));
    assert!(!str_contains("analog-output", "headphone"));
    assert!(str_contains("abc", ""));
}

#[test]
fn icon_labels_are_single_glyphs() {
    assert_eq!(load_label(IconName::CPU), "\u{e0a4}");
    assert_eq!(load_label(IconName::VolumeMute), "\u{e1a0}");
    assert_eq!(load_label(IconName::Empty), "");
}

fn battery_reading(status: PowerStatus, capacity: u8, energy_now: u32) -> BatteryInfo {
    BatteryInfo {
        name: "BAT0".to_string(),
        status,
        present: 1,
        technology: "Li-ion".to_string(),
        cycle_count: 100,
        voltage_min_design: 11_000_000,
        voltage_now: 12_000_000,
        power_now: 10_000_000,
        energy_full_design: 57_000_000,
        energy_full: 50_000_000,
        energy_now,
        capacity,
        capacity_level: "Normal".to_string(),
        model_name: "model".to_string(),
        manufacturer: "maker".to_string(),
        serial_numer: "serial-0001".to_string(),
    }
}

fn fresh_batdiff() -> BatDiff {
    BatDiff {
        last_power_status: PowerStatus::Unknown,
        last_percent: 0,
        energy_diff: 0,
        time_diff: 0,
        last_record_seconds: 0,
        last_record_energy: 0,
        last_remain_time_notify_sec: 0,
        last_remain_time_label_time: 0,
    }
}

#[test]
fn percent_changes_reach_the_callback_once() {
    let mut diff = fresh_batdiff();
    let seen: RefCell<Vec<(u8, StatusName)>> = RefCell::new(Vec::new());
    let info = battery_reading(PowerStatus::Discharging, 55, 25_000_000);
    diff.check_percent(&info, |p, s| seen.borrow_mut().push((p, s)));
    assert_eq!(diff.last_percent, 55);
    assert_eq!(seen.borrow().as_slice(), &[(55, StatusName::BatteryMid)]);

    // The same percentage again stays quiet.
    diff.check_percent(&info, |p, s| seen.borrow_mut().push((p, s)));
    assert_eq!(seen.borrow().len(), 1);

    let low = battery_reading(PowerStatus::Discharging, 9, 2_000_000);
    diff.check_percent(&low, |p, s| seen.borrow_mut().push((p, s)));
    assert_eq!(seen.borrow().last(), Some(&(9, StatusName::BatteryEmpty)));
}

#[test]
fn power_status_changes_reach_the_callback_once() {
    let mut diff = fresh_batdiff();
    let seen: RefCell<Vec<StatusName>> = RefCell::new(Vec::new());
    let info = battery_reading(PowerStatus::Charging, 55, 25_000_000);
    diff.check_power_status(&info, |s| seen.borrow_mut().push(s));
    assert_eq!(diff.last_power_status, PowerStatus::Charging);
    assert_eq!(seen.borrow().as_slice(), &[StatusName::BattetyPowerCharging]);

    diff.check_power_status(&info, |s| seen.borrow_mut().push(s));
    assert_eq!(seen.borrow().len(), 1);
}

#[test]
fn remaining_time_is_estimated_while_discharging() {
    let mut diff = fresh_batdiff();
    diff.last_record_seconds = 1000;
    diff.last_record_energy = 25_002_000;
    diff.time_diff = 100;
    diff.energy_diff = 0;
    diff.last_remain_time_label_time = 0;
    diff.last_remain_time_notify_sec = 0;

    let info = battery_reading(PowerStatus::Discharging, 55, 25_000_000);
    let labels: RefCell<Vec<Option<usize>>> = RefCell::new(Vec::new());
    let notify = diff.check_remain_time(&info, 1002, |o| labels.borrow_mut().push(o));

    // time_diff grew by 2, energy_diff by 2000:
    // 25_000_000 * 102 / 2000 = 1_275_000 seconds remain.
    assert_eq!(diff.time_diff, 102);
    assert_eq!(diff.energy_diff, 2000);
    assert_eq!(diff.last_record_seconds, 1002);
    assert_eq!(diff.last_record_energy, 25_000_000);
    assert_eq!(labels.borrow().as_slice(), &[Some(1_275_000)]);
    // Capacity is 55 %: no low-battery notification.
    assert!(notify.is_none());
}

#[test]
fn low_battery_notification_fires_under_30_percent() {
    let mut diff = fresh_batdiff();
    diff.last_record_seconds = 1000;
    diff.last_record_energy = 5_002_000;
    diff.time_diff = 100;
    diff.energy_diff = 0;

    let info = battery_reading(PowerStatus::Discharging, 10, 5_000_000);
    let notify = diff.check_remain_time(&info, 1002, |_| {});
    assert_eq!(notify, Some(5_000_000 * 102 / 2000));
    assert_eq!(diff.last_remain_time_notify_sec, 1002);
}

#[test]
fn not_discharging_clears_the_label() {
    let mut diff = fresh_batdiff();
    let info = battery_reading(PowerStatus::Charging, 80, 40_000_000);
    let labels: RefCell<Vec<Option<usize>>> = RefCell::new(Vec::new());
    let notify = diff.check_remain_time(&info, 5000, |o| labels.borrow_mut().push(o));
    assert!(notify.is_none());
    assert_eq!(labels.borrow().as_slice(), &[None]);
    assert_eq!(diff.last_record_seconds, 0);
}

#[test]
fn workspaces_on_other_monitors_are_starred() {
    let builtin = HyprWorkspace {
        id: Some(1),
        name: "1".to_string(),
        monitor: HyprMonitor { id: Some(0), name: "eDP-1".to_string() },
    };
    assert_eq!(builtin.get_bar_name(), "1");

    let external = HyprWorkspace {
        id: Some(2),
        name: "web".to_string(),
        monitor: HyprMonitor { id: Some(1), name: "DP-3".to_string() },
    };
    assert_eq!(external.get_bar_name(), "* web");
}

#[test]
fn workspaces_compare_by_id() {
    let a = HyprWorkspace {
        id: Some(3),
        name: "mail".to_string(),
        monitor: HyprMonitor { id: Some(0), name: "eDP-1".to_string() },
    };
    let b = HyprWorkspace {
        id: Some(3),
        name: "another-name".to_string(),
        monitor: HyprMonitor { id: Some(9), name: "DP-3".to_string() },
    };
    let c = HyprWorkspace {
        id: Some(4),
        name: "mail".to_string(),
        monitor: HyprMonitor { id: Some(0), name: "eDP-1".to_string() },
    };
    assert_eq!(a, b);
    assert_ne!(a, c);
}

#[test]
fn fresh_status_has_no_monitor() {
    let status = HyprCurrentStatus::default();
    assert!(status.get_current_monitor().is_none());
}

#[test]
fn conservation_mode_reads_the_firmware_knob() {
    assert!(conservation_mode_of(Some("1\n")) == ConvervationMode::Enable);
    assert!(conservation_mode_of(Some("0\n")) == ConvervationMode::Disable);
    assert!(conservation_mode_of(None) == ConvervationMode::Unknown);
}
