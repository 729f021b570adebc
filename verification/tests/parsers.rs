use rgbar::battery::{read_event, PowerStatus, UeventError};
use rgbar::memory::{Memstate, MeminfoError};
use rgbar::netspeed::read_total_bytes;
use rgbar::cpu::CpuTime;
use rgbar::hyprstatus::hyprevents::{convert_line_to_event, ParsedEventType};
use rgbar::strutil::{parse_u32, parse_u64, parse_usize, split_ascii_ws};

#[test]
fn decimal_parsing_accepts_digit_runs_only() {
    assert_eq!(parse_u64("0"), Some(0));
    assert_eq!(parse_u64("42"), Some(42));
    assert_eq!(parse_u64("18446744073709551615"), Some(u64::MAX));
    assert_eq!(parse_u64("18446744073709551616"), None);
    assert_eq!(parse_u64(""), None);
    assert_eq!(parse_u64("12a"), None);
    assert_eq!(parse_u64("-1"), None);
    assert_eq!(parse_u32("4294967295"), Some(u32::MAX));
    assert_eq!(parse_u32("4294967296"), None);
    assert_eq!(parse_usize("123"), Some(123));
}

#[test]
fn whitespace_splitting_keeps_the_runs() {
    let toks = split_ascii_ws("  cpu0 100\t200  300\n");
    assert_eq!(toks, vec!["cpu0", "100", "200", "300"]);
    assert!(split_ascii_ws("   ").is_empty());
    assert_eq!(split_ascii_ws("one"), vec!["one"]);
}

#[test]
fn proc_stat_rows_parse_into_cpu_time() {
    let row = CpuTime::from_str(" 100 20 30 400 50 6 7 0 0 0").unwrap();
    assert_eq!(row.user, 100);
    // nice + system + irq + softirq
    assert_eq!(row.system_total, 20 + 30 + 6 + 7);
    assert_eq!(row.idle, 400 + 50);
    assert_eq!(row.non_idle, 100 + 63);

    assert!(CpuTime::from_str("1 2 3 4 5 6").is_none());
    assert!(CpuTime::from_str("a b c d e f g").is_none());
}

#[test]
fn uevent_lines_fold_into_a_reading() {
    let lines: Vec<String> = vec![
        "POWER_SUPPLY_NAME=BAT0".to_string(),
        "POWER_SUPPLY_STATUS=Discharging".to_string(),
        "POWER_SUPPLY_PRESENT=1".to_string(),
        "POWER_SUPPLY_TECHNOLOGY=Li-poly".to_string(),
        "POWER_SUPPLY_CYCLE_COUNT=321".to_string(),
        "POWER_SUPPLY_VOLTAGE_NOW=11900000".to_string(),
        "POWER_SUPPLY_ENERGY_NOW=28340000".to_string(),
        "POWER_SUPPLY_CAPACITY=57".to_string(),
        "POWER_SUPPLY_MODEL_NAME=some model".to_string(),
        "SOMETHING_ELSE=ignored".to_string(),
    ];
    let info = read_event(&lines).unwrap();
    assert_eq!(info.name, "BAT0");
    assert_eq!(info.status, PowerStatus::Discharging);
    assert_eq!(info.present, 1);
    assert_eq!(info.technology, "Li-poly");
    assert_eq!(info.cycle_count, 321);
    assert_eq!(info.voltage_now, 11_900_000);
    assert_eq!(info.energy_now, 28_340_000);
    assert_eq!(info.capacity, 57);
    assert_eq!(info.model_name, "some model");
    // Untouched fields keep their initial values.
    assert_eq!(info.energy_full, 0);
    assert_eq!(info.manufacturer, "");
}

#[test]
fn uevent_status_is_read_case_insensitively() {
    let lines: Vec<String> = vec!["POWER_SUPPLY_STATUS=CHARGING".to_string()];
    assert_eq!(read_event(&lines).unwrap().status, PowerStatus::Charging);
    let lines: Vec<String> = vec!["POWER_SUPPLY_STATUS=Not charging".to_string()];
    assert_eq!(read_event(&lines).unwrap().status, PowerStatus::NotCharging);
    let lines: Vec<String> = vec!["POWER_SUPPLY_STATUS=Dozing".to_string()];
    assert_eq!(read_event(&lines).unwrap().status, PowerStatus::Unknown);
}

#[test]
fn uevent_bad_number_is_an_error() {
    let lines: Vec<String> = vec!["POWER_SUPPLY_CAPACITY=banana".to_string()];
    assert_eq!(read_event(&lines).unwrap_err(), UeventError::BadNumber);
    let lines: Vec<String> = vec!["POWER_SUPPLY_CAPACITY=300".to_string()];
    assert_eq!(read_event(&lines).unwrap_err(), UeventError::BadNumber);
    let lines: Vec<String> = vec!["POWER_SUPPLY_CYCLE_COUNT=".to_string()];
    assert_eq!(read_event(&lines).unwrap_err(), UeventError::BadNumber);
}

#[test]
fn event_lines_parse_into_events() {
    match convert_line_to_event("workspace>>3") {
        ParsedEventType::WorkspaceChanged(w) => assert_eq!(w, "3"),
        _ => panic!("expected a workspace change"),
    }
    match convert_line_to_event("destroyworkspace>>special") {
        ParsedEventType::WorkspaceDeleted(w) => assert_eq!(w, "special"),
        _ => panic!("expected a workspace deletion"),
    }
    match convert_line_to_event("createworkspace>>9") {
        ParsedEventType::WorkspaceAdded(w) => assert_eq!(w, "9"),
        _ => panic!("expected a workspace addition"),
    }
    match convert_line_to_event("moveworkspace>>2,DP-3") {
        ParsedEventType::WorkspaceMoved(w, m) => {
            assert_eq!(w, "2");
            assert_eq!(m, "DP-3");
        }
        _ => panic!("expected a workspace move"),
    }
    match convert_line_to_event("activewindow>>firefox,Example Domain") {
        ParsedEventType::ActiveWindowChangedV1(class, title) => {
            assert_eq!(class, "firefox");
            assert_eq!(title, "Example Domain");
        }
        _ => panic!("expected a focus change"),
    }
    // The window title itself may hold commas: the split is at the last.
    match convert_line_to_event("activewindow>>org.gnome.Nautilus,Home, files") {
        ParsedEventType::ActiveWindowChangedV1(class, title) => {
            assert_eq!(class, "org.gnome.Nautilus,Home");
            assert_eq!(title, " files");
        }
        _ => panic!("expected a focus change"),
    }
    // A monitor-focus line is recognised but deliberately unused.
    assert!(matches!(
        convert_line_to_event("focusedmon>>eDP-1,3"),
        ParsedEventType::Unknown
    ));
    assert!(matches!(
        convert_line_to_event("activewindowv2>>56341ab"),
        ParsedEventType::Unknown
    ));
    assert!(matches!(
        convert_line_to_event("openwindow>>1,2,3,4"),
        ParsedEventType::Unknown
    ));
}

#[test]
fn meminfo_rows_fold_into_an_accounting() {
    let lines: Vec<String> = vec![
        "MemTotal:       16256332 kB".to_string(),
        "MemFree:         8052980 kB".to_string(),
        "MemAvailable:   11022012 kB".to_string(),
        "Buffers:          517304 kB".to_string(),
        "Cached:          3354056 kB".to_string(),
        "SwapTotal:       2097148 kB".to_string(),
        "SwapFree:        2097148 kB".to_string(),
        "SwapCached:            0 kB".to_string(),
        "HugePages_Total:       0".to_string(),
        "".to_string(),
    ];
    let m = Memstate::new(&lines).unwrap();
    assert_eq!(m.mem_total, 16_256_332);
    assert_eq!(m.mem_free, 8_052_980);
    assert_eq!(m.mem_available, 11_022_012);
    assert_eq!(m.buffers, 517_304);
    assert_eq!(m.pagecache, 3_354_056);
    assert_eq!(m.swap_total, 2_097_148);
    assert_eq!(m.swap_cached, 0);
    assert_eq!(m.zfs_arc_cache, 0);

    let bad: Vec<String> = vec!["MemTotal: plenty".to_string()];
    assert_eq!(Memstate::new(&bad).unwrap_err(), MeminfoError::BadValue);
}

#[test]
fn interface_bytes_sum_over_real_interfaces_only() {
    let lines: Vec<String> = vec![
        "Inter-|   Receive                                                |  Transmit".to_string(),
        " face |bytes    packets errs drop fifo frame compressed multicast|bytes    packets errs drop fifo colls carrier compressed".to_string(),
        "    lo: 1000 10 0 0 0 0 0 0 1000 10 0 0 0 0 0 0".to_string(),
        "  eth0: 500 5 0 0 0 0 0 0 300 3 0 0 0 0 0 0".to_string(),
        " wlan0: 200 2 0 0 0 0 0 0 100 1 0 0 0 0 0 0".to_string(),
        "  ifb0: 999 9 0 0 0 0 0 0 999 9 0 0 0 0 0 0".to_string(),
    ];
    assert_eq!(read_total_bytes(&lines), (700, 400));
}
