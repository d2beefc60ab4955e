use cablescope::instance::lock_pid;
use cablescope::logger::{
    chrono_free, civil_from_days, is_leap, list_log_files, log_file_name, log_line, today_date,
};
use cablescope::ucsi::get_connector_status;

#[test]
fn today_date_at_epoch() {
    assert_eq!(today_date(0), "1970-01-01");
    assert_eq!(today_date(86399), "1970-01-01");
    assert_eq!(today_date(86400), "1970-01-02");
}

#[test]
fn today_date_known_instants() {
    assert_eq!(today_date(1_234_567_890), "2009-02-13");
    assert_eq!(today_date(1_700_000_000), "2023-11-14");
    assert_eq!(today_date(4_102_444_799), "2099-12-31");
}

#[test]
fn today_date_on_leap_days() {
    assert_eq!(today_date(951_782_400), "2000-02-29");
    assert_eq!(today_date(1_709_164_800), "2024-02-29");
    assert_eq!(today_date(1_709_164_800 + 86_400), "2024-03-01");
}

#[test]
fn civil_date_of_day_counts() {
    assert_eq!(civil_from_days(0), (1970, 1, 1));
    assert_eq!(civil_from_days(59), (1970, 3, 1));
    assert_eq!(civil_from_days(365), (1971, 1, 1));
    // 1972 is a leap year: day 789 is its February 29th.
    assert_eq!(civil_from_days(789), (1972, 2, 29));
}

#[test]
fn leap_year_rule() {
    assert!(!is_leap(1900));
    assert!(is_leap(2000));
    assert!(is_leap(2024));
    assert!(!is_leap(2023));
}

#[test]
fn clock_text_is_utc_time_of_day() {
    assert_eq!(chrono_free(0), "00:00:00");
    assert_eq!(chrono_free(3661), "01:01:01");
    assert_eq!(chrono_free(1_700_000_000), "22:13:20");
    assert_eq!(chrono_free(86_399), "23:59:59");
}

#[test]
fn lock_file_pid() {
    assert_eq!(lock_pid("1234"), Some(1234));
    assert_eq!(lock_pid("  4321\r\n"), Some(4321));
    assert_eq!(lock_pid("+7"), Some(7));
    assert_eq!(lock_pid(""), None);
    assert_eq!(lock_pid("abc"), None);
    assert_eq!(lock_pid("-1"), None);
    assert_eq!(lock_pid("4294967295"), Some(u32::MAX));
    assert_eq!(lock_pid("4294967296"), None);
}

#[test]
fn connectors_read_as_unavailable() {
    let c = get_connector_status(3).expect("always answers");
    assert!(!c.available);
    assert_eq!(c.connector_id, 0);
    assert_eq!(c.power_role, "");
    assert_eq!(c.pd_max_watts, 0);
}

#[test]
fn log_lines_and_names() {
    assert_eq!(log_line(3661, "CMD scan_usb"), "[01:01:01] CMD scan_usb");
    assert_eq!(log_line(0, ""), "[00:00:00] ");
    assert_eq!(log_file_name("2024-02-29"), "2024-02-29.log");
    assert_eq!(log_file_name(&today_date(1_700_000_000)), "2023-11-14.log");
}

#[test]
fn log_days_newest_first() {
    let names: Vec<String> = [
        "2024-01-02.log",
        "notes.txt",
        "2023-12-31.log",
        ".log",
        "2024-01-10.log",
        "archive.log.log",
        "x.LOG",
        "2024-01-02.log.bak",
    ]
    .iter()
    .map(|s| s.to_string())
    .collect();
    assert_eq!(
        list_log_files(names),
        vec!["archive", "2024-01-10", "2024-01-02", "2023-12-31"]
    );
    assert!(list_log_files(vec![]).is_empty());
    assert_eq!(
        list_log_files(vec!["b.log".to_string(), "a.log".to_string(), "b.log".to_string()]),
        vec!["b", "b", "a"]
    );
}

#[test]
fn date_and_clock_give_back_the_instant() {
    for secs in [0u64, 86_399, 951_782_400, 1_234_567_890, 1_700_000_000] {
        let (y, m, d) = civil_from_days(secs / 86_400);
        assert_eq!(today_date(secs), format!("{:04}-{:02}-{:02}", y, m, d));
        let clock = chrono_free(secs);
        let parts: Vec<u64> = clock.split(':').map(|p| p.parse().unwrap()).collect();
        assert_eq!((secs / 86_400) * 86_400 + parts[0] * 3600 + parts[1] * 60 + parts[2], secs);
    }
}
