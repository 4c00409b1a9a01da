use chrono::Datelike;
use yukin::retention::{
    crash_metadata_name, crash_report_names, crash_reports_to_remove, crash_timestamp,
    first_field_of, log_date, log_expired, oldest_retained_day, strip_affixes,
};

fn day(year: i32, month: u32, date: u32) -> i32 {
    chrono::NaiveDate::from_ymd_opt(year, month, date)
        .expect("valid date")
        .num_days_from_ce()
}

#[test]
fn recognizes_crash_dump_names() {
    assert_eq!(
        crash_timestamp("crash-20260819T010203Z-six.dmp"),
        Some((day(2026, 8, 19), 3723))
    );
    assert_eq!(crash_timestamp("crash-20260819T010203Z-six.json"), None);
    assert_eq!(crash_timestamp("unrelated.txt"), None);
    assert_eq!(crash_timestamp("crash-notadate-x.dmp"), None);
    assert_eq!(first_field_of("a-b-c"), "a");
    assert_eq!(first_field_of("abc"), "abc");
    assert_eq!(strip_affixes("crash-x.dmp", "crash-", ".dmp").as_deref(), Some("x"));
    assert_eq!(strip_affixes("crash.dmp", "crash-", ".dmp"), None);
}

#[test]
fn removes_expired_and_excess_crash_reports() {
    let names = [
        "crash-20260801T000000Z-old.dmp",
        "crash-20260814T000000Z-one.dmp",
        "crash-20260815T000000Z-two.dmp",
        "crash-20260816T000000Z-three.dmp",
        "crash-20260817T000000Z-four.dmp",
        "crash-20260818T000000Z-five.dmp",
        "crash-20260819T000000Z-six.dmp",
    ];
    let moments: Vec<(i32, u32)> = names
        .iter()
        .map(|name| crash_timestamp(name).expect("crash name"))
        .collect();
    let oldest_retained = oldest_retained_day(day(2026, 8, 19), 14);
    let remove = crash_reports_to_remove(&moments, oldest_retained);
    assert_eq!(remove, vec![true, true, false, false, false, false, false]);
}

#[test]
fn removes_only_yukin_logs_older_than_retention_window() {
    let oldest_retained = oldest_retained_day(day(2026, 8, 19), 14);
    assert_eq!(oldest_retained, day(2026, 8, 6));
    assert!(log_expired("yukin.2026-08-05.log", oldest_retained));
    assert!(!log_expired("yukin.2026-08-06.log", oldest_retained));
    assert!(!log_expired("yukin.2026-08-19.log", oldest_retained));
    assert!(!log_expired("other.2026-01-01.log", oldest_retained));
    assert!(!log_expired("yukin.invalid.log", oldest_retained));
    assert_eq!(log_date("yukin.2026-08-06.log"), Some(oldest_retained));
}

#[test]
fn written_crash_reports_are_recognized_by_the_cleanup() {
    let (dump, metadata) = crash_report_names("20260819T010203Z", "0190-abcd");
    assert_eq!(dump, "crash-20260819T010203Z-0190-abcd.dmp");
    assert_eq!(metadata, "crash-20260819T010203Z-0190-abcd.json");
    assert_eq!(crash_timestamp(&dump), Some((day(2026, 8, 19), 3723)));
    assert_eq!(crash_timestamp(&metadata), None);
    assert_eq!(crash_metadata_name(&dump), Some(metadata));
    assert_eq!(crash_metadata_name("unrelated.txt"), None);
}
