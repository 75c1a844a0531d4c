use gba_core::logs::{build_log_path, days_to_date, format_utc_timestamp, log_cutoff, log_path_at, should_remove_log};

#[test]
fn test_should_format_utc_timestamp_at_epoch() {
    let result = format_utc_timestamp(0);
    assert_eq!(result, "19700101_000000");
}

#[test]
fn test_should_format_utc_timestamp_known_date() {
    // 2026-02-03 14:30:12 UTC = 1770129012 seconds since epoch
    let result = format_utc_timestamp(1_770_129_012);
    assert_eq!(result, "20260203_143012");
}

#[test]
fn test_should_build_log_path_with_slug() {
    let path = build_log_path("/tmp/test-repo", "0002-log-to-file");

    assert!(path.starts_with("/tmp/test-repo/.gba/logs/0002-log-to-file/"));
    assert!(path.ends_with(".log"));

    let filename = path.rsplit('/').next().unwrap().trim_end_matches(".log").to_owned();
    assert_eq!(filename.len(), 15);
    assert_eq!(&filename[8..9], "_");
}

#[test]
fn test_should_convert_days_to_known_dates() {
    assert_eq!(days_to_date(0), (1970, 1, 1));
    assert_eq!(days_to_date(10957), (2000, 1, 1));
    assert_eq!(days_to_date(19782), (2024, 2, 29));
}

#[test]
fn days_to_date_edges() {
    assert_eq!(days_to_date(59), (1970, 3, 1));
    assert_eq!(days_to_date(11016), (2000, 2, 29));
    assert_eq!(days_to_date(2932896), (9999, 12, 31));
    assert_eq!(days_to_date(2932897), (10000, 1, 1));
}

#[test]
fn timestamp_pads_and_widens() {
    assert_eq!(format_utc_timestamp(86399), "19700101_235959");
    assert_eq!(format_utc_timestamp(253_402_300_800), "100000101_000000");
}

#[test]
fn log_path_at_fixed_time() {
    assert_eq!(log_path_at("/r", "s", 0), "/r/.gba/logs/s/19700101_000000.log");
}

#[test]
fn log_retention() {
    assert_eq!(log_cutoff(1_000_000), 1_000_000 - 3 * 86400);
    assert_eq!(log_cutoff(10), 0);
    assert!(should_remove_log("a.log", 5, 10));
    assert!(!should_remove_log("a.log", 10, 10));
    assert!(!should_remove_log("a.txt", 5, 10));
    assert!(!should_remove_log("log", 5, 10));
    assert!(!should_remove_log(".log", 5, 10));
    assert!(should_remove_log("x.log", 5, 10));
}
