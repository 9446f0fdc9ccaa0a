use bsc_sniper::calendar::{days_to_ymd, utc_timestamp};

fn text(v: Vec<char>) -> String {
    v.into_iter().collect()
}

#[test]
fn epoch_day_is_new_year_1970() {
    assert_eq!(days_to_ymd(0), (1970, 1, 1));
}

#[test]
fn end_of_january_and_february() {
    assert_eq!(days_to_ymd(30), (1970, 1, 31));
    assert_eq!(days_to_ymd(31), (1970, 2, 1));
    assert_eq!(days_to_ymd(58), (1970, 2, 28));
    assert_eq!(days_to_ymd(59), (1970, 3, 1));
}

#[test]
fn leap_days() {
    assert_eq!(days_to_ymd(11016), (2000, 2, 29));
    assert_eq!(days_to_ymd(11017), (2000, 3, 1));
    // 1972 is a leap year, 2100 is not.
    assert_eq!(days_to_ymd(789), (1972, 2, 29));
    assert_eq!(days_to_ymd(47540), (2100, 2, 28));
    assert_eq!(days_to_ymd(47541), (2100, 3, 1));
}

#[test]
fn recent_dates() {
    assert_eq!(days_to_ymd(19723), (2024, 1, 1));
    assert_eq!(days_to_ymd(19965), (2024, 8, 30));
    assert_eq!(days_to_ymd(10956), (1999, 12, 31));
}

#[test]
fn largest_day_count() {
    assert_eq!(days_to_ymd(u32::MAX), (11761191, 1, 20));
}

#[test]
fn consecutive_days_follow_each_other() {
    let mut prev = days_to_ymd(0);
    for d in 1..3000u32 {
        let cur = days_to_ymd(d);
        let next_in_month = (prev.0, prev.1, prev.2 + 1);
        let next_month = (prev.0, prev.1 + 1, 1);
        let next_year = (prev.0 + 1, 1, 1);
        assert!(cur == next_in_month || cur == next_month || cur == next_year, "day {}", d);
        prev = cur;
    }
}

#[test]
fn timestamp_at_epoch() {
    assert_eq!(text(utc_timestamp(0, 0)), "1970-01-01T00:00:00.000000000Z");
}

#[test]
fn timestamp_with_time_of_day() {
    assert_eq!(text(utc_timestamp(1725029869, 123)), "2024-08-30T14:57:49.000000123Z");
    assert_eq!(text(utc_timestamp(86399, 999_999_999)), "1970-01-01T23:59:59.999999999Z");
}

#[test]
fn timestamp_day_count_wraps_at_u32() {
    let secs = (u64::from(u32::MAX) + 1 + 5) * 86400 + 3661;
    assert_eq!(text(utc_timestamp(secs, 7)), "1970-01-06T01:01:01.000000007Z");
}

#[test]
fn timestamp_year_wider_than_four_digits() {
    let secs = u64::from(u32::MAX) * 86400;
    assert_eq!(text(utc_timestamp(secs, 0)), "11761191-01-20T00:00:00.000000000Z");
}
