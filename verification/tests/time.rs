use chrono::NaiveDateTime;
use fingertip::aggregator::tally_hours;
use fingertip::clock::{
    date_range_ms, hour_bucket, next_run_time, parse_date_range_ms, parse_date_range_ms_48h,
    format_time_range_label, local_day_range, parse_epoch_day, time_range_label, tz_day_range_ms,
    tz_today_range_ms, utc_date_range_ms, utc_date_range_ms_48h, DateRangeError,
};

fn run_after(now: &str) -> String {
    let now = NaiveDateTime::parse_from_str(now, "%Y-%m-%d %H:%M:%S").unwrap();
    let next = next_run_time(now.and_utc().timestamp_millis());
    chrono::DateTime::from_timestamp_millis(next).unwrap().naive_utc().to_string()
}

#[test]
fn next_run_is_next_005_when_past_midnight() {
    assert_eq!(run_after("2026-07-16 23:00:00"), "2026-07-17 00:05:00");
}

#[test]
fn next_run_is_today_005_when_before_midnight_run() {
    assert_eq!(run_after("2026-07-16 00:00:00"), "2026-07-16 00:05:00");
}

#[test]
fn next_run_skips_to_tomorrow_when_after_run() {
    assert_eq!(run_after("2026-07-16 00:06:00"), "2026-07-17 00:05:00");
}

#[test]
fn next_run_at_exactly_005_is_tomorrow() {
    assert_eq!(run_after("2026-07-16 00:05:00"), "2026-07-17 00:05:00");
}

#[test]
fn next_run_before_the_epoch_is_still_ahead() {
    assert_eq!(run_after("1969-12-31 23:59:00"), "1970-01-01 00:05:00");
}

#[test]
fn date_range_ms_valid_for_today() {
    let today = chrono::Utc::now().format("%Y-%m-%d").to_string();
    let (s, e) = date_range_ms(&today).unwrap();
    assert!(s < e, "start < end");
    assert_eq!(e - s, 86_400_000, "一天 = 86,400,000 ms");
}

#[test]
fn date_range_ms_rejects_malformed_dates() {
    assert_eq!(date_range_ms("not-a-date"), Err(DateRangeError::Parse));
    assert_eq!(date_range_ms("2025-02-30"), Err(DateRangeError::Parse));
}

#[test]
fn list_by_date_window_is_the_utc_day() {
    // 2025-07-25 00:00:00 UTC = 1753401600000 ms
    assert_eq!(parse_date_range_ms("2025-07-25"), (1_753_401_600_000, 1_753_488_000_000));
    assert_eq!(parse_epoch_day("1970-01-01"), Some(0));
}

#[test]
fn list_by_date_48h_window_starts_the_day_before() {
    assert_eq!(parse_date_range_ms_48h("2025-07-25"), (1_753_315_200_000, 1_753_488_000_000));
}

#[test]
fn utc_date_ranges_refuse_unparsable_text() {
    assert_eq!(utc_date_range_ms("2025/07/25"), None);
    assert_eq!(utc_date_range_ms_48h(""), None);
    assert_eq!(utc_date_range_ms("2025-07-25"), Some((1_753_401_600_000, 1_753_488_000_000)));
}

#[test]
fn tz_day_range_follows_the_offset() {
    // 2025-07-25 02:00 UTC is 10:00 in UTC+8: that day's local midnight is 2025-07-24 16:00 UTC.
    let now = 1_753_401_600_000 + 2 * 3_600_000;
    let (s, e) = tz_day_range_ms(now, 480);
    assert_eq!(s, 1_753_401_600_000 - 8 * 3_600_000);
    assert_eq!(e - s, 86_400_000);
    let (s0, _) = tz_day_range_ms(now, 0);
    assert_eq!(s0, 1_753_401_600_000);
}

#[test]
fn get_today_hourly_groups_events_into_hour_buckets() {
    let today_str = chrono::Local::now().date_naive().format("%Y-%m-%d").to_string();
    let (today_start, _) = date_range_ms(&today_str).unwrap();
    let stamps = [
        today_start + 9 * 3_600_000,
        today_start + 14 * 3_600_000,
        today_start + 14 * 3_600_000 + 30 * 60 * 1000,
    ];
    let hourly = tally_hours(today_start, &stamps);
    assert_eq!(hourly.len(), 24);
    assert_eq!(hourly[9], 1, "9:00 事件计入 hour 9");
    assert_eq!(hourly[14], 2, "14:00 + 14:30 都计入 hour 14");
    let total_active = hourly.iter().filter(|&&x| x > 0).count();
    assert_eq!(total_active, 2, "活跃小时数 = 2（不是 7.8h）");
}

#[test]
fn hour_bucket_truncates_then_wraps() {
    let start = 1_753_401_600_000;
    assert_eq!(hour_bucket(start, start), 0);
    assert_eq!(hour_bucket(start, start + 23 * 3_600_000), 23);
    assert_eq!(hour_bucket(start, start + 25 * 3_600_000), 1);
    assert_eq!(hour_bucket(start, start - 1), 0);
    assert_eq!(hour_bucket(start, start - 3_600_001), 23);
}

#[test]
fn tally_hours_adds_up_to_the_window_count() {
    let start = 1_753_401_600_000i64;
    let stamps = [start, start + 1, start + 3_600_000, start + 23 * 3_600_000 + 1, start + 30 * 3_600_000];
    let hourly = tally_hours(start, &stamps);
    assert_eq!(hourly.iter().sum::<i64>(), 5);
    assert_eq!(hourly[0], 2);
    assert_eq!(hourly[1], 1);
    assert_eq!(hourly[6], 1);
    assert_eq!(hourly[23], 1);
}

#[test]
fn time_range_label_pads_hours_and_minutes() {
    assert_eq!(time_range_label(Some((9, 5)), Some((15, 0))), "09:05–15:00");
    assert_eq!(time_range_label(Some((23, 59)), Some((0, 0))), "23:59–00:00");
    assert_eq!(time_range_label(None, Some((15, 0))), "");
    assert_eq!(time_range_label(Some((9, 5)), None), "");
    let label = format_time_range_label(1_753_401_600_000, 1_753_401_600_000 + 3_600_000);
    assert_eq!(label.chars().count(), 11);
    assert_eq!(label.chars().nth(2), Some(':'));
    assert_eq!(label.chars().nth(5), Some('–'));
}

#[test]
fn today_range_covers_now_for_a_sane_clock() {
    let (start, end) = tz_today_range_ms(480).expect("system clock after 1970");
    assert_eq!(end - start, 86_400_000);
    let now = chrono::Utc::now().timestamp_millis();
    assert!(start <= now + 1000 && now < end + 1000);
}

#[test]
fn local_day_range_reports_each_failed_step() {
    let d: i32 = 739_000;
    assert_eq!(local_day_range(d, Some(10), Some(20)), Ok((10, 20)));
    assert_eq!(local_day_range(d, None, Some(20)), Err(DateRangeError::InvalidLocalDateTime));
    assert_eq!(local_day_range(d, Some(10), None), Err(DateRangeError::InvalidLocalDateTime));
    let last: i32 = 95_026_236 + 719_163;
    assert_eq!(local_day_range(last, Some(10), Some(20)), Err(DateRangeError::InvalidDate));
}
