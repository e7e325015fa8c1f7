use booklog::formatting::{format_pages, format_relative_time};
use booklog::time::UtcTimestamp;
use chrono::{TimeZone, Utc};

fn utc(y: i32, m: u32, d: u32, h: u32, min: u32, s: u32) -> UtcTimestamp {
    let dt = Utc.with_ymd_and_hms(y, m, d, h, min, s).unwrap();
    UtcTimestamp::new(dt.timestamp(), dt.timestamp_subsec_nanos()).unwrap()
}

#[test]
fn just_now_zero_seconds() {
    let now = utc(2025, 6, 1, 12, 0, 0);
    assert_eq!(format_relative_time(now, now), "Just now");
}

#[test]
fn just_now_59_seconds() {
    let dt = utc(2025, 6, 1, 12, 0, 0);
    let now = utc(2025, 6, 1, 12, 0, 59);
    assert_eq!(format_relative_time(dt, now), "Just now");
}

#[test]
fn minutes_boundary_60_seconds() {
    let dt = utc(2025, 6, 1, 12, 0, 0);
    let now = utc(2025, 6, 1, 12, 1, 0);
    assert_eq!(format_relative_time(dt, now), "1m ago");
}

#[test]
fn minutes_ago() {
    let dt = utc(2025, 6, 1, 12, 0, 0);
    let now = utc(2025, 6, 1, 12, 45, 0);
    assert_eq!(format_relative_time(dt, now), "45m ago");
}

#[test]
fn hours_boundary_60_minutes() {
    let dt = utc(2025, 6, 1, 12, 0, 0);
    let now = utc(2025, 6, 1, 13, 0, 0);
    assert_eq!(format_relative_time(dt, now), "1h ago");
}

#[test]
fn hours_ago() {
    let dt = utc(2025, 6, 1, 6, 0, 0);
    let now = utc(2025, 6, 1, 12, 0, 0);
    assert_eq!(format_relative_time(dt, now), "6h ago");
}

#[test]
fn yesterday_exactly_24h() {
    let dt = utc(2025, 6, 1, 12, 0, 0);
    let now = utc(2025, 6, 2, 12, 0, 0);
    assert_eq!(format_relative_time(dt, now), "Yesterday");
}

#[test]
fn yesterday_36h() {
    let dt = utc(2025, 6, 1, 0, 0, 0);
    let now = utc(2025, 6, 2, 12, 0, 0);
    assert_eq!(format_relative_time(dt, now), "Yesterday");
}

#[test]
fn days_ago_2() {
    let dt = utc(2025, 6, 1, 12, 0, 0);
    let now = utc(2025, 6, 3, 12, 0, 0);
    assert_eq!(format_relative_time(dt, now), "2d ago");
}

#[test]
fn days_ago_6() {
    let dt = utc(2025, 6, 1, 12, 0, 0);
    let now = utc(2025, 6, 7, 12, 0, 0);
    assert_eq!(format_relative_time(dt, now), "6d ago");
}

#[test]
fn weeks_ago_1() {
    let dt = utc(2025, 6, 1, 12, 0, 0);
    let now = utc(2025, 6, 8, 12, 0, 0);
    assert_eq!(format_relative_time(dt, now), "1w ago");
}

#[test]
fn weeks_ago_3() {
    let dt = utc(2025, 6, 1, 12, 0, 0);
    let now = utc(2025, 6, 22, 12, 0, 0);
    assert_eq!(format_relative_time(dt, now), "3w ago");
}

#[test]
fn same_year_absolute_date() {
    let dt = utc(2025, 3, 15, 10, 0, 0);
    let now = utc(2025, 6, 1, 12, 0, 0);
    assert_eq!(format_relative_time(dt, now), "Mar 15");
}

#[test]
fn different_year_absolute_date() {
    let dt = utc(2024, 3, 15, 10, 0, 0);
    let now = utc(2025, 6, 1, 12, 0, 0);
    assert_eq!(format_relative_time(dt, now), "Mar 15, 2024");
}

#[test]
fn boundary_at_30_days() {
    let dt = utc(2025, 5, 2, 12, 0, 0);
    let now = utc(2025, 6, 1, 12, 0, 0);
    assert_eq!(format_relative_time(dt, now), "May 02");
}

#[test]
fn future_timestamp_returns_just_now() {
    let dt = utc(2025, 6, 1, 13, 0, 0);
    let now = utc(2025, 6, 1, 12, 0, 0);
    assert_eq!(format_relative_time(dt, now), "Just now");
}

// --- format_pages tests ---

#[test]
fn pages_singular() {
    assert_eq!(format_pages(1), "1 page");
}

#[test]
fn pages_plural() {
    assert_eq!(format_pages(350), "350 pages");
}

// --- ratings, counted in half stars ---

#[test]
fn rating_display_whole() {
    assert_eq!(booklog::formatting::rating_text(8), "4/5");
}

#[test]
fn rating_display_half() {
    assert_eq!(booklog::formatting::rating_text(7), "3.5/5");
}

#[test]
fn rating_display_half_low() {
    assert_eq!(booklog::formatting::rating_text(1), "0.5/5");
}

#[test]
fn cache_age_reads_rfc3339_instants() {
    let now = utc(2025, 6, 1, 12, 0, 0);
    assert_eq!(booklog::formatting::format_cache_age("2025-06-01T11:58:00+00:00", now), "2m ago");
    assert_eq!(booklog::formatting::format_cache_age("2025-06-01T13:57:30+02:00", now), "2m ago");
    assert_eq!(booklog::formatting::format_cache_age("2025-06-01T11:59:59.5Z", now), "Just now");
    assert_eq!(booklog::formatting::format_cache_age("yesterday", now), "");
}

#[test]
fn form_dates_are_iso_dates() {
    assert_eq!(booklog::time::format_date(&utc(2025, 3, 9, 23, 59, 59)), "2025-03-09");
}
