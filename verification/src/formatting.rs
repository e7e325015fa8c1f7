//! Display formatting of page counts and of relative times.
use vstd::prelude::*;

use crate::text::{decimal, int_decimal, owned, push_i64, u64_to_string};
use crate::time::{
    UtcTimestamp, format_month_day, format_month_day_year, instant_from_rfc3339, rfc3339_timestamp,
    seconds_between, utc_format, utc_year,
    whole_seconds_between, year_of,
};

verus! {

/// Em dash, the placeholder shown when a value is absent.
pub const EM_DASH: &'static str = "\u{2014}";

/// "1 page" for one page, "N pages" otherwise.
pub open spec fn pages_text(pages: int) -> Seq<char> {
    if pages == 1 {
        "1 page"@
    } else {
        int_decimal(pages) + " pages"@
    }
}

/// Format a page count for display.
pub fn format_pages(pages: i32) -> (s: String)
    ensures
        s@ == pages_text(pages as int),
{
    if pages == 1 {
        owned("1 page")
    } else {
        let mut s = String::new();
        push_i64(&mut s, pages as i64);
        s.append(" pages");
        s
    }
}

/// A rating given in half stars, as shown: "4/5" for whole stars, "3.5/5"
/// for a half star (the text that a star rating of `half_stars / 2` displays).
pub open spec fn rating_text_spec(half_stars: nat) -> Seq<char> {
    if half_stars % 2 == 0 {
        decimal(half_stars / 2) + "/5"@
    } else {
        decimal(half_stars / 2) + ".5/5"@
    }
}

/// Format a star rating, given in half stars, for display.
pub fn rating_text(half_stars: u8) -> (s: String)
    ensures
        s@ == rating_text_spec(half_stars as nat),
{
    let mut s = u64_to_string((half_stars / 2) as u64);
    if half_stars % 2 == 0 {
        s.append("/5");
    } else {
        s.append(".5/5");
    }
    s
}

/// The relative description of `elapsed` whole seconds, when it is less than
/// 30 days: "Just now" under a minute (and for the future), then minutes,
/// hours, "Yesterday", days and weeks. `None` from 30 days on.
pub open spec fn relative_label_spec(elapsed: int) -> Option<Seq<char>> {
    if elapsed < 60 {
        Some("Just now"@)
    } else if elapsed / 60 < 60 {
        Some(decimal((elapsed / 60) as nat) + "m ago"@)
    } else if elapsed / 3600 < 24 {
        Some(decimal((elapsed / 3600) as nat) + "h ago"@)
    } else if elapsed / 86400 == 1 {
        Some("Yesterday"@)
    } else if elapsed / 86400 < 7 {
        Some(decimal((elapsed / 86400) as nat) + "d ago"@)
    } else if elapsed / 86400 < 30 {
        Some(decimal((elapsed / 86400 / 7) as nat) + "w ago"@)
    } else {
        None
    }
}

/// The pattern of an absolute date: without the year when both instants fall
/// in the same year.
pub open spec fn absolute_pattern_spec(year: int, now_year: int) -> Seq<char> {
    if year == now_year {
        "%b %d"@
    } else {
        "%b %d, %Y"@
    }
}

/// What `format_relative_time` shows for `dt` seen at `now`.
pub open spec fn relative_time_spec(dt: UtcTimestamp, now: UtcTimestamp) -> Seq<char> {
    match relative_label_spec(whole_seconds_between(dt, now)) {
        Some(label) => label,
        None => utc_format(
            dt.seconds_spec() as int,
            absolute_pattern_spec(
                utc_year(dt.seconds_spec() as int),
                utc_year(now.seconds_spec() as int),
            ),
        ),
    }
}

fn count_with_suffix(n: i64, suffix: &str) -> (s: String)
    requires
        n >= 0,
    ensures
        s@ == decimal(n as nat) + suffix@,
{
    let mut s = u64_to_string(n as u64);
    s.append(suffix);
    s
}

/// The relative description of `elapsed` whole seconds, or `None` from 30
/// days on.
pub fn relative_label(elapsed: i64) -> (r: Option<String>)
    ensures
        opt_string_view(r) == relative_label_spec(elapsed as int),
{
    if elapsed < 60 {
        return Some(owned("Just now"));
    }
    let mins = elapsed / 60;
    if mins < 60 {
        return Some(count_with_suffix(mins, "m ago"));
    }
    let hours = elapsed / 3600;
    if hours < 24 {
        return Some(count_with_suffix(hours, "h ago"));
    }
    let days = elapsed / 86400;
    if days == 1 {
        return Some(owned("Yesterday"));
    }
    if days < 7 {
        return Some(count_with_suffix(days, "d ago"));
    }
    if days < 30 {
        return Some(count_with_suffix(days / 7, "w ago"));
    }
    None
}

/// The view of an optional string.
pub open spec fn opt_string_view(o: Option<String>) -> Option<Seq<char>> {
    match o {
        Some(s) => Some(s@),
        None => None,
    }
}

/// Whether an absolute date for an instant in `year`, seen in `now_year`,
/// leaves the year out.
pub fn omits_year(year: i32, now_year: i32) -> (b: bool)
    ensures
        b == (absolute_pattern_spec(year as int, now_year as int) == "%b %d"@),
{
    proof {
        reveal_strlit("%b %d");
        reveal_strlit("%b %d, %Y");
        assert("%b %d"@.len() == 5 && "%b %d, %Y"@.len() == 9);
    }
    year == now_year
}

/// Format a datetime as a human-readable relative time string.
///
/// Examples: "Just now", "5m ago", "3h ago", "Yesterday", "4d ago", "2w ago",
/// "Mar 15" (same year), "Mar 15, 2024" (different year).
pub fn format_relative_time(dt: UtcTimestamp, now: UtcTimestamp) -> (s: String)
    ensures
        s@ == relative_time_spec(dt, now),
{
    let elapsed = seconds_between(&dt, &now);
    match relative_label(elapsed) {
        Some(label) => label,
        None => {
            if omits_year(year_of(&dt), year_of(&now)) {
                format_month_day(&dt)
            } else {
                format_month_day_year(&dt)
            }
        },
    }
}


/// The age of a statistics snapshot computed at the RFC 3339 instant
/// `computed_at`, as seen at `now` (e.g. "Just now", "2m ago"); empty when
/// the text names no instant.
pub fn format_cache_age(computed_at: &str, now: UtcTimestamp) -> (s: String)
    ensures
        match rfc3339_timestamp(computed_at@) {
            Some(t) => s@ == relative_time_spec(t, now),
            None => s@ == Seq::<char>::empty(),
        },
{
    match instant_from_rfc3339(computed_at) {
        Some(t) => format_relative_time(t, now),
        None => String::new(),
    }
}

} // verus!
