//! Instants in UTC, as seconds and nanoseconds since the Unix epoch, and the
//! calendar facts that `chrono` derives from them.
use vstd::prelude::*;

use chrono::Datelike;

verus! {

/// The earliest second that `chrono` represents in UTC: -262143-01-01
/// 00:00:00, the first second of its earliest date. The second before it
/// (-262144-12-31 23:59:59) is refused by `DateTime::from_timestamp`.
pub const MIN_UTC_SECONDS: i64 = -8_334_601_228_800;

/// The latest second that `chrono` represents in UTC (31 December of year
/// 262142, 23:59:59).
pub const MAX_UTC_SECONDS: i64 = 8_210_266_876_799;

pub const NANOS_PER_SECOND: u32 = 1_000_000_000;

/// An instant in UTC: whole seconds since the Unix epoch and the nanoseconds
/// past that second.
#[derive(Debug, Clone, Copy, PartialEq, Eq, Structural)]
pub struct UtcTimestamp {
    seconds: i64,
    nanos: u32,
}

/// Whether `seconds` and `nanos` describe an instant that `chrono` represents.
pub open spec fn instant_in_range(seconds: int, nanos: int) -> bool {
    MIN_UTC_SECONDS <= seconds <= MAX_UTC_SECONDS && 0 <= nanos < NANOS_PER_SECOND
}

impl UtcTimestamp {
    #[verifier::type_invariant]
    closed spec fn in_range(self) -> bool {
        instant_in_range(self.seconds as int, self.nanos as int)
    }

    pub closed spec fn seconds_spec(self) -> i64 {
        self.seconds
    }

    pub closed spec fn nanos_spec(self) -> u32 {
        self.nanos
    }

    /// The instant `seconds` seconds and `nanos` nanoseconds after the epoch,
    /// when `chrono` represents it.
    pub fn new(seconds: i64, nanos: u32) -> (r: Option<Self>)
        ensures
            r is Some <==> instant_in_range(seconds as int, nanos as int),
            r matches Some(t) ==> t.seconds_spec() == seconds && t.nanos_spec() == nanos,
    {
        if MIN_UTC_SECONDS <= seconds && seconds <= MAX_UTC_SECONDS && nanos < NANOS_PER_SECOND {
            Some(UtcTimestamp { seconds, nanos })
        } else {
            None
        }
    }

    pub fn seconds(&self) -> (s: i64)
        ensures
            s == self.seconds_spec(),
            MIN_UTC_SECONDS <= s <= MAX_UTC_SECONDS,
    {
        proof {
            use_type_invariant(self);
        }
        self.seconds
    }

    pub fn nanos(&self) -> (n: u32)
        ensures
            n == self.nanos_spec(),
            n < NANOS_PER_SECOND,
    {
        proof {
            use_type_invariant(self);
        }
        self.nanos
    }

    /// The instant `seconds` seconds later (earlier when negative), when
    /// `chrono` represents it.
    pub fn plus_seconds(&self, seconds: i64) -> (r: Option<Self>)
        ensures
            r is Some <==> instant_in_range(self.seconds_spec() + seconds, self.nanos_spec() as int),
            r matches Some(t) ==> t.seconds_spec() == self.seconds_spec() + seconds
                && t.nanos_spec() == self.nanos_spec(),
    {
        let base = self.seconds();
        let nanos = self.nanos();
        if seconds > 0 && base > MAX_UTC_SECONDS - seconds {
            return None;
        }
        if seconds < 0 && base < MIN_UTC_SECONDS - seconds {
            return None;
        }
        UtcTimestamp::new(base + seconds, nanos)
    }
}

/// The nanoseconds from `earlier` to `later` (negative when `later` comes first).
pub open spec fn nanos_between(earlier: UtcTimestamp, later: UtcTimestamp) -> int {
    (later.seconds_spec() - earlier.seconds_spec()) * NANOS_PER_SECOND + (later.nanos_spec()
        - earlier.nanos_spec())
}

/// The whole seconds from `earlier` to `later`, rounded toward zero (what
/// `TimeDelta::num_seconds` gives for `later.signed_duration_since(earlier)`).
pub open spec fn whole_seconds_between(earlier: UtcTimestamp, later: UtcTimestamp) -> int {
    let d = nanos_between(earlier, later);
    if d >= 0 {
        d / NANOS_PER_SECOND as int
    } else {
        -((-d) / NANOS_PER_SECOND as int)
    }
}

/// The whole seconds from `earlier` to `later`, rounded toward zero.
pub fn seconds_between(earlier: &UtcTimestamp, later: &UtcTimestamp) -> (s: i64)
    ensures
        s == whole_seconds_between(*earlier, *later),
{
    let a = earlier.seconds() as i128;
    let b = later.seconds() as i128;
    let na = earlier.nanos() as i128;
    let nb = later.nanos() as i128;
    let d: i128 = (b - a) * 1_000_000_000i128 + (nb - na);
    let r: i128 = if d >= 0 {
        d / 1_000_000_000i128
    } else {
        0 - ((0 - d) / 1_000_000_000i128)
    };
    assert(-20_000_000_000_000 <= r <= 20_000_000_000_000) by (nonlinear_arith)
        requires
            -17_000_000_000_000 <= b - a <= 17_000_000_000_000,
            -1_000_000_000 < nb - na < 1_000_000_000,
            d == (b - a) * 1_000_000_000 + (nb - na),
            r == (if d >= 0 {
                d / 1_000_000_000
            } else {
                -((-d) / 1_000_000_000)
            }),
    ;
    r as i64
}

/// The calendar year (proleptic Gregorian, astronomical numbering) of the UTC
/// instant `seconds` after the epoch, as `chrono` computes it.
pub uninterp spec fn utc_year(seconds: int) -> int;

/// The text that `chrono` renders for the UTC instant `seconds` after the
/// epoch with a `strftime`-style pattern.
pub uninterp spec fn utc_format(seconds: int, pattern: Seq<char>) -> Seq<char>;

/// `chrono`: `DateTime::<Utc>::from_timestamp(seconds, 0)` and `Datelike::year`.
/// Claims only that the year is the one `chrono` gives for that instant; the
/// instant is in chrono's range by `requires`, so `from_timestamp` is `Some`.
#[verifier::external_body]
fn calendar_year(seconds: i64) -> (y: i32)
    requires
        MIN_UTC_SECONDS <= seconds <= MAX_UTC_SECONDS,
    ensures
        y as int == utc_year(seconds as int),
{
    chrono::DateTime::from_timestamp(seconds, 0).unwrap().year()
}

/// `chrono`: `DateTime::<Utc>::from_timestamp(seconds, 0)`, then `format`
/// with `pattern` and `to_string`. Claims only that the text is the one
/// `chrono` renders for that instant and pattern. `to_string` panics on a
/// pattern that chrono cannot render, so `requires` admits only the three
/// patterns the library uses, all made of valid specifiers.
#[verifier::external_body]
fn format_utc(seconds: i64, pattern: &str) -> (s: String)
    requires
        MIN_UTC_SECONDS <= seconds <= MAX_UTC_SECONDS,
        pattern@ == "%b %d"@ || pattern@ == "%b %d, %Y"@ || pattern@ == "%Y-%m-%d"@,
    ensures
        s@ == utc_format(seconds as int, pattern@),
{
    chrono::DateTime::from_timestamp(seconds, 0).unwrap().format(pattern).to_string()
}

/// The calendar year of an instant.
pub fn year_of(t: &UtcTimestamp) -> (y: i32)
    ensures
        y as int == utc_year(t.seconds_spec() as int),
{
    calendar_year(t.seconds())
}

/// `"%b %d"`: abbreviated month name and zero-padded day.
pub fn format_month_day(t: &UtcTimestamp) -> (s: String)
    ensures
        s@ == utc_format(t.seconds_spec() as int, "%b %d"@),
{
    format_utc(t.seconds(), "%b %d")
}

/// `"%b %d, %Y"`: abbreviated month name, zero-padded day and year.
pub fn format_month_day_year(t: &UtcTimestamp) -> (s: String)
    ensures
        s@ == utc_format(t.seconds_spec() as int, "%b %d, %Y"@),
{
    format_utc(t.seconds(), "%b %d, %Y")
}


/// `"%Y-%m-%d"`: the date of an instant, in UTC, as a form shows it.
pub fn format_date(t: &UtcTimestamp) -> (s: String)
    ensures
        s@ == utc_format(t.seconds_spec() as int, "%Y-%m-%d"@),
{
    format_utc(t.seconds(), "%Y-%m-%d")
}

/// `chrono::DateTime::parse_from_rfc3339`: the UTC instant that an RFC 3339
/// text names, as whole seconds since the epoch and the nanoseconds past
/// them (a leap second has a billion or more), if the text names one.
pub uninterp spec fn rfc3339_instant(text: Seq<char>) -> Option<(i64, u32)>;

/// Calls `chrono::DateTime::parse_from_rfc3339` and keeps the instant's
/// `timestamp` and `timestamp_subsec_nanos`. Claims only that the result is
/// `rfc3339_instant` of the text: the same text always names the same
/// instant, or none.
#[verifier::external_body]
fn parse_rfc3339(text: &str) -> (r: Option<(i64, u32)>)
    ensures
        r == rfc3339_instant(text@),
{
    match chrono::DateTime::parse_from_rfc3339(text) {
        Ok(dt) => Some((dt.timestamp(), dt.timestamp_subsec_nanos())),
        Err(_) => None,
    }
}

/// The nanoseconds kept of a parsed instant: a leap second (a billion
/// nanoseconds or more) counts as the last nanosecond of its second.
pub open spec fn kept_nanos(nanos: u32) -> int {
    if nanos < NANOS_PER_SECOND {
        nanos as int
    } else {
        NANOS_PER_SECOND - 1
    }
}

/// The instant an RFC 3339 text names: none when the text names none, or
/// names one outside the range of `UtcTimestamp`.
pub closed spec fn rfc3339_timestamp(text: Seq<char>) -> Option<UtcTimestamp> {
    match rfc3339_instant(text) {
        Some(p) => if instant_in_range(p.0 as int, kept_nanos(p.1)) {
            Some(UtcTimestamp { seconds: p.0, nanos: kept_nanos(p.1) as u32 })
        } else {
            None
        },
        None => None,
    }
}

/// What `rfc3339_timestamp` gives: the seconds that chrono parses and the
/// nanoseconds kept of them, when they lie in range.
pub proof fn lemma_rfc3339_timestamp(text: Seq<char>)
    ensures
        match rfc3339_instant(text) {
            Some(p) => {
                &&& rfc3339_timestamp(text) is Some <==> instant_in_range(
                    p.0 as int,
                    kept_nanos(p.1),
                )
                &&& rfc3339_timestamp(text) matches Some(t) ==> t.seconds_spec() == p.0
                    && t.nanos_spec() == kept_nanos(p.1)
            },
            None => rfc3339_timestamp(text) is None,
        },
{
}

/// The instant an RFC 3339 text names, with a leap second counted as the
/// last nanosecond of its second.
pub fn instant_from_rfc3339(text: &str) -> (r: Option<UtcTimestamp>)
    ensures
        r == rfc3339_timestamp(text@),
{
    match parse_rfc3339(text) {
        Some((seconds, nanos)) => {
            let n = if nanos < NANOS_PER_SECOND {
                nanos
            } else {
                NANOS_PER_SECOND - 1
            };
            UtcTimestamp::new(seconds, n)
        },
        None => None,
    }
}
} // verus!
