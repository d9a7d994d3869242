//! Calendar and clock arithmetic over UTC milliseconds, with `chrono` behind
//! every reading of the clock, the calendar or the local time zone.

use vstd::prelude::*;
use chrono::Timelike;
use chrono::TimeZone;
use chrono::Datelike;
use vstd::string::StringExecFns;
use crate::text::{decimal, u64_to_decimal};

verus! {

/// Milliseconds in one day.
pub const MS_PER_DAY: i64 = 86_400_000;

/// Milliseconds in one hour.
pub const MS_PER_HOUR: i64 = 3_600_000;

/// First day (counted from 1970-01-01) that `chrono` represents: 1 Jan 262143 BCE.
pub const MIN_EPOCH_DAY: i64 = -96_465_293;

/// Last day (counted from 1970-01-01) that `chrono` represents: 31 Dec 262142.
pub const MAX_EPOCH_DAY: i64 = 95_026_236;

#[verifier::external_type_specification]
#[verifier::external_body]
pub struct ExSystemTime(std::time::SystemTime);

/// The system clock's reading (`SystemTime::now`). Nothing is claimed of it.
#[verifier::external_body]
fn system_time_now() -> std::time::SystemTime {
    std::time::SystemTime::now()
}

/// The time from the Unix epoch to `t` (`SystemTime::duration_since`
/// with `UNIX_EPOCH`); `None` when `t` lies before the epoch. Nothing is
/// claimed of the duration.
#[verifier::external_body]
fn since_unix_epoch(t: &std::time::SystemTime) -> Option<std::time::Duration> {
    match t.duration_since(std::time::UNIX_EPOCH) {
        Ok(d) => Some(d),
        Err(_) => None,
    }
}

/// The whole milliseconds of a duration (`Duration::as_millis`). Nothing
/// is claimed of the value.
#[verifier::external_body]
fn duration_whole_millis(d: &std::time::Duration) -> u128 {
    d.as_millis()
}

/// The current time in UTC milliseconds since the Unix epoch; `None` when
/// the system clock reads before the epoch or after the last day `chrono`
/// represents.
pub(crate) fn utc_now_millis() -> (ms: Option<i64>)
    ensures
        ms matches Some(v) ==> 0 <= v < (MAX_EPOCH_DAY + 1) * MS_PER_DAY,
{
    let t = system_time_now();
    match since_unix_epoch(&t) {
        Some(d) => {
            let m = duration_whole_millis(&d);
            let limit: i64 = (MAX_EPOCH_DAY + 1) * MS_PER_DAY;
            if m < limit as u128 {
                Some(m as i64)
            } else {
                None
            }
        },
        None => None,
    }
}

/// Day number (from 1970-01-01) of a UTC millisecond instant.
pub open spec fn epoch_day_of(ms: int) -> int {
    ms / (MS_PER_DAY as int)
}

/// Hour of the UTC day (0..24) of a millisecond instant.
pub open spec fn hour_of(ms: int) -> int {
    (ms % (MS_PER_DAY as int)) / (MS_PER_HOUR as int)
}

/// Whether `chrono` can represent the UTC instant `ms`.
pub open spec fn in_chrono_range(ms: int) -> bool {
    MIN_EPOCH_DAY <= epoch_day_of(ms) <= MAX_EPOCH_DAY
}

/// The UTC hour of a millisecond instant, as
/// `chrono::DateTime::from_timestamp_millis(ms).map(|dt| dt.hour())` gives
/// it: `None` outside `chrono`'s range, the hour of the day otherwise.
#[verifier::external_body]
pub(crate) fn utc_hour_of_millis(ms: i64) -> (h: Option<u32>)
    ensures
        h == (if in_chrono_range(ms as int) { Some(hour_of(ms as int) as u32) } else { None }),
{
    chrono::DateTime::from_timestamp_millis(ms).map(|dt| dt.hour())
}

/// Floor division by a positive divisor, written with non-negative operands.
proof fn lemma_floor_div(x: int, m: int)
    requires
        m > 0,
    ensures
        (if x >= 0 { x / m } else { -((-x + m - 1) / m) }) == x / m,
        (x / m) * m <= x < (x / m) * m + m,
{
    if x < 0 {
        let q = (-x + m - 1) / m;
        let r = (-x + m - 1) % m;
        assert(-x + m - 1 == q * m + r && 0 <= r < m) by (nonlinear_arith)
            requires m > 0, q == (-x + m - 1) / m, r == (-x + m - 1) % m;
        assert(-q * m <= x < -q * m + m) by (nonlinear_arith)
            requires -x + m - 1 == q * m + r, 0 <= r < m;
        assert(x / m == -q) by (nonlinear_arith)
            requires -q * m <= x < -q * m + m, m > 0;
    }
    assert((x / m) * m <= x < (x / m) * m + m) by (nonlinear_arith)
        requires m > 0;
}

/// `(k * m + c) % m == c` for `0 <= c < m`.
proof fn lemma_mod_offset(k: int, m: int, c: int)
    requires
        m > 0,
        0 <= c < m,
    ensures
        (k * m + c) % m == c,
{
    assert((k * m + c) % m == c) by (nonlinear_arith)
        requires m > 0, 0 <= c < m;
}

/// Euclidean remainder written with non-negative operands.
proof fn lemma_euclid_mod(q: int, m: int)
    requires
        m > 0,
    ensures
        (if q >= 0 { q % m } else { let r = (-q) % m; if r == 0 { 0 } else { m - r } }) == q % m,
{
    if q < 0 {
        let r = (-q) % m;
        let d = (-q) / m;
        assert(-q == d * m + r && 0 <= r < m) by (nonlinear_arith)
            requires m > 0, r == (-q) % m, d == (-q) / m;
        if r == 0 {
            assert(q == (-d) * m) by (nonlinear_arith)
                requires -q == d * m + r, r == 0;
            assert(q % m == 0) by (nonlinear_arith)
                requires q == (-d) * m, m > 0;
        } else {
            assert(q == (-d - 1) * m + (m - r)) by (nonlinear_arith)
                requires -q == d * m + r;
            assert(q % m == m - r) by (nonlinear_arith)
                requires q == (-d - 1) * m + (m - r), 0 < m - r < m;
        }
    }
}

/// Days from 0001-01-01 (day 1) to 1970-01-01 (day 719163), as `chrono`
/// counts days from the Common Era.
pub const CE_DAY_OF_EPOCH: i32 = 719_163;

/// The day of a `YYYY-MM-DD` text as `chrono` parses it with the format
/// `%Y-%m-%d`, counted from the Common Era (`NaiveDate::num_days_from_ce`),
/// or `None` when `chrono` rejects the text.
pub uninterp spec fn spec_parse_ymd(text: Seq<char>) -> Option<i32>;

/// `chrono::NaiveDate::parse_from_str(text, "%Y-%m-%d")`, reduced to the
/// day it names counted from the Common Era.  The result is that of the
/// named function of the text; a parsed date lies in `chrono`'s range.
#[verifier::external_body]
fn parse_ymd_days_from_ce(text: &str) -> (d: Option<i32>)
    ensures
        d == spec_parse_ymd(text@),
        d matches Some(v) ==> MIN_EPOCH_DAY + CE_DAY_OF_EPOCH <= v <= MAX_EPOCH_DAY + CE_DAY_OF_EPOCH,
{
    match chrono::NaiveDate::parse_from_str(text, "%Y-%m-%d") {
        Ok(d) => Some(d.num_days_from_ce()),
        Err(_) => None,
    }
}

/// The day (from 1970-01-01) named by a `YYYY-MM-DD` text, if `chrono` parses it.
pub open spec fn spec_epoch_day(text: Seq<char>) -> Option<int> {
    match spec_parse_ymd(text) {
        Some(d) => Some(d - CE_DAY_OF_EPOCH),
        None => None,
    }
}

/// The day (from 1970-01-01) named by a `YYYY-MM-DD` text.
pub fn parse_epoch_day(text: &str) -> (d: Option<i64>)
    ensures
        d matches Some(v) ==> spec_epoch_day(text@) == Some(v as int),
        d is None ==> spec_epoch_day(text@) is None,
        d matches Some(v) ==> MIN_EPOCH_DAY <= v <= MAX_EPOCH_DAY,
{
    match parse_ymd_days_from_ce(text) {
        Some(ce) => Some(ce as i64 - CE_DAY_OF_EPOCH as i64),
        None => None,
    }
}

/// UTC millisecond range `[start, end)` from the start of the day
/// `days_before` days before `day` to the end of `day`.
pub open spec fn spec_day_range(day: int, days_before: int) -> (int, int) {
    ((day - days_before) * MS_PER_DAY, (day + 1) * MS_PER_DAY)
}

/// Whether the UTC window of `days_before + 1` days ending with the day
/// named by `text` exists in `chrono`'s calendar.
pub open spec fn valid_day_window(text: Seq<char>, days_before: int) -> bool {
    match spec_epoch_day(text) {
        Some(d) => MIN_EPOCH_DAY <= d - days_before && d + 1 <= MAX_EPOCH_DAY,
        None => false,
    }
}

fn day_range_ms(day: i64, days_before: i64) -> (r: (i64, i64))
    requires
        MIN_EPOCH_DAY <= day - days_before,
        day + 1 <= MAX_EPOCH_DAY,
        0 <= days_before <= 1,
    ensures
        r.0 == spec_day_range(day as int, days_before as int).0,
        r.1 == spec_day_range(day as int, days_before as int).1,
{
    ((day - days_before) * MS_PER_DAY, (day + 1) * MS_PER_DAY)
}

/// UTC millisecond range `[start, end)` of the day named by a `YYYY-MM-DD`
/// text: from its 00:00 UTC to the next day's 00:00 UTC.
pub fn parse_date_range_ms(date: &str) -> (r: (i64, i64))
    requires
        valid_day_window(date@, 0),
    ensures
        r.0 == spec_day_range(spec_epoch_day(date@)->0, 0).0,
        r.1 == spec_day_range(spec_epoch_day(date@)->0, 0).1,
{
    let day = match parse_epoch_day(date) {
        Some(d) => d,
        None => 0,
    };
    day_range_ms(day, 0)
}

/// UTC millisecond range `[start, end)` of the 48 hours from the previous
/// day's 00:00 UTC to the end of the day named by a `YYYY-MM-DD` text, so
/// that a session across midnight is kept whole.
pub fn parse_date_range_ms_48h(date: &str) -> (r: (i64, i64))
    requires
        valid_day_window(date@, 1),
    ensures
        r.0 == spec_day_range(spec_epoch_day(date@)->0, 1).0,
        r.1 == spec_day_range(spec_epoch_day(date@)->0, 1).1,
{
    let day = match parse_epoch_day(date) {
        Some(d) => d,
        None => 0,
    };
    day_range_ms(day, 1)
}

/// [`parse_date_range_ms`] for any text: `None` when the text names no day
/// whose window `chrono` can represent.
pub fn utc_date_range_ms(date: &str) -> (r: Option<(i64, i64)>)
    ensures
        r is Some <==> valid_day_window(date@, 0),
        r matches Some(p) ==> p.0 == spec_day_range(spec_epoch_day(date@)->0, 0).0
            && p.1 == spec_day_range(spec_epoch_day(date@)->0, 0).1,
{
    match parse_epoch_day(date) {
        Some(d) => {
            if d + 1 <= MAX_EPOCH_DAY {
                Some(parse_date_range_ms(date))
            } else {
                None
            }
        },
        None => None,
    }
}

/// [`parse_date_range_ms_48h`] for any text: `None` when the text names no
/// day whose window `chrono` can represent.
pub fn utc_date_range_ms_48h(date: &str) -> (r: Option<(i64, i64)>)
    ensures
        r is Some <==> valid_day_window(date@, 1),
        r matches Some(p) ==> p.0 == spec_day_range(spec_epoch_day(date@)->0, 1).0
            && p.1 == spec_day_range(spec_epoch_day(date@)->0, 1).1,
{
    match parse_epoch_day(date) {
        Some(d) => {
            if d + 1 <= MAX_EPOCH_DAY && MIN_EPOCH_DAY <= d - 1 {
                Some(parse_date_range_ms_48h(date))
            } else {
                None
            }
        },
        None => None,
    }
}

/// Whether `t` lies less than one day from the UTC midnight that starts
/// the day `days_from_ce` (counted from the Common Era), as the UTC time of
/// that day's local midnight does under any UTC offset that `chrono`
/// allows.
pub open spec fn near_utc_midnight(days_from_ce: int, t: int) -> bool {
    let m = (days_from_ce - CE_DAY_OF_EPOCH) * MS_PER_DAY;
    m - MS_PER_DAY < t < m + MS_PER_DAY
}

/// The UTC milliseconds of 00:00 local time on the day `days_from_ce`
/// (counted from the Common Era), as `chrono::Local` resolves it (earliest
/// of an ambiguous time), or `None` when that local time does not exist or
/// is out of range.  The value depends on the machine's time zone; what is
/// claimed is what `TimeZone::from_local_datetime` gives for every zone:
/// the local midnight minus a `FixedOffset`, which `FixedOffset::east_opt`
/// keeps strictly within one day, so the value lies less than a day from
/// the day's UTC midnight.
#[verifier::external_body]
fn local_midnight_ms(days_from_ce: i32) -> (ms: Option<i64>)
    ensures
        ms matches Some(t) ==> near_utc_midnight(days_from_ce as int, t as int),
{
    let date = chrono::NaiveDate::from_num_days_from_ce_opt(days_from_ce)?;
    let midnight = date.and_hms_opt(0, 0, 0)?;
    match chrono::Local.from_local_datetime(&midnight).earliest() {
        Some(t) => Some(t.timestamp_millis()),
        None => None,
    }
}

/// Why a local day range could not be formed.
#[derive(Debug, Clone, Copy, PartialEq, Eq, Structural)]
pub enum DateRangeError {
    /// The text is not a `%Y-%m-%d` date.
    Parse,
    /// The day is the last one `chrono` represents.
    InvalidDate,
    /// 00:00 local time does not exist on the day or the next.
    InvalidLocalDateTime,
}

/// A local day's range from its day number (counted from the Common Era)
/// and the two local-midnight lookups, the day's and the next day's: a
/// failed lookup is [`DateRangeError::InvalidLocalDateTime`], the last day
/// `chrono` represents (which has no next day) is
/// [`DateRangeError::InvalidDate`].
pub open spec fn spec_local_day_range(days_from_ce: int, start: Option<i64>, next: Option<i64>) -> Result<(i64, i64), DateRangeError> {
    match start {
        None => Err(DateRangeError::InvalidLocalDateTime),
        Some(s) => if days_from_ce >= MAX_EPOCH_DAY + CE_DAY_OF_EPOCH {
            Err(DateRangeError::InvalidDate)
        } else {
            match next {
                None => Err(DateRangeError::InvalidLocalDateTime),
                Some(e) => Ok((s, e)),
            }
        },
    }
}

/// Forms a local day's range from the two lookups (see [`spec_local_day_range`]).
pub fn local_day_range(days_from_ce: i32, start: Option<i64>, next: Option<i64>) -> (r: Result<(i64, i64), DateRangeError>)
    ensures
        r == spec_local_day_range(days_from_ce as int, start, next),
{
    let s = match start {
        Some(ms) => ms,
        None => return Err(DateRangeError::InvalidLocalDateTime),
    };
    if days_from_ce >= MAX_EPOCH_DAY as i32 + CE_DAY_OF_EPOCH {
        return Err(DateRangeError::InvalidDate);
    }
    match next {
        Some(e) => Ok((s, e)),
        None => Err(DateRangeError::InvalidLocalDateTime),
    }
}

/// UTC millisecond range `[start, end)` of the day named by a `YYYY-MM-DD`
/// text read as a local calendar day: from its local 00:00 to the next
/// day's local 00:00.  Where the text parses, the result is
/// [`spec_local_day_range`] of the day and the machine's two local-midnight
/// lookups, which depend on its time zone.
pub fn date_range_ms(date: &str) -> (r: Result<(i64, i64), DateRangeError>)
    ensures
        spec_parse_ymd(date@) is None <==> r == Err::<(i64, i64), DateRangeError>(DateRangeError::Parse),
        spec_parse_ymd(date@) matches Some(d) ==> exists|start: Option<i64>, next: Option<i64>|
            r == spec_local_day_range(d as int, start, next),
        spec_parse_ymd(date@) matches Some(d) && d == MAX_EPOCH_DAY + CE_DAY_OF_EPOCH
            ==> r is Err,
        match (spec_parse_ymd(date@), r) {
            (Some(d), Ok(p)) => near_utc_midnight(d as int, p.0 as int) && near_utc_midnight(d + 1, p.1 as int),
            _ => true,
        },
{
    let ce = match parse_ymd_days_from_ce(date) {
        Some(d) => d,
        None => return Err(DateRangeError::Parse),
    };
    let start = local_midnight_ms(ce);
    let next = if start.is_some() && ce < MAX_EPOCH_DAY as i32 + CE_DAY_OF_EPOCH {
        local_midnight_ms(ce + 1)
    } else {
        None
    };
    local_day_range(ce, start, next)
}

/// The UTC range of the calendar day containing `now_ms` in the time zone
/// `offset_minutes` east of UTC: local midnight converted back to UTC, and
/// one day later.
pub open spec fn spec_tz_day_range(now_ms: int, offset_minutes: int) -> (int, int) {
    let local = now_ms + offset_minutes * 60_000;
    let start = (local / (MS_PER_DAY as int)) * MS_PER_DAY - offset_minutes * 60_000;
    (start, start + MS_PER_DAY)
}

/// UTC range of the local day containing `now_ms` for a fixed offset.
pub fn tz_day_range_ms(now_ms: i64, offset_minutes: i32) -> (r: (i64, i64))
    requires
        MIN_EPOCH_DAY * MS_PER_DAY <= now_ms < (MAX_EPOCH_DAY + 1) * MS_PER_DAY,
    ensures
        r.0 == spec_tz_day_range(now_ms as int, offset_minutes as int).0,
        r.1 == spec_tz_day_range(now_ms as int, offset_minutes as int).1,
{
    let off: i64 = (offset_minutes as i64) * 60_000;
    let local: i64 = now_ms + off;
    let day: i64 = if local >= 0 { local / MS_PER_DAY } else { -((-local + MS_PER_DAY - 1) / MS_PER_DAY) };
    proof {
        lemma_floor_div(local as int, MS_PER_DAY as int);
    }
    let start: i64 = day * MS_PER_DAY - off;
    (start, start + MS_PER_DAY)
}

/// UTC range of today in the time zone `offset_minutes` east of UTC, for
/// some current time in `chrono`'s range; `None` when the system clock
/// reads before the Unix epoch or after `chrono`'s last day.
pub fn tz_today_range_ms(offset_minutes: i32) -> (r: Option<(i64, i64)>)
    ensures
        r matches Some(p) ==> exists|now: int|
            0 <= now < (MAX_EPOCH_DAY + 1) * MS_PER_DAY
            && spec_tz_day_range(now, offset_minutes as int).0 == p.0
            && spec_tz_day_range(now, offset_minutes as int).1 == p.1,
        r matches Some(p) ==> p.1 == p.0 + MS_PER_DAY,
{
    match utc_now_millis() {
        Some(now) => {
            let p = tz_day_range_ms(now, offset_minutes);
            assert(spec_tz_day_range(now as int, offset_minutes as int).0 == p.0);
            Some(p)
        },
        None => None,
    }
}

/// The next daily run at 00:05 strictly after `now_ms` (naive
/// milliseconds): today's 00:05 if it is still ahead, otherwise
/// tomorrow's.
pub open spec fn spec_next_run(now_ms: int) -> int {
    let today_run = (now_ms / (MS_PER_DAY as int)) * MS_PER_DAY + 300_000;
    if now_ms < today_run { today_run } else { today_run + MS_PER_DAY }
}

/// When the daily summary runs next: 00:05 today if `now_ms` is before
/// it, else 00:05 tomorrow.  Times are naive-calendar milliseconds from
/// 1970-01-01 00:00.
pub fn next_run_time(now_ms: i64) -> (next: i64)
    requires
        in_chrono_range(now_ms as int),
        epoch_day_of(now_ms as int) < MAX_EPOCH_DAY,
    ensures
        next == spec_next_run(now_ms as int),
        now_ms < next <= now_ms + MS_PER_DAY,
        next % MS_PER_DAY == 300_000,
{
    let day: i64 = if now_ms >= 0 { now_ms / MS_PER_DAY } else { -((-now_ms + MS_PER_DAY - 1) / MS_PER_DAY) };
    proof {
        lemma_floor_div(now_ms as int, MS_PER_DAY as int);
    }
    let today_run: i64 = day * MS_PER_DAY + 300_000;
    if now_ms < today_run {
        proof {
            lemma_mod_offset(day as int, MS_PER_DAY as int, 300_000);
        }
        today_run
    } else {
        proof {
            lemma_mod_offset(day as int + 1, MS_PER_DAY as int, 300_000);
        }
        today_run + MS_PER_DAY
    }
}

/// UTC hour bucket (0..24) of `ts` counted from `start`:
/// `((ts - start) / 3_600_000).rem_euclid(24)` with the division
/// truncating toward zero.
pub open spec fn spec_hour_bucket(start: int, ts: int) -> int {
    let d = ts - start;
    let q = if d >= 0 { d / (MS_PER_HOUR as int) } else { -((-d) / (MS_PER_HOUR as int)) };
    q % 24
}

/// Hour bucket of a timestamp relative to a day start (see [`spec_hour_bucket`]).
pub fn hour_bucket(start: i64, ts: i64) -> (h: usize)
    ensures
        h as int == spec_hour_bucket(start as int, ts as int),
        h < 24,
{
    let d: i128 = ts as i128 - start as i128;
    let q: i128 = if d >= 0 { d / (MS_PER_HOUR as i128) } else { -((-d) / (MS_PER_HOUR as i128)) };
    let r: i128 = if q >= 0 { q % 24 } else { let m = (-q) % 24; if m == 0 { 0 } else { 24 - m } };
    proof {
        lemma_euclid_mod(q as int, 24);
    }
    r as usize
}

/// The minute of the day (0 to 1439) of the wall clock at `ms` UTC
/// milliseconds, for a clock `off` seconds ahead of UTC.
pub open spec fn local_minute_of_day(ms: int, off: int) -> int {
    ((ms / 1000 + off) / 60) % 1440
}

/// Whether `hm` is the wall-clock hour and minute at `ms` under some UTC
/// offset that `chrono` allows (strictly within one day).
pub open spec fn clock_time_at(ms: int, hm: (u32, u32)) -> bool {
    exists|off: int| -86_400 < off < 86_400 && #[trigger] local_minute_of_day(ms, off) == hm.0 * 60 + hm.1
}

/// The local wall-clock hour and minute of a UTC millisecond instant, as
/// `chrono::Local.timestamp_millis_opt(ms).single()` resolves it.
/// `TimeZone::timestamp_millis_opt` gives a single local time exactly when
/// `DateTime::from_timestamp_millis(ms)` exists, that is when the instant
/// lies in `chrono`'s range, and nothing otherwise; that is claimed. The
/// offset depends on the machine's time zone; what is claimed of the time
/// holds in every zone: it is the UTC time (whole seconds, rounded down)
/// shifted by a `FixedOffset`, which `FixedOffset::east_opt` keeps strictly
/// within one day, with an hour below 24 and a minute below 60 as
/// `chrono::Timelike` documents.
#[verifier::external_body]
fn local_hour_minute(ms: i64) -> (r: Option<(u32, u32)>)
    ensures
        r is Some <==> in_chrono_range(ms as int),
        r matches Some(hm) ==> hm.0 < 24 && hm.1 < 60 && clock_time_at(ms as int, hm),
{
    match chrono::Local.timestamp_millis_opt(ms).single() {
        Some(t) => Some((t.hour(), t.minute())),
        None => None,
    }
}

/// A number with at least two digits, zero-padded (`{:02}`).
pub open spec fn pad2(n: nat) -> Seq<char> {
    if n < 10 {
        "0"@ + decimal(n)
    } else {
        decimal(n)
    }
}

/// `HH:MM` of an hour and a minute.
pub open spec fn spec_hm(hm: (u32, u32)) -> Seq<char> {
    pad2(hm.0 as nat) + ":"@ + pad2(hm.1 as nat)
}

/// The label of a window from its local start and end times:
/// `HH:MM–HH:MM`, or empty when either end has no local time.
pub open spec fn spec_range_label(start: Option<(u32, u32)>, end: Option<(u32, u32)>) -> Seq<char> {
    match (start, end) {
        (Some(a), Some(b)) => spec_hm(a) + "–"@ + spec_hm(b),
        _ => Seq::empty(),
    }
}

fn pad2_exec(n: u32) -> (s: String)
    ensures
        s@ == pad2(n as nat),
{
    let digits = u64_to_decimal(n as u64);
    if n < 10 {
        let mut s = String::from_str("0");
        s.append(digits.as_str());
        s
    } else {
        digits
    }
}

fn hm_exec(hm: (u32, u32)) -> (s: String)
    ensures
        s@ == spec_hm(hm),
{
    let mut s = pad2_exec(hm.0);
    s.append(":");
    s.append(pad2_exec(hm.1).as_str());
    s
}

/// Formats the label of a window (see [`spec_range_label`]).
pub fn time_range_label(start: Option<(u32, u32)>, end: Option<(u32, u32)>) -> (s: String)
    ensures
        s@ == spec_range_label(start, end),
{
    match (start, end) {
        (Some(a), Some(b)) => {
            let mut s = hm_exec(a);
            s.append("–");
            s.append(hm_exec(b).as_str());
            s
        },
        _ => String::new(),
    }
}

/// The local `HH:MM–HH:MM` label of a window given in UTC milliseconds,
/// empty exactly when either end lies outside `chrono`'s range.  The local
/// times depend on the machine's time zone; whatever they are, a non-empty
/// label is [`spec_range_label`] of the two ends' wall-clock times under
/// offsets `chrono` allows.
pub fn format_time_range_label(start_ms: i64, end_ms: i64) -> (s: String)
    ensures
        s@.len() > 0 <==> (in_chrono_range(start_ms as int) && in_chrono_range(end_ms as int)),
        s@.len() == 0 || exists|a: (u32, u32), b: (u32, u32)|
            a.0 < 24 && a.1 < 60 && b.0 < 24 && b.1 < 60
            && clock_time_at(start_ms as int, a) && clock_time_at(end_ms as int, b)
            && s@ == spec_range_label(Some(a), Some(b)),
{
    let start = local_hour_minute(start_ms);
    let end = local_hour_minute(end_ms);
    let s = time_range_label(start, end);
    proof {
        if let (Some(a), Some(b)) = (start, end) {
            reveal_strlit("–");
            assert(s@ == spec_range_label(Some(a), Some(b)));
            assert(s@.len() >= "–"@.len());
        }
    }
    s
}

} // verus!
