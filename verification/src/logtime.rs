//! Calendar arithmetic for log time stamps: from seconds since 1970-01-01 (UTC)
//! to `YYYY-MM-DD hh:mm:ss`, and the names of the rotated log files.

use vstd::prelude::*;
use vstd::string::*;
use crate::text::{decimal, push_decimal, push_decimal_padded, push_str, string_of, zero_pad};

verus! {

/// Whether `y` is a leap year of the Gregorian calendar.
pub open spec fn leap(y: int) -> bool {
    (y % 4 == 0 && y % 100 != 0) || y % 400 == 0
}

/// Number of days of year `y`.
pub open spec fn year_len(y: int) -> nat {
    if leap(y) { 366 } else { 365 }
}

/// Number of days of month `m` (1 to 12) of year `y`.
pub open spec fn month_len(y: int, m: int) -> nat {
    if m == 2 {
        if leap(y) { 29 } else { 28 }
    } else if m == 4 || m == 6 || m == 9 || m == 11 {
        30
    } else {
        31
    }
}

/// Days from 1970-01-01 to the first day of year `y` (for `y >= 1970`).
pub open spec fn days_before_year(y: int) -> nat
    decreases y - 1970,
{
    if y <= 1970 {
        0
    } else {
        days_before_year(y - 1) + year_len(y - 1)
    }
}

/// Days from the first day of year `y` to the first day of month `m` of it.
pub open spec fn days_before_month(y: int, m: int) -> nat
    decreases m,
{
    if m <= 1 {
        0
    } else {
        days_before_month(y, m - 1) + month_len(y, m - 1)
    }
}

/// Whether (`y`, `m`, `d`) is a date from 1970 on.
pub open spec fn valid_date(y: int, m: int, d: int) -> bool {
    y >= 1970 && 1 <= m <= 12 && 1 <= d <= month_len(y, m)
}

/// The number of the day (`y`, `m`, `d`), counting 1970-01-01 as day 0.
pub open spec fn day_number(y: int, m: int, d: int) -> int {
    days_before_year(y) + days_before_month(y, m) + d - 1
}

/// Whether `y` is a leap year.
pub fn is_leap(y: u64) -> (r: bool)
    ensures
        r == leap(y as int),
{
    (y % 4 == 0 && y % 100 != 0) || (y % 400 == 0)
}

fn month_days(y: u64, m: u64) -> (r: u64)
    requires
        1 <= m <= 12,
    ensures
        r == month_len(y as int, m as int),
{
    if m == 2 {
        if is_leap(y) { 29 } else { 28 }
    } else if m == 4 || m == 6 || m == 9 || m == 11 {
        30
    } else {
        31
    }
}

/// The months have the lengths of the Gregorian calendar: January, March, May,
/// July, August, October and December 31 days; April, June, September and November
/// 30; February 29 in a leap year and 28 otherwise.
pub proof fn lemma_gregorian_month_lengths(y: int)
    ensures
        month_len(y, 1) == 31,
        month_len(y, 2) == if leap(y) { 29nat } else { 28nat },
        month_len(y, 3) == 31,
        month_len(y, 4) == 30,
        month_len(y, 5) == 31,
        month_len(y, 6) == 30,
        month_len(y, 7) == 31,
        month_len(y, 8) == 31,
        month_len(y, 9) == 30,
        month_len(y, 10) == 31,
        month_len(y, 11) == 30,
        month_len(y, 12) == 31,
{
}

/// The day of the year on which each month begins (counting January 1 as day 0):
/// 0, 31, 59, 90, 120, 151, 181, 212, 243, 273, 304, 334, and one day later from
/// March on in a leap year; the year has 365 or 366 days.
pub proof fn lemma_months_begin_on_calendar_days(y: int)
    ensures
        ({
            let l: nat = if leap(y) { 1 } else { 0 };
            &&& days_before_month(y, 1) == 0
            &&& days_before_month(y, 2) == 31
            &&& days_before_month(y, 3) == 59 + l
            &&& days_before_month(y, 4) == 90 + l
            &&& days_before_month(y, 5) == 120 + l
            &&& days_before_month(y, 6) == 151 + l
            &&& days_before_month(y, 7) == 181 + l
            &&& days_before_month(y, 8) == 212 + l
            &&& days_before_month(y, 9) == 243 + l
            &&& days_before_month(y, 10) == 273 + l
            &&& days_before_month(y, 11) == 304 + l
            &&& days_before_month(y, 12) == 334 + l
            &&& days_before_month(y, 13) == 365 + l
        }),
{
    reveal_with_fuel(days_before_month, 13);
}

proof fn lemma_months_make_year(y: int)
    ensures
        days_before_month(y, 13) == year_len(y),
{
    reveal_with_fuel(days_before_month, 13);
}

proof fn lemma_year_len_bounds(y: int)
    ensures
        365 <= year_len(y) <= 366,
{
}

/// The date of day `days`, counting 1970-01-01 as day 0: year, month (1 to 12) and
/// day of the month (from 1).
pub fn days_to_ymd(days: u64) -> (r: (u64, u64, u64))
    ensures
        valid_date(r.0 as int, r.1 as int, r.2 as int),
        day_number(r.0 as int, r.1 as int, r.2 as int) == days,
        1 <= r.1 <= 12,
        1 <= r.2 <= 31,
        (r.1 == 4 || r.1 == 6 || r.1 == 9 || r.1 == 11) ==> r.2 <= 30,
        r.1 == 2 ==> r.2 <= 29,
        r.1 == 2 && !leap(r.0 as int) ==> r.2 <= 28,
{
    let mut y: u64 = 1970;
    let mut remaining = days;
    loop
        invariant
            y >= 1970,
            remaining <= days,
            remaining + days_before_year(y as int) == days,
            365 * (y - 1970) <= days - remaining,
        ensures
            y >= 1970,
            remaining + days_before_year(y as int) == days,
            remaining < year_len(y as int),
        decreases remaining,
    {
        let days_in_year: u64 = if is_leap(y) { 366 } else { 365 };
        proof {
            lemma_year_len_bounds(y as int);
        }
        if remaining < days_in_year {
            break;
        }
        remaining = remaining - days_in_year;
        assert(days_before_year(y + 1) == days_before_year(y as int) + year_len(y as int));
        y = y + 1;
    }
    proof {
        lemma_months_make_year(y as int);
    }
    let ghost in_year = remaining;
    let mut m: u64 = 1;
    while m < 12
        invariant_except_break
            1 <= m <= 12,
            remaining + days_before_month(y as int, m as int) == in_year,
            in_year < year_len(y as int),
            year_len(y as int) == days_before_month(y as int, 13),
            m == 12 ==> remaining < month_len(y as int, 12),
        ensures
            1 <= m <= 12,
            remaining + days_before_month(y as int, m as int) == in_year,
            remaining < month_len(y as int, m as int),
        decreases 12 - m,
    {
        let d = month_days(y, m);
        if remaining < d {
            break;
        }
        remaining = remaining - d;
        m = m + 1;
        if m == 12 {
            assert(days_before_month(y as int, 13) == days_before_month(y as int, 12) + month_len(y as int, 12));
        }
    }
    proof {
        lemma_gregorian_month_lengths(y as int);
    }
    (y, m, remaining + 1)
}

/// The time stamp `YYYY-MM-DD hh:mm:ss` of a moment given in seconds since
/// 1970-01-01 00:00:00.
pub open spec fn time_stamp(secs: u64, y: u64, m: u64, d: u64) -> Seq<char> {
    let ds = secs % 86400;
    zero_pad(decimal(y as nat), 4) + "-"@ + zero_pad(decimal(m as nat), 2) + "-"@ + zero_pad(decimal(d as nat), 2)
        + " "@ + zero_pad(decimal((ds / 3600) as nat), 2) + ":"@ + zero_pad(decimal(((ds % 3600) / 60) as nat), 2)
        + ":"@ + zero_pad(decimal((ds % 60) as nat), 2)
}

/// The time stamp of a log line for the moment `secs` seconds after 1970-01-01.
pub fn format_time(secs: u64) -> (r: String)
    ensures
        exists|y: u64, m: u64, d: u64|
            valid_date(y as int, m as int, d as int) && day_number(y as int, m as int, d as int) == secs / 86400
                && r@ == time_stamp(secs, y, m, d),
{
    let days = secs / 86400;
    let day_secs = secs % 86400;
    let hours = day_secs / 3600;
    let minutes = (day_secs % 3600) / 60;
    let seconds = day_secs % 60;
    let (year, month, day) = days_to_ymd(days);
    let mut out: Vec<char> = Vec::new();
    push_decimal_padded(&mut out, year, 4);
    push_str(&mut out, "-");
    push_decimal_padded(&mut out, month, 2);
    push_str(&mut out, "-");
    push_decimal_padded(&mut out, day, 2);
    push_str(&mut out, " ");
    push_decimal_padded(&mut out, hours, 2);
    push_str(&mut out, ":");
    push_decimal_padded(&mut out, minutes, 2);
    push_str(&mut out, ":");
    push_decimal_padded(&mut out, seconds, 2);
    let r = string_of(&out);
    assert(r@ =~= time_stamp(secs, year, month, day));
    r
}

/// Beyond this size in bytes (2 MB) the log file is rotated before it is written to.
pub const MAX_LOG_SIZE: u64 = 2097152;

/// Whether a log file of `size` bytes is rotated before it is written to.
pub fn needs_rotation(size: u64) -> (r: bool)
    ensures
        r == (size > MAX_LOG_SIZE),
{
    size > MAX_LOG_SIZE
}

/// How many older log files are kept besides the current one.
pub const MAX_BACKUP_FILES: u64 = 3;

/// The log file kept in the log directory while it is written.
pub fn log_file_name() -> (r: String)
    ensures
        r@ == "clipsync.log"@,
{
    String::from_str("clipsync.log")
}

/// The name of the `i`-th older log file: `clipsync.i.log`.
pub fn backup_log_name(i: u64) -> (r: String)
    ensures
        r@ == "clipsync."@ + decimal(i as nat) + ".log"@,
{
    let mut out: Vec<char> = Vec::new();
    push_str(&mut out, "clipsync.");
    push_decimal(&mut out, i);
    push_str(&mut out, ".log");
    string_of(&out)
}

/// One step of a log rotation.
pub enum RotationStep {
    /// Delete the named file.
    Remove(String),
    /// Rename the first file to the second.
    Rename(String, String),
}

/// The steps of a log rotation, in order: the oldest backup is removed, each other
/// backup moves one number up (newest last), and the current log becomes backup 1.
pub fn rotation_plan() -> (r: Vec<RotationStep>)
    ensures
        r@.len() == 4,
        r@[0] matches RotationStep::Remove(a) && a@ == "clipsync."@ + decimal(3) + ".log"@,
        r@[1] matches RotationStep::Rename(a, b) && a@ == "clipsync."@ + decimal(2) + ".log"@
            && b@ == "clipsync."@ + decimal(3) + ".log"@,
        r@[2] matches RotationStep::Rename(a, b) && a@ == "clipsync."@ + decimal(1) + ".log"@
            && b@ == "clipsync."@ + decimal(2) + ".log"@,
        r@[3] matches RotationStep::Rename(a, b) && a@ == "clipsync.log"@ && b@ == "clipsync."@ + decimal(1)
            + ".log"@,
{
    let mut steps: Vec<RotationStep> = Vec::new();
    steps.push(RotationStep::Remove(backup_log_name(MAX_BACKUP_FILES)));
    steps.push(RotationStep::Rename(backup_log_name(2), backup_log_name(3)));
    steps.push(RotationStep::Rename(backup_log_name(1), backup_log_name(2)));
    steps.push(RotationStep::Rename(log_file_name(), backup_log_name(1)));
    steps
}

} // verus!
