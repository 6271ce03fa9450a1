//! Broken-down UTC time from seconds since 1970-01-01, and its ISO 8601 text.
use vstd::prelude::*;
use crate::format::{format_int_range, int_region};
use vstd::arithmetic::div_mod::lemma_fundamental_div_mod_converse;

verus! {

/// Seconds relative to 1970-01-01T00:00:00Z.
pub type Seconds = i64;

/// 2000-03-01, the first day after a leap day of a year divisible by 400,
/// in seconds since 1970-01-01.
pub const LEAP_EPOCH: Seconds = 951868800;

pub const DAYS_PER_4Y: i64 = 1461;

pub const DAYS_PER_100Y: i64 = 36524;

pub const DAYS_PER_400Y: i64 = 146097;

/// The earliest and latest times `gmtime` takes: about two million years
/// either side of 1970, which keeps every field well inside `i32`.
pub const MIN_TIME: Seconds = -70368744177664;

pub const MAX_TIME: Seconds = 70368744177664;

/// Whole 400-year cycles added before dividing, so that every division
/// works on a non-negative number; 400 years are a whole number of weeks.
const SHIFT_CYCLES: i64 = 5576;

/// A broken-down time.
#[derive(Debug, Clone, Copy)]
pub struct Tm {
    /// Seconds after the minute, 0 to 60.
    pub tm_sec: i32,
    /// Minutes after the hour, 0 to 59.
    pub tm_min: i32,
    /// Hours after midnight, 0 to 23.
    pub tm_hour: i32,
    /// Day of the month, 1 to 31.
    pub tm_mday: i32,
    /// Months since January, 0 to 11.
    pub tm_mon: i32,
    /// Years since 1900.
    pub tm_year: i32,
    /// Days since Sunday, 0 to 6.
    pub tm_wday: i32,
    /// Days since January 1, 0 to 365.
    pub tm_yday: i32,
    /// Positive when daylight saving time is in effect, zero when it is
    /// not, negative when unknown.
    pub tm_isdst: i32,
    /// Seconds east of UTC of the zone this time is expressed in.
    pub tm_utcoff: i32,
    /// Nanoseconds after the second.
    pub tm_nsec: i32,
}

/// Days from March 1 to the first day of the `m`-th month counted from
/// March, in a year that ends with a leap day.
pub open spec fn march_days_before(m: int) -> int {
    if m <= 0 {
        0
    } else if m == 1 {
        31
    } else if m == 2 {
        61
    } else if m == 3 {
        92
    } else if m == 4 {
        122
    } else if m == 5 {
        153
    } else if m == 6 {
        184
    } else if m == 7 {
        214
    } else if m == 8 {
        245
    } else if m == 9 {
        275
    } else if m == 10 {
        306
    } else if m == 11 {
        337
    } else {
        366
    }
}

/// Length of the `m`-th month counted from March, February having 29 days.
fn march_month_len(m: usize) -> (r: i64)
    requires
        m < 12,
    ensures
        r == march_days_before(m + 1) - march_days_before(m as int),
{
    if m == 0 || m == 2 || m == 4 || m == 5 || m == 7 || m == 9 || m == 10 {
        31
    } else if m == 11 {
        29
    } else {
        30
    }
}

pub open spec fn is_leap_year(y: int) -> bool {
    y % 4 == 0 && (y % 100 != 0 || y % 400 == 0)
}

/// Days in month `m` (0 for January) of year `y`.
pub open spec fn days_in_month(y: int, m: int) -> int {
    if m == 1 {
        if is_leap_year(y) {
            29
        } else {
            28
        }
    } else if m == 3 || m == 5 || m == 8 || m == 10 {
        30
    } else {
        31
    }
}

/// Leap years among `1..=n` of the proleptic Gregorian calendar, counted
/// the same way for `n` below one.
pub open spec fn leap_count(n: int) -> int {
    n / 4 - n / 100 + n / 400
}

/// Days from 1970-01-01 to January 1 of year `y`.
pub open spec fn days_before_year(y: int) -> int {
    365 * (y - 1970) + leap_count(y - 1) - leap_count(1969)
}

/// Days from January 1 to the first day of month `m` (0 for January) of
/// year `y`.
pub open spec fn days_before_month(y: int, m: int) -> int {
    let common: int = if m <= 0 {
        0
    } else if m == 1 {
        31
    } else if m == 2 {
        59
    } else if m == 3 {
        90
    } else if m == 4 {
        120
    } else if m == 5 {
        151
    } else if m == 6 {
        181
    } else if m == 7 {
        212
    } else if m == 8 {
        243
    } else if m == 9 {
        273
    } else if m == 10 {
        304
    } else {
        334
    };
    if m >= 2 && is_leap_year(y) {
        common + 1
    } else {
        common
    }
}

/// Days from 1970-01-01 to day `d` (1 for the first) of month `m` (0 for
/// January) of year `y`.
pub open spec fn days_from_civil(y: int, m: int, d: int) -> int {
    days_before_year(y) + days_before_month(y, m) + d - 1
}

/// Leap days in the March-based years `0..k` counted from 2000-03-01: one
/// for each leap year among `2001..=2000 + k`.
spec fn march_leap_days(k: int) -> int {
    k / 4 - k / 100 + k / 400
}

proof fn lemma_cycles(a: int, c: int, q: int, yrs: int)
    requires
        0 <= c <= 3,
        0 <= q <= 24,
        0 <= yrs <= 3,
    ensures
        ({
            let k = 400 * a + 100 * c + 4 * q + yrs;
            365 * k + march_leap_days(k) == 146097 * a + 36524 * c + 1461 * q + 365 * yrs
        }),
{
    let k = 400 * a + 100 * c + 4 * q + yrs;
    lemma_fundamental_div_mod_converse(k, 4, 100 * a + 25 * c + q, yrs);
    lemma_fundamental_div_mod_converse(k, 100, 4 * a + c, 4 * q + yrs);
    lemma_fundamental_div_mod_converse(k, 400, a, 100 * c + 4 * q + yrs);
}

proof fn lemma_leap_count_2000(k: int)
    ensures
        leap_count(2000 + k) == 485 + march_leap_days(k),
        leap_count(1969) == 477,
        leap_count(1999 + k) + (if is_leap_year(2000 + k) { 1int } else { 0 }) == leap_count(
            2000 + k,
        ),
{
    lemma_fundamental_div_mod_converse(2000 + k, 4, 500 + k / 4, k % 4);
    lemma_fundamental_div_mod_converse(2000 + k, 100, 20 + k / 100, k % 100);
    lemma_fundamental_div_mod_converse(2000 + k, 400, 5 + k / 400, k % 400);
    let y = 2000 + k;
    if y % 4 == 0 {
        lemma_fundamental_div_mod_converse(y - 1, 4, y / 4 - 1, 3);
    } else {
        lemma_fundamental_div_mod_converse(y - 1, 4, y / 4, y % 4 - 1);
    }
    if y % 100 == 0 {
        lemma_fundamental_div_mod_converse(y - 1, 100, y / 100 - 1, 99);
    } else {
        lemma_fundamental_div_mod_converse(y - 1, 100, y / 100, y % 100 - 1);
    }
    if y % 400 == 0 {
        lemma_fundamental_div_mod_converse(y - 1, 400, y / 400 - 1, 399);
    } else {
        lemma_fundamental_div_mod_converse(y - 1, 400, y / 400, y % 400 - 1);
    }
    if y % 100 == 0 {
        assert(y % 4 == 0) by {
            lemma_fundamental_div_mod_converse(y, 4, 25 * (y / 100), 0);
        }
    }
    if y % 400 == 0 {
        assert(y % 100 == 0) by {
            lemma_fundamental_div_mod_converse(y, 100, 4 * (y / 400), 0);
        }
    }
}

/// Day `d` of the March-based month `mm` (0 for March) of the March-based
/// year `k` after 2000-03-01, as a calendar date, is that many days after
/// 2000-03-01.
proof fn lemma_march_to_civil(k: int, mm: int, d: int)
    requires
        0 <= mm < 12,
    ensures
        ({
            let y = if mm < 10 { 2000 + k } else { 2001 + k };
            let m = if mm < 10 { mm + 2 } else { mm - 10 };
            days_from_civil(y, m, d) == 11017 + 365 * k + march_leap_days(k) + march_days_before(
                mm,
            ) + d - 1
        }),
{
    lemma_leap_count_2000(k);
}

/// Whether `tm`'s fields are in their ranges: a valid time of day and a day
/// of the month that exists in its month.
pub open spec fn fields_in_range(tm: Tm) -> bool {
    &&& 0 <= tm.tm_sec < 60
    &&& 0 <= tm.tm_min < 60
    &&& 0 <= tm.tm_hour < 24
    &&& 0 <= tm.tm_mon < 12
    &&& 1 <= tm.tm_mday <= days_in_month(tm.tm_year + 1900, tm.tm_mon as int)
    &&& 0 <= tm.tm_wday < 7
    &&& 0 <= tm.tm_yday < 366
}

/// The ISO 8601 text of `tm`, `YYYY-MM-DDTHH:MM:SS.000Z`, each field
/// zero-padded to its width (or starred when it does not fit).
pub open spec fn iso_text(tm: Tm) -> Seq<u8> {
    int_region(tm.tm_year + 1900, '0', 4) + seq![45u8] + int_region(tm.tm_mon + 1, '0', 2)
        + seq![45u8] + int_region(tm.tm_mday as int, '0', 2) + seq![84u8] + int_region(
        tm.tm_hour as int,
        '0',
        2,
    ) + seq![58u8] + int_region(tm.tm_min as int, '0', 2) + seq![58u8] + int_region(
        tm.tm_sec as int,
        '0',
        2,
    ) + seq![46u8, 48u8, 48u8, 48u8, 90u8]
}

/// Splits a day count from 2000-03-01 (shifted to be non-negative) into
/// 400-year, 100-year and 4-year cycles, single years, and the day of the
/// March-based year.
fn split_cycles(d_all: i64) -> (r: (i64, i64, i64, i64, i64))
    requires
        0 <= d_all <= 2000000000,
    ensures
        d_all == DAYS_PER_400Y * r.0 + DAYS_PER_100Y * r.1 + DAYS_PER_4Y * r.2 + 365 * r.3 + r.4,
        0 <= r.0 <= 20000,
        0 <= r.1 <= 3,
        0 <= r.2 <= 24,
        0 <= r.3 <= 3,
        0 <= r.4 <= 365,
        r.4 == 365 ==> r.3 == 3 && (r.2 < 24 || r.1 == 3),
{
    let qc_cycles: i64 = d_all / DAYS_PER_400Y;
    let mut rem: i64 = d_all % DAYS_PER_400Y;
    let mut c_cycles: i64 = rem / DAYS_PER_100Y;
    if c_cycles == 4 {
        c_cycles = c_cycles - 1;
    }
    rem = rem - c_cycles * DAYS_PER_100Y;
    let mut q_cycles: i64 = rem / DAYS_PER_4Y;
    if q_cycles == 25 {
        q_cycles = q_cycles - 1;
    }
    rem = rem - q_cycles * DAYS_PER_4Y;
    let mut years: i64 = rem / 365;
    if years == 4 {
        years = years - 1;
    }
    rem = rem - years * 365;
    (qc_cycles, c_cycles, q_cycles, years, rem)
}

/// The March-based month (0 for March) and the day of the month (1 for the
/// first) of day `day` of a March-based year.
fn march_month(day: i64) -> (r: (usize, i64))
    requires
        0 <= day <= 365,
    ensures
        r.0 < 12,
        1 <= r.1,
        day == march_days_before(r.0 as int) + r.1 - 1,
        r.1 <= march_days_before(r.0 + 1) - march_days_before(r.0 as int),
{
    let mut rem: i64 = day;
    let mut month: usize = 0;
    while march_month_len(month) <= rem
        invariant
            0 <= day <= 365,
            month < 12,
            day == rem + march_days_before(month as int),
            0 <= rem,
        decreases 12 - month,
    {
        rem = rem - march_month_len(month);
        month = month + 1;
    }
    (month, rem + 1)
}

/// Whether the year starting 2000 + `k` years is a leap year, for `k`
/// made of `a` 400-year cycles, `c` centuries, `q` 4-year cycles and `yrs`
/// years.
proof fn lemma_leap_of_cycles(a: int, c: int, q: int, yrs: int)
    requires
        0 <= c <= 3,
        0 <= q <= 24,
        0 <= yrs <= 3,
    ensures
        ({
            let k = 400 * a + 100 * c + 4 * q + yrs;
            &&& is_leap_year(2000 + k) == (yrs == 0 && (q != 0 || c == 0))
            &&& (yrs == 3 && (q < 24 || c == 3)) ==> is_leap_year(2001 + k)
        }),
{
    let k = 400 * a + 100 * c + 4 * q + yrs;
    lemma_fundamental_div_mod_converse(2000 + k, 4, 500 + 100 * a + 25 * c + q, yrs);
    if yrs == 0 {
        lemma_fundamental_div_mod_converse(2000 + k, 100, 20 + 4 * a + c, 4 * q);
        lemma_fundamental_div_mod_converse(2000 + k, 400, 5 + a, 100 * c + 4 * q);
    }
    if yrs == 3 {
        lemma_fundamental_div_mod_converse(2001 + k, 4, 501 + 100 * a + 25 * c + q, 0);
        if q < 24 {
            lemma_fundamental_div_mod_converse(2001 + k, 100, 20 + 4 * a + c, 4 * q + 4);
        } else if c == 3 {
            lemma_fundamental_div_mod_converse(2001 + k, 400, 6 + a, 0);
        }
    }
}

/// The date `days` days after 1970-01-01: year, month (0 for January),
/// day of the month, and day of the year (0 for January 1).
///
/// Counts from 2000-03-01 in whole 400-year, 100-year and 4-year cycles and
/// single years, each starting on March 1, so that a leap day always ends
/// the year it falls in.
fn civil_from_days(days: i64) -> (r: (i64, i64, i64, i64))
    requires
        MIN_TIME / 86400 - 1 <= days <= MAX_TIME / 86400,
    ensures
        0 <= r.1 < 12,
        1 <= r.2 <= days_in_month(r.0 as int, r.1 as int),
        days_from_civil(r.0 as int, r.1 as int, r.2 as int) == days,
        r.3 == days_before_month(r.0 as int, r.1 as int) + r.2 - 1,
        -3000000 <= r.0 <= 3000000,
{
    let d_all: i64 = days - LEAP_EPOCH / 86400 + SHIFT_CYCLES * DAYS_PER_400Y;
    let (qc_cycles, c_cycles, q_cycles, years, day) = split_cycles(d_all);
    let ghost a: int = qc_cycles - SHIFT_CYCLES;
    let ghost k: int = 400 * a + 100 * c_cycles + 4 * q_cycles + years;
    proof {
        lemma_cycles(a, c_cycles as int, q_cycles as int, years as int);
        lemma_leap_of_cycles(a, c_cycles as int, q_cycles as int, years as int);
    }
    let leap: i64 = if years == 0 && (q_cycles != 0 || c_cycles == 0) {
        1
    } else {
        0
    };
    let mut yday: i64 = day + 31 + 28 + leap;
    if yday >= 365 + leap {
        yday = yday - (365 + leap);
    }
    let (month, mday) = march_month(day);
    let year0: i64 = 2000 + 400 * (qc_cycles - SHIFT_CYCLES) + 100 * c_cycles + 4 * q_cycles
        + years;
    let (year, mon): (i64, i64) = if month < 10 {
        (year0, month as i64 + 2)
    } else {
        (year0 + 1, month as i64 - 10)
    };
    proof {
        lemma_march_to_civil(k, month as int, mday as int);
    }
    (year, mon, mday, yday)
}

impl Tm {
    /// A time with every field zero.
    pub fn new() -> (r: Self)
        ensures
            r.tm_sec == 0 && r.tm_min == 0 && r.tm_hour == 0 && r.tm_mday == 0,
            r.tm_mon == 0 && r.tm_year == 0 && r.tm_wday == 0 && r.tm_yday == 0,
            r.tm_isdst == 0 && r.tm_utcoff == 0 && r.tm_nsec == 0,
    {
        Tm {
            tm_sec: 0,
            tm_min: 0,
            tm_hour: 0,
            tm_mday: 0,
            tm_mon: 0,
            tm_year: 0,
            tm_wday: 0,
            tm_yday: 0,
            tm_isdst: 0,
            tm_utcoff: 0,
            tm_nsec: 0,
        }
    }

    /// The UTC broken-down time of `t`: the date and time of day whose
    /// seconds since 1970-01-01 are `t`, with its day of the week and of the
    /// year.
    pub fn gmtime(t: Seconds) -> (tm: Self)
        requires
            MIN_TIME <= t <= MAX_TIME,
        ensures
            fields_in_range(tm),
            days_from_civil(tm.tm_year + 1900, tm.tm_mon as int, tm.tm_mday as int) * 86400
                + tm.tm_hour * 3600 + tm.tm_min * 60 + tm.tm_sec == t,
            tm.tm_yday == days_before_month(tm.tm_year + 1900, tm.tm_mon as int) + tm.tm_mday - 1,
            tm.tm_wday == (days_from_civil(tm.tm_year + 1900, tm.tm_mon as int, tm.tm_mday as int)
                + 4) % 7,
            tm.tm_isdst == 0 && tm.tm_utcoff == 0 && tm.tm_nsec == 0,
    {
        let mut tm = Tm::new();
        let shifted: i64 = t + SHIFT_CYCLES * DAYS_PER_400Y * 86400;
        let days: i64 = shifted / 86400 - SHIFT_CYCLES * DAYS_PER_400Y;
        let secs: i64 = shifted % 86400;
        tm.tm_hour = (secs / 3600) as i32;
        tm.tm_min = (secs / 60 % 60) as i32;
        tm.tm_sec = (secs % 60) as i32;
        // 1970-01-01 was a Thursday; the shift is a whole number of weeks.
        tm.tm_wday = ((shifted / 86400 + 4) % 7) as i32;
        let (year, mon, mday, yday) = civil_from_days(days);
        tm.tm_year = (year - 1900) as i32;
        tm.tm_mon = mon as i32;
        tm.tm_mday = mday as i32;
        tm.tm_yday = yday as i32;
        proof {
            assert(days * 86400 + secs == t);
            assert((shifted / 86400 + 4) % 7 == (days + 4) % 7) by {
                lemma_fundamental_div_mod_converse(
                    shifted / 86400 + 4,
                    7,
                    (days + 4) / 7 + SHIFT_CYCLES * DAYS_PER_400Y / 7,
                    (days + 4) % 7,
                );
            }
        }
        tm
    }

    /// Writes the time as `YYYY-MM-DDTHH:MM:SS.000Z` into the first 24 bytes
    /// of `buf`; fails, writing nothing, when `buf` is shorter.
    pub fn format_iso_into(&self, buf: &mut [u8]) -> (ok: bool)
        requires
            self.tm_year <= i32::MAX - 1900,
            self.tm_mon < i32::MAX,
        ensures
            ok == (old(buf)@.len() >= 24),
            final(buf)@.len() == old(buf)@.len(),
            ok ==> final(buf)@.subrange(0, 24) == iso_text(*self),
            ok ==> final(buf)@.subrange(24, old(buf)@.len() as int) == old(buf)@.subrange(
                24,
                old(buf)@.len() as int,
            ),
            !ok ==> final(buf)@ == old(buf)@,
    {
        if buf.len() < 24 {
            return false;
        }
        let ghost b0 = buf@;
        buf[4] = 45u8;
        buf[7] = 45u8;
        buf[10] = 84u8;
        buf[13] = 58u8;
        buf[16] = 58u8;
        buf[19] = 46u8;
        buf[20] = 48u8;
        buf[21] = 48u8;
        buf[22] = 48u8;
        buf[23] = 90u8;
        let ghost seps = buf@;
        format_int_range(buf, 0, 4, (self.tm_year + 1900) as i64, '0');
        let ghost b1 = buf@;
        format_int_range(buf, 5, 7, (self.tm_mon + 1) as i64, '0');
        let ghost b2 = buf@;
        format_int_range(buf, 8, 10, (self.tm_mday) as i64, '0');
        let ghost b3 = buf@;
        format_int_range(buf, 11, 13, (self.tm_hour) as i64, '0');
        let ghost b4 = buf@;
        format_int_range(buf, 14, 16, (self.tm_min) as i64, '0');
        let ghost b5 = buf@;
        format_int_range(buf, 17, 19, (self.tm_sec) as i64, '0');
        proof {
            let s = buf@;
            // Each later call leaves the earlier fields and the separators
            // alone.
            assert forall|i: int| 0 <= i < s.len() && !(0 <= i < 4 || 5 <= i < 7 || 8 <= i < 10
                || 11 <= i < 13 || 14 <= i < 16 || 17 <= i < 19) implies s[i] == seps[i] by {}
            assert(s.subrange(0, 4) =~= b1.subrange(0, 4));
            assert(s.subrange(5, 7) =~= b2.subrange(5, 7));
            assert(s.subrange(8, 10) =~= b3.subrange(8, 10));
            assert(s.subrange(11, 13) =~= b4.subrange(11, 13));
            assert(s.subrange(14, 16) =~= b5.subrange(14, 16));
            assert(s.subrange(0, 24) =~= s.subrange(0, 4) + seq![s[4]] + s.subrange(5, 7) + seq![
                s[7],
            ] + s.subrange(8, 10) + seq![s[10]] + s.subrange(11, 13) + seq![s[13]] + s.subrange(
                14,
                16,
            ) + seq![s[16]] + s.subrange(17, 19) + seq![s[19], s[20], s[21], s[22], s[23]]);
            assert(s.subrange(24, s.len() as int) =~= b0.subrange(24, s.len() as int));
        }
        true
    }
}

} // verus!
