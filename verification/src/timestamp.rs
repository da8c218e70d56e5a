use vstd::prelude::*;

verus! {

// The provider reports the observation time as text in the fixed shape
// `YYYY-MM-DDTHH:MM:SS.sssZ`: a proleptic-Gregorian calendar date, a
// 24-hour clock time with exactly three fractional digits, and a literal
// UTC suffix. The reading keeps whole seconds only, so the fractional
// digits must be present and well formed but do not reach the result.

pub open spec fn is_dig(c: char) -> bool {
    48 <= c as u32 <= 57
}

pub open spec fn dv(c: char) -> int {
    c as u32 - 48
}

pub open spec fn year_of(s: Seq<char>) -> int {
    1000 * dv(s[0]) + 100 * dv(s[1]) + 10 * dv(s[2]) + dv(s[3])
}

pub open spec fn month_of(s: Seq<char>) -> int {
    10 * dv(s[5]) + dv(s[6])
}

pub open spec fn day_of(s: Seq<char>) -> int {
    10 * dv(s[8]) + dv(s[9])
}

pub open spec fn hour_of(s: Seq<char>) -> int {
    10 * dv(s[11]) + dv(s[12])
}

pub open spec fn minute_of(s: Seq<char>) -> int {
    10 * dv(s[14]) + dv(s[15])
}

pub open spec fn second_of(s: Seq<char>) -> int {
    10 * dv(s[17]) + dv(s[18])
}

pub open spec fn is_leap(y: int) -> bool {
    y % 4 == 0 && (y % 100 != 0 || y % 400 == 0)
}

pub open spec fn days_in_month(y: int, m: int) -> int {
    if m == 2 {
        if is_leap(y) {
            29
        } else {
            28
        }
    } else if m == 4 || m == 6 || m == 9 || m == 11 {
        30
    } else {
        31
    }
}

/// Days in the months of year `y` that precede month `m`.
pub open spec fn days_before_month(y: int, m: int) -> int {
    let plain: int = if m == 1 {
        0
    } else if m == 2 {
        31
    } else if m == 3 {
        59
    } else if m == 4 {
        90
    } else if m == 5 {
        120
    } else if m == 6 {
        151
    } else if m == 7 {
        181
    } else if m == 8 {
        212
    } else if m == 9 {
        243
    } else if m == 10 {
        273
    } else if m == 11 {
        304
    } else {
        334
    };
    plain + if m > 2 && is_leap(y) {
        1int
    } else {
        0int
    }
}

/// Leap years among 0, 1, ..., y - 1 (year 0 is a leap year).
pub open spec fn leap_years_before(y: int) -> int {
    (y + 3) / 4 - (y + 99) / 100 + (y + 399) / 400
}

/// Days from the start of year 0 to the given calendar day;
/// year 0, January 1st is day 0.
pub open spec fn civil_day_number(y: int, m: int, d: int) -> int {
    365 * y + leap_years_before(y) + days_before_month(y, m) + (d - 1)
}

/// Day 719528 is 1970, January 1st: the Unix epoch.
pub open spec fn epoch_seconds(y: int, m: int, d: int, h: int, mi: int, sec: int) -> int {
    (civil_day_number(y, m, d) - 719528) * 86400 + h * 3600 + mi * 60 + sec
}

/// The text is exactly `YYYY-MM-DDTHH:MM:SS.sssZ` and names a real calendar
/// day and a real clock time.
pub open spec fn ts_wf(s: Seq<char>) -> bool {
    &&& s.len() == 24
    &&& is_dig(s[0]) && is_dig(s[1]) && is_dig(s[2]) && is_dig(s[3])
    &&& s[4] == '-'
    &&& is_dig(s[5]) && is_dig(s[6])
    &&& s[7] == '-'
    &&& is_dig(s[8]) && is_dig(s[9])
    &&& s[10] == 'T'
    &&& is_dig(s[11]) && is_dig(s[12])
    &&& s[13] == ':'
    &&& is_dig(s[14]) && is_dig(s[15])
    &&& s[16] == ':'
    &&& is_dig(s[17]) && is_dig(s[18])
    &&& s[19] == '.'
    &&& is_dig(s[20]) && is_dig(s[21]) && is_dig(s[22])
    &&& s[23] == 'Z'
    &&& 1 <= month_of(s) <= 12
    &&& 1 <= day_of(s) <= days_in_month(year_of(s), month_of(s))
    &&& hour_of(s) <= 23
    &&& minute_of(s) <= 59
    &&& second_of(s) <= 59
}

/// The instant the text names, in whole seconds since the Unix epoch.
pub open spec fn ts_epoch(s: Seq<char>) -> int {
    epoch_seconds(year_of(s), month_of(s), day_of(s), hour_of(s), minute_of(s), second_of(s))
}

/// The digit at position `i`, or `None` when the character there is not a
/// decimal digit.
fn digit_at(s: &str, i: usize) -> (r: Option<u32>)
    requires
        i < s@.len(),
    ensures
        is_dig(s@[i as int]) ==> r == Some(dv(s@[i as int]) as u32),
        !is_dig(s@[i as int]) ==> r is None,
{
    let c = s.get_char(i);
    let u = c as u32;
    if 48 <= u && u <= 57 {
        Some(u - 48)
    } else {
        None
    }
}

/// The two-digit number at positions `i`, `i + 1`, or `None` when either
/// character is not a digit.
fn two_digits_at(s: &str, i: usize) -> (r: Option<u32>)
    requires
        i + 1 < s@.len(),
        i + 1 <= usize::MAX,
    ensures
        is_dig(s@[i as int]) && is_dig(s@[i + 1]) ==> r == Some(
            (10 * dv(s@[i as int]) + dv(s@[i + 1])) as u32,
        ),
        !(is_dig(s@[i as int]) && is_dig(s@[i + 1])) ==> r is None,
{
    match (digit_at(s, i), digit_at(s, i + 1)) {
        (Some(a), Some(b)) => Some(10 * a + b),
        _ => None,
    }
}

fn exec_is_leap(y: u32) -> (r: bool)
    ensures
        r == is_leap(y as int),
{
    y % 4 == 0 && (y % 100 != 0 || y % 400 == 0)
}

fn exec_days_in_month(y: u32, m: u32) -> (r: u32)
    requires
        1 <= m <= 12,
    ensures
        r == days_in_month(y as int, m as int),
{
    if m == 2 {
        if exec_is_leap(y) {
            29
        } else {
            28
        }
    } else if m == 4 || m == 6 || m == 9 || m == 11 {
        30
    } else {
        31
    }
}

fn exec_days_before_month(y: u32, m: u32) -> (r: u32)
    requires
        1 <= m <= 12,
    ensures
        r == days_before_month(y as int, m as int),
{
    let plain: u32 = if m == 1 {
        0
    } else if m == 2 {
        31
    } else if m == 3 {
        59
    } else if m == 4 {
        90
    } else if m == 5 {
        120
    } else if m == 6 {
        151
    } else if m == 7 {
        181
    } else if m == 8 {
        212
    } else if m == 9 {
        243
    } else if m == 10 {
        273
    } else if m == 11 {
        304
    } else {
        334
    };
    if m > 2 && exec_is_leap(y) {
        plain + 1
    } else {
        plain
    }
}

/// Parses provider timestamp text. Exactly the well-formed texts parse; the
/// result is the named instant in whole seconds since the Unix epoch.
#[verifier::rlimit(100)]
pub fn parse_timestamp(s: &str) -> (r: Option<i64>)
    ensures
        ts_wf(s@) ==> r == Some(ts_epoch(s@) as i64),
        !ts_wf(s@) ==> r is None,
{
    if s.unicode_len() != 24 {
        return None;
    }
    if s.get_char(4) != '-' || s.get_char(7) != '-' || s.get_char(10) != 'T' || s.get_char(13)
        != ':' || s.get_char(16) != ':' || s.get_char(19) != '.' || s.get_char(23) != 'Z' {
        return None;
    }
    let (y, m, d, h, mi, sec) = match (
        two_digits_at(s, 0),
        two_digits_at(s, 2),
        two_digits_at(s, 5),
        two_digits_at(s, 8),
        two_digits_at(s, 11),
        two_digits_at(s, 14),
        two_digits_at(s, 17),
    ) {
        (Some(yh), Some(yl), Some(m), Some(d), Some(h), Some(mi), Some(sec)) => (
            100 * yh + yl,
            m,
            d,
            h,
            mi,
            sec,
        ),
        _ => {
            return None;
        },
    };
    if digit_at(s, 20).is_none() || digit_at(s, 21).is_none() || digit_at(s, 22).is_none() {
        return None;
    }
    if !(1 <= m && m <= 12) {
        return None;
    }
    if !(1 <= d && d <= exec_days_in_month(y, m)) {
        return None;
    }
    if !(h <= 23 && mi <= 59 && sec <= 59) {
        return None;
    }
    assert(y == year_of(s@) && m == month_of(s@) && d == day_of(s@) && h == hour_of(s@) && mi
        == minute_of(s@) && sec == second_of(s@));
    assert(ts_wf(s@));
    let leaps: i64 = (y as i64 + 3) / 4 - (y as i64 + 99) / 100 + (y as i64 + 399) / 400;
    let civil: i64 = 365 * (y as i64) + leaps + (exec_days_before_month(y, m) as i64) + (d as i64
        - 1);
    let total: i64 = (civil - 719528) * 86400 + (h as i64) * 3600 + (mi as i64) * 60 + (sec as i64);
    Some(total)
}

} // verus!
