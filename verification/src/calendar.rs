//! The calendar month that a moment falls in, as the key under which the
//! geocoding quota is counted ("YYYY-MM", UTC).
use vstd::prelude::*;
use crate::text::{decimal, push_char, push_decimal};

verus! {

/// Leap years of the Gregorian calendar.
pub open spec fn is_leap(y: int) -> bool {
    (y % 4 == 0 && y % 100 != 0) || y % 400 == 0
}

/// The number of days of month `m` (1 to 12) of year `y`.
pub open spec fn month_days(y: int, m: int) -> nat {
    if m == 2 {
        if is_leap(y) {
            29
        } else {
            28
        }
    } else if m == 4 || m == 6 || m == 9 || m == 11 {
        30
    } else {
        31
    }
}

/// The month that the day `d` days after the first of month `m` of year `y`
/// falls in.
pub open spec fn month_at(d: nat, y: nat, m: nat) -> (nat, nat)
    decreases d,
{
    let len = month_days(y as int, m as int);
    if d < len {
        (y, m)
    } else if m >= 12 {
        month_at((d - len) as nat, y + 1, 1)
    } else {
        month_at((d - len) as nat, y, m + 1)
    }
}

/// The month (year, month) of the moment `unix_secs` seconds after
/// 1970-01-01T00:00:00 UTC.
pub open spec fn month_of(unix_secs: nat) -> (nat, nat) {
    month_at(unix_secs / 86400, 1970, 1)
}

/// `n` in decimal, padded with leading zeros to at least `width` digits.
pub open spec fn zero_padded(n: nat, width: nat) -> Seq<char> {
    let digits = decimal(n);
    if digits.len() < width {
        Seq::new((width - digits.len()) as nat, |i: int| '0') + digits
    } else {
        digits
    }
}

/// The key of a month: the year in at least four digits, `-`, the month in two.
pub open spec fn month_key_text(y: nat, m: nat) -> Seq<char> {
    zero_padded(y, 4) + seq!['-'] + zero_padded(m, 2)
}

fn is_leap_year(y: u64) -> (res: bool)
    ensures
        res == is_leap(y as int),
{
    (y % 4 == 0 && y % 100 != 0) || y % 400 == 0
}

fn days_in_month(y: u64, m: u64) -> (res: u64)
    ensures
        res == month_days(y as int, m as int),
{
    if m == 2 {
        if is_leap_year(y) {
            29
        } else {
            28
        }
    } else if m == 4 || m == 6 || m == 9 || m == 11 {
        30
    } else {
        31
    }
}

fn push_zero_padded(s: &mut String, n: u64, width: u64)
    ensures
        final(s)@ == old(s)@ + zero_padded(n as nat, width as nat),
{
    let mut digits = String::new();
    push_decimal(&mut digits, n);
    assert(digits@ == decimal(n as nat));
    let len = crate::text::chars_of(digits.as_str()).len() as u64;
    let mut k: u64 = len;
    let ghost start = s@;
    while k < width
        invariant
            len == decimal(n as nat).len(),
            len <= k,
            k <= width || k == len,
            s@ == start + Seq::new((k - len) as nat, |i: int| '0'),
        decreases width - k,
    {
        push_char(s, '0');
        assert(s@ =~= start + Seq::new((k + 1 - len) as nat, |i: int| '0'));
        k = k + 1;
    }
    s.append(digits.as_str());
    if len >= width {
        assert(s@ =~= start + decimal(n as nat));
    } else {
        assert(s@ =~= start + (Seq::new((width - len) as nat, |i: int| '0') + decimal(n as nat)));
    }
}

/// The key of the month that the moment `unix_secs` (seconds since the Unix
/// epoch) falls in, such as "2026-07".
pub fn month_key(unix_secs: u64) -> (res: String)
    ensures
        res@ == month_key_text(month_of(unix_secs as nat).0, month_of(unix_secs as nat).1),
{
    let mut d: u64 = unix_secs / 86400;
    let mut y: u64 = 1970;
    let mut m: u64 = 1;
    while d >= days_in_month(y, m)
        invariant
            1 <= m <= 12,
            1970 <= y,
            d <= unix_secs / 86400,
            (y - 1970) * 336 + (m - 1) * 28 <= unix_secs / 86400 - d,
            month_at(d as nat, y as nat, m as nat) == month_of(unix_secs as nat),
        decreases d,
    {
        let len = days_in_month(y, m);
        d = d - len;
        if m >= 12 {
            y = y + 1;
            m = 1;
        } else {
            m = m + 1;
        }
    }
    let mut key = String::new();
    push_zero_padded(&mut key, y, 4);
    push_char(&mut key, '-');
    push_zero_padded(&mut key, m, 2);
    key
}

/// Gregorian leap years: divisible by 4, and, among centuries, only those
/// divisible by 16 (that is, by 400).
pub proof fn law_leap_years(y: int)
    ensures
        is_leap(y) <==> (y % 4 == 0 && (y % 25 != 0 || y % 16 == 0)),
{
    assert((y % 4 == 0 && y % 100 != 0) <==> (y % 4 == 0 && y % 25 != 0)) by (nonlinear_arith);
    assert((y % 400 == 0) <==> (y % 16 == 0 && y % 25 == 0)) by (nonlinear_arith);
}

/// The Gregorian month lengths: February has 28 days, 29 in leap years; any
/// other month `m` has 30 + (m + m / 8) % 2 days (31 in January, March, May,
/// July, August, October and December, 30 in April, June, September and
/// November); and the twelve months make 365 days, 366 in leap years.
pub proof fn law_month_lengths(y: int, m: int)
    requires
        1 <= m <= 12,
    ensures
        m == 2 ==> month_days(y, m) == if is_leap(y) {
            29nat
        } else {
            28nat
        },
        m != 2 ==> month_days(y, m) == 30 + (m + m / 8) % 2,
        month_days(y, 1) + month_days(y, 2) + month_days(y, 3) + month_days(y, 4) + month_days(y, 5)
            + month_days(y, 6) + month_days(y, 7) + month_days(y, 8) + month_days(y, 9)
            + month_days(y, 10) + month_days(y, 11) + month_days(y, 12) == if is_leap(y) {
            366int
        } else {
            365int
        },
{
}

/// Day `d` of a month is in that month exactly while `d` is less than the
/// month's length; the day after the month's last day is the first of the
/// next month (January of the next year after December).
pub proof fn law_month_steps(d: nat, y: nat, m: nat)
    requires
        1 <= m <= 12,
    ensures
        d < month_days(y as int, m as int) ==> month_at(d, y, m) == (y, m),
        d >= month_days(y as int, m as int) ==> month_at(d, y, m) == if m == 12 {
            month_at((d - month_days(y as int, m as int)) as nat, y + 1, 1)
        } else {
            month_at((d - month_days(y as int, m as int)) as nat, y, m + 1)
        },
{
}

/// Moments are counted from 1970-01-01T00:00:00 UTC in days of 86400
/// seconds: the first 31 days are January 1970 and the 28 days after them
/// February 1970.
pub proof fn law_epoch_months(unix_secs: nat)
    ensures
        unix_secs < 2678400 ==> month_of(unix_secs) == (1970nat, 1nat),
        2678400 <= unix_secs < 5097600 ==> month_of(unix_secs) == (1970nat, 2nat),
{
    if 2678400 <= unix_secs < 5097600 {
        let d = unix_secs / 86400;
        assert(31 <= d < 59);
        assert(month_at(d, 1970, 1) == month_at((d - 31) as nat, 1970, 2));
    }
}

} // verus!
