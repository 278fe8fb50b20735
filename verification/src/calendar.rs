//! Proleptic Gregorian calendar arithmetic and RFC 3339 timestamps.
use vstd::prelude::*;

use crate::text::push_char;

verus! {

/// Whether `y` is a leap year in the proleptic Gregorian calendar.
pub open spec fn is_leap_year(y: int) -> bool {
    y % 4 == 0 && (y % 100 != 0 || y % 400 == 0)
}

/// Number of days in month `m` (1-based) of year `y`.
pub open spec fn days_in_month(y: int, m: int) -> int {
    if m == 2 {
        if is_leap_year(y) {
            29
        } else {
            28
        }
    } else if m == 4 || m == 6 || m == 9 || m == 11 {
        30
    } else {
        31
    }
}

/// `(y, m, d)` names a day of the calendar.
pub open spec fn valid_date(y: int, m: int, d: int) -> bool {
    1 <= m <= 12 && 1 <= d <= days_in_month(y, m)
}

/// Leap years among the years before `y` (counted from year 1; for earlier
/// years the count goes negative, so differences stay exact).
pub open spec fn leap_years_before(y: int) -> int {
    (y - 1) / 4 - (y - 1) / 100 + (y - 1) / 400
}

/// Days from 1970-01-01 to January 1st of year `y`.
pub open spec fn days_before_year(y: int) -> int {
    365 * (y - 1970) + leap_years_before(y) - leap_years_before(1970)
}

/// Days from January 1st of year `y` to the first day of month `m`.
pub open spec fn days_before_month(y: int, m: int) -> int {
    let common: int = if m == 1 {
        0
    } else if m == 2 {
        31
    } else if m == 3 {
        59
    } else if m == 4 {
        90
    } else if m == 5 {
        120
    } else if m == 6 {
        151
    } else if m == 7 {
        181
    } else if m == 8 {
        212
    } else if m == 9 {
        243
    } else if m == 10 {
        273
    } else if m == 11 {
        304
    } else {
        334
    };
    common + if m > 2 && is_leap_year(y) {
        1int
    } else {
        0int
    }
}

/// Days from 1970-01-01 to the date `(y, m, d)`.
pub open spec fn days_from_civil(y: int, m: int, d: int) -> int {
    days_before_year(y) + days_before_month(y, m) + d - 1
}

/// Days before shifted year `yoe` of an era (shifted years start on March 1st).
pub open spec fn era_days_before(yoe: int) -> int {
    365 * yoe + yoe / 4 - yoe / 100
}

/// Days before shifted month `mp` (0 = March) of a shifted year.
pub open spec fn shifted_days_before_month(mp: int) -> int {
    (153 * mp + 2) / 5
}

/// Length of shifted year `yoe` of an era: it holds the February of the
/// following calendar year.
pub open spec fn shifted_year_len(yoe: int) -> int {
    if (yoe + 1) % 4 == 0 && ((yoe + 1) % 100 != 0 || (yoe + 1) % 400 == 0) {
        366
    } else {
        365
    }
}

/// The shifted year of day `doe` of an era, as the closed form computes it.
pub open spec fn year_of_era(doe: int) -> int {
    (doe - doe / 1460 + doe / 36524 - doe / 146096) / 365
}

proof fn lemma_year_of_era(doe: int)
    requires
        0 <= doe <= 146096,
    ensures
        0 <= year_of_era(doe) <= 399,
        era_days_before(year_of_era(doe)) <= doe,
        doe < era_days_before(year_of_era(doe)) + shifted_year_len(year_of_era(doe)),
{
}

/// The calendar month of shifted month `mp` (0 = March, ..., 11 = February).
pub open spec fn month_of_shifted(mp: int) -> int {
    if mp < 10 {
        mp + 3
    } else {
        mp - 9
    }
}

/// Length of calendar month `m` when February has `feb` days.
pub open spec fn month_len(m: int, feb: int) -> int {
    if m == 2 {
        feb
    } else if m == 4 || m == 6 || m == 9 || m == 11 {
        30
    } else {
        31
    }
}

proof fn lemma_month_of_year(doy: int, len: int)
    requires
        0 <= doy < len,
        len == 365 || len == 366,
    ensures
        0 <= (5 * doy + 2) / 153 <= 11,
        shifted_days_before_month((5 * doy + 2) / 153) <= doy,
        doy - shifted_days_before_month((5 * doy + 2) / 153) < month_len(
            month_of_shifted((5 * doy + 2) / 153),
            len - 337,
        ),
{
}

proof fn lemma_div_shift(a: int, x: int, c: int)
    requires
        0 < c,
    ensures
        (c * a + x) / c == a + x / c,
        (c * a + x) % c == x % c,
{
    let q = x / c;
    let r = x % c;
    vstd::arithmetic::div_mod::lemma_fundamental_div_mod(x, c);
    assert(c * a + x == (a + q) * c + r) by (nonlinear_arith)
        requires
            x == c * q + r,
    ;
    vstd::arithmetic::div_mod::lemma_fundamental_div_mod_converse(c * a + x, c, a + q, r);
}

/// Shifting a year by whole 400-year eras shifts its first day by whole
/// 146097-day eras and keeps its leap status.
proof fn lemma_era_shift(era: int, k: int)
    ensures
        days_before_year(400 * era + k) == 146097 * era + days_before_year(k),
        is_leap_year(400 * era + k) == is_leap_year(k),
{
    lemma_div_shift(100 * era, k - 1, 4);
    lemma_div_shift(4 * era, k - 1, 100);
    lemma_div_shift(era, k - 1, 400);
    lemma_div_shift(100 * era, k, 4);
    lemma_div_shift(4 * era, k, 100);
    lemma_div_shift(era, k, 400);
    assert(4 * (100 * era) + (k - 1) == 400 * era + k - 1);
    assert(100 * (4 * era) + (k - 1) == 400 * era + k - 1);
    assert(4 * (100 * era) + k == 400 * era + k);
    assert(100 * (4 * era) + k == 400 * era + k);
}

proof fn lemma_assemble_first_era(yoe: int, mp: int, d: int)
    requires
        0 <= yoe <= 399,
        0 <= mp <= 11,
    ensures
        ({
            let m = month_of_shifted(mp);
            let y = yoe + if m <= 2 {
                1int
            } else {
                0int
            };
            &&& days_from_civil(y, m, d) == era_days_before(yoe) + shifted_days_before_month(mp) + d
                - 1 - 719468
            &&& days_in_month(y, m) == month_len(m, shifted_year_len(yoe) - 337)
        }),
{
}

proof fn lemma_assemble(era: int, yoe: int, mp: int, d: int)
    requires
        0 <= yoe <= 399,
        0 <= mp <= 11,
    ensures
        ({
            let m = month_of_shifted(mp);
            let y = era * 400 + yoe + if m <= 2 {
                1int
            } else {
                0int
            };
            &&& days_from_civil(y, m, d) == era * 146097 + era_days_before(yoe)
                + shifted_days_before_month(mp) + d - 1 - 719468
            &&& days_in_month(y, m) == month_len(m, shifted_year_len(yoe) - 337)
        }),
{
    let m = month_of_shifted(mp);
    let k = yoe + if m <= 2 {
        1int
    } else {
        0int
    };
    lemma_assemble_first_era(yoe, mp, d);
    lemma_era_shift(era, k);
    assert(era * 400 + k == 400 * era + k);
}

/// Convert days since 1970-01-01 to (year, month, day).
pub fn civil_from_days(days: i64) -> (r: (i64, u32, u32))
    requires
        days <= i64::MAX - 719468,
    ensures
        valid_date(r.0 as int, r.1 as int, r.2 as int),
        days_from_civil(r.0 as int, r.1 as int, r.2 as int) == days,
{
    let z = days + 719468;
    let era = (if z >= 0 {
        z
    } else {
        z - 146096
    }) / 146097;
    proof {
        vstd::arithmetic::div_mod::lemma_fundamental_div_mod(z as int, 146097);
        assert(era == z as int / 146097);
    }
    let doe = (z - era * 146097) as u32;
    let yoe = (doe - doe / 1460 + doe / 36524 - doe / 146096) / 365;
    proof {
        lemma_year_of_era(doe as int);
        assert(yoe == year_of_era(doe as int));
    }
    let y = yoe as i64 + era * 400;
    let doy = doe - (365 * yoe + yoe / 4 - yoe / 100);
    proof {
        lemma_month_of_year(doy as int, shifted_year_len(yoe as int));
    }
    let mp = (5 * doy + 2) / 153;
    let d = doy - (153 * mp + 2) / 5 + 1;
    let m = if mp < 10 {
        mp + 3
    } else {
        mp - 9
    };
    let y = if m <= 2 {
        y + 1
    } else {
        y
    };
    proof {
        lemma_assemble(era as int, yoe as int, mp as int, d as int);
    }
    (y, m, d)
}

/// The decimal digit character for `d` (0..=9).
pub open spec fn digit_char(d: int) -> char {
    if d == 0 {
        '0'
    } else if d == 1 {
        '1'
    } else if d == 2 {
        '2'
    } else if d == 3 {
        '3'
    } else if d == 4 {
        '4'
    } else if d == 5 {
        '5'
    } else if d == 6 {
        '6'
    } else if d == 7 {
        '7'
    } else if d == 8 {
        '8'
    } else {
        '9'
    }
}

/// The decimal representation of `n`, without leading zeros.
pub open spec fn decimal_digits(n: nat) -> Seq<char>
    decreases n,
{
    if n < 10 {
        seq![digit_char(n as int)]
    } else {
        decimal_digits(n / 10).push(digit_char((n % 10) as int))
    }
}

/// `n` in decimal, left-padded with `'0'` to at least `width` characters.
pub open spec fn zero_padded(n: nat, width: nat) -> Seq<char> {
    let digits = decimal_digits(n);
    if digits.len() < width {
        Seq::new((width - digits.len()) as nat, |i: int| '0') + digits
    } else {
        digits
    }
}

/// The RFC 3339 text `YYYY-MM-DDTHH:MM:SSZ` of a date and a time of day.
pub open spec fn timestamp_text(y: nat, mo: nat, d: nat, h: nat, mi: nat, s: nat) -> Seq<char> {
    zero_padded(y, 4) + "-"@ + zero_padded(mo, 2) + "-"@ + zero_padded(d, 2) + "T"@ + zero_padded(
        h,
        2,
    ) + ":"@ + zero_padded(mi, 2) + ":"@ + zero_padded(s, 2) + "Z"@
}

/// `text` is the RFC 3339 UTC timestamp of `secs` seconds after the Unix epoch.
pub open spec fn is_timestamp_of(text: Seq<char>, secs: nat) -> bool {
    let days = secs / 86400;
    let tod = secs % 86400;
    exists|y: nat, m: nat, d: nat|
        #![trigger days_from_civil(y as int, m as int, d as int)]
        valid_date(y as int, m as int, d as int) && days_from_civil(y as int, m as int, d as int)
            == days && text == timestamp_text(y, m, d, tod / 3600, (tod % 3600) / 60, tod % 60)
}

fn digit_of(d: u64) -> (c: char)
    requires
        d < 10,
    ensures
        c == digit_char(d as int),
{
    match d {
        0 => '0',
        1 => '1',
        2 => '2',
        3 => '3',
        4 => '4',
        5 => '5',
        6 => '6',
        7 => '7',
        8 => '8',
        _ => '9',
    }
}

/// Appends `n` in decimal.
pub fn push_decimal(out: &mut String, n: u64)
    ensures
        final(out)@ == old(out)@ + decimal_digits(n as nat),
    decreases n,
{
    if n >= 10 {
        push_decimal(out, n / 10);
    }
    push_char(out, digit_of(n % 10));
    proof {
        assert(final(out)@ =~= old(out)@ + decimal_digits(n as nat)) by {
            if n >= 10 {
                assert(decimal_digits(n as nat) == decimal_digits((n / 10) as nat).push(
                    digit_char((n % 10) as int),
                ));
            }
        }
    }
}

fn digit_count(n: u64) -> (c: u64)
    ensures
        c == decimal_digits(n as nat).len(),
        c <= 20,
    decreases n,
{
    if n >= 10 {
        let k = digit_count(n / 10);
        proof {
            assert(decimal_digits(n as nat).len() == decimal_digits((n / 10) as nat).len() + 1);
            lemma_digit_count_bound(n as nat);
            lemma_digit_count_bound((n / 10) as nat);
        }
        k + 1
    } else {
        1
    }
}

proof fn lemma_digit_count_bound(n: nat)
    requires
        n <= u64::MAX,
    ensures
        decimal_digits(n).len() <= 20,
{
    reveal_with_fuel(pow10, 21);
    lemma_digits_len_le(n, 20);
}

proof fn lemma_digits_len_le(n: nat, k: nat)
    requires
        1 <= k,
        n < pow10(k),
    ensures
        decimal_digits(n).len() <= k,
    decreases k,
{
    if n >= 10 {
        assert(k > 1) by {
            if k == 1 {
                assert(pow10(1) == 10 * pow10(0));
            }
        }
        assert(pow10(k) == 10 * pow10((k - 1) as nat));
        lemma_digits_len_le(n / 10, (k - 1) as nat);
    }
}

/// Ten to the power `k`.
pub open spec fn pow10(k: nat) -> nat
    decreases k,
{
    if k == 0 {
        1
    } else {
        10 * pow10((k - 1) as nat)
    }
}

/// A signed integer in decimal: a minus sign before the digits of a negative number.
pub open spec fn int_text(n: int) -> Seq<char> {
    if n < 0 {
        "-"@ + decimal_digits((-n) as nat)
    } else {
        decimal_digits(n as nat)
    }
}

/// Appends `n` in decimal, with a minus sign when it is negative.
pub fn push_int(out: &mut String, n: i64)
    ensures
        final(out)@ == old(out)@ + int_text(n as int),
{
    if n < 0 {
        out.append("-");
        proof {
            reveal_strlit("-");
        }
        let a: i128 = -(n as i128);
        push_decimal(out, a as u64);
        proof {
            assert(final(out)@ =~= old(out)@ + int_text(n as int));
        }
    } else {
        push_decimal(out, n as u64);
    }
}

/// Appends `n` in decimal, left-padded with `'0'` to at least `width` characters.
fn push_zero_padded(out: &mut String, n: u64, width: u64)
    requires
        width <= 20,
    ensures
        final(out)@ == old(out)@ + zero_padded(n as nat, width as nat),
{
    let count = digit_count(n);
    let ghost start = out@;
    if count < width {
        let pad = width - count;
        let mut i: u64 = 0;
        while i < pad
            invariant
                i <= pad,
                out@ == start + Seq::new(i as nat, |j: int| '0'),
            decreases pad - i,
        {
            push_char(out, '0');
            i = i + 1;
            proof {
                assert(out@ =~= start + Seq::new(i as nat, |j: int| '0'));
            }
        }
    }
    let ghost mid = out@;
    push_decimal(out, n);
    proof {
        assert(out@ =~= start + zero_padded(n as nat, width as nat));
    }
}

/// Format `secs` seconds after the Unix epoch as an RFC 3339 UTC timestamp
/// (`YYYY-MM-DDTHH:MM:SSZ`).
pub fn rfc3339_from_unix_seconds(secs: u64) -> (r: String)
    ensures
        is_timestamp_of(r@, secs as nat),
{
    let days = secs / 86400;
    let time_of_day = secs % 86400;
    let hours = time_of_day / 3600;
    let minutes = (time_of_day % 3600) / 60;
    let seconds = time_of_day % 60;
    let (year, month, day) = civil_from_days(days as i64);
    proof {
        lemma_year_positive(days as int, year as int, month as int, day as int);
    }
    let mut out = String::new();
    push_zero_padded(&mut out, year as u64, 4);
    out.append("-");
    push_zero_padded(&mut out, month as u64, 2);
    out.append("-");
    push_zero_padded(&mut out, day as u64, 2);
    out.append("T");
    push_zero_padded(&mut out, hours, 2);
    out.append(":");
    push_zero_padded(&mut out, minutes, 2);
    out.append(":");
    push_zero_padded(&mut out, seconds, 2);
    out.append("Z");
    proof {
        assert(out@ =~= timestamp_text(
            year as nat,
            month as nat,
            day as nat,
            hours as nat,
            minutes as nat,
            seconds as nat,
        ));
        assert(days_from_civil(year as nat as int, month as nat as int, day as nat as int)
            == days);
    }
    out
}

/// A date on or after 1970-01-01 lies in a year from 1970 on.
proof fn lemma_year_positive(days: int, y: int, m: int, d: int)
    requires
        days >= 0,
        valid_date(y, m, d),
        days_from_civil(y, m, d) == days,
    ensures
        y >= 1970,
{
    if y < 1970 {
        lemma_days_before_year_monotone(y + 1, 1970);
        assert(days_before_year(1970) == 0);
        assert(days_from_civil(y, m, d) < days_before_year(y + 1)) by {
            lemma_year_length(y);
        }
    }
}

/// Year `y` has 365 days, or 366 in a leap year.
proof fn lemma_year_length(y: int)
    ensures
        days_before_year(y + 1) - days_before_year(y) == if is_leap_year(y) {
            366int
        } else {
            365int
        },
{
    lemma_floor_step(y - 1, 4);
    lemma_floor_step(y - 1, 100);
    lemma_floor_step(y - 1, 400);
}

/// `(x + 1) / c` exceeds `x / c` by one exactly when `c` divides `x + 1`.
proof fn lemma_floor_step(x: int, c: int)
    requires
        0 < c,
    ensures
        (x + 1) / c == x / c + if (x + 1) % c == 0 {
            1int
        } else {
            0int
        },
{
    let q = x / c;
    let r = x % c;
    vstd::arithmetic::div_mod::lemma_fundamental_div_mod(x, c);
    if r + 1 == c {
        assert(x + 1 == (q + 1) * c + 0) by (nonlinear_arith)
            requires
                x == c * q + r,
                r + 1 == c,
        ;
        vstd::arithmetic::div_mod::lemma_fundamental_div_mod_converse(x + 1, c, q + 1, 0);
    } else {
        assert(x + 1 == q * c + (r + 1)) by (nonlinear_arith)
            requires
                x == c * q + r,
        ;
        vstd::arithmetic::div_mod::lemma_fundamental_div_mod_converse(x + 1, c, q, r + 1);
    }
}

/// Later years start later.
proof fn lemma_days_before_year_monotone(a: int, b: int)
    requires
        a <= b,
    ensures
        days_before_year(a) <= days_before_year(b),
    decreases b - a,
{
    if a < b {
        lemma_year_length(a);
        lemma_days_before_year_monotone(a + 1, b);
    }
}

/// A valid date's day count lies within its year.
proof fn lemma_date_within_year(y: int, m: int, d: int)
    requires
        valid_date(y, m, d),
    ensures
        days_before_year(y) <= days_from_civil(y, m, d) < days_before_year(y + 1),
{
    lemma_year_length(y);
}

/// Within one year, a valid date's day count lies within its month.
proof fn lemma_month_order(y: int, m1: int, d1: int, m2: int, d2: int)
    requires
        valid_date(y, m1, d1),
        valid_date(y, m2, d2),
        m1 < m2,
    ensures
        days_from_civil(y, m1, d1) < days_from_civil(y, m2, d2),
{
}

/// Different dates have different day counts: `days_from_civil` is one to one
/// on valid dates, so `civil_from_days` is its inverse.
pub proof fn lemma_days_from_civil_injective(y1: int, m1: int, d1: int, y2: int, m2: int, d2: int)
    requires
        valid_date(y1, m1, d1),
        valid_date(y2, m2, d2),
        days_from_civil(y1, m1, d1) == days_from_civil(y2, m2, d2),
    ensures
        y1 == y2 && m1 == m2 && d1 == d2,
{
    lemma_date_within_year(y1, m1, d1);
    lemma_date_within_year(y2, m2, d2);
    if y1 < y2 {
        lemma_days_before_year_monotone(y1 + 1, y2);
    } else if y2 < y1 {
        lemma_days_before_year_monotone(y2 + 1, y1);
    } else if m1 < m2 {
        lemma_month_order(y1, m1, d1, m2, d2);
    } else if m2 < m1 {
        lemma_month_order(y1, m2, d2, m1, d1);
    }
}

/// The calendar day after `(y, m, d)`: the next day of the month, else the
/// first of the next month, else New Year's Day of the next year.
pub open spec fn next_day(y: int, m: int, d: int) -> (int, int, int) {
    if d < days_in_month(y, m) {
        (y, m, d + 1)
    } else if m < 12 {
        (y, m + 1, 1)
    } else {
        (y + 1, 1, 1)
    }
}

/// The day after a valid date is a valid date, and its day count is one more.
pub proof fn lemma_next_day(y: int, m: int, d: int)
    requires
        valid_date(y, m, d),
    ensures
        valid_date(next_day(y, m, d).0, next_day(y, m, d).1, next_day(y, m, d).2),
        days_from_civil(next_day(y, m, d).0, next_day(y, m, d).1, next_day(y, m, d).2)
            == days_from_civil(y, m, d) + 1,
{
    if d == days_in_month(y, m) && m == 12 {
        lemma_year_length(y);
    }
}

/// Consecutive day counts name consecutive calendar days: the date that
/// `civil_from_days` gives for `days + 1` is the day after the one it gives
/// for `days`.
pub proof fn lemma_successor_day(y1: int, m1: int, d1: int, y2: int, m2: int, d2: int)
    requires
        valid_date(y1, m1, d1),
        valid_date(y2, m2, d2),
        days_from_civil(y2, m2, d2) == days_from_civil(y1, m1, d1) + 1,
    ensures
        (y2, m2, d2) == next_day(y1, m1, d1),
{
    lemma_next_day(y1, m1, d1);
    let (y, m, d) = next_day(y1, m1, d1);
    lemma_days_from_civil_injective(y, m, d, y2, m2, d2);
}

/// The number of seconds since the Unix epoch, read from the system clock
/// (std `SystemTime::now` and `duration_since(UNIX_EPOCH)`; a clock set before
/// the epoch reads as 0). Nothing is stated of the value: it is the time.
#[verifier::external_body]
fn unix_seconds_now() -> u64 {
    std::time::SystemTime::now().duration_since(std::time::UNIX_EPOCH).unwrap_or_default().as_secs()
}

/// Format the current UTC time as an RFC 3339 string.
pub fn utc_now_rfc3339() -> (r: String)
    ensures
        exists|secs: nat| is_timestamp_of(r@, secs),
{
    let secs = unix_seconds_now();
    rfc3339_from_unix_seconds(secs)
}

} // verus!
